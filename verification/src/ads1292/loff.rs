//! Lead-off detection registers.

use crate::bits::{
    bit, bit_of, bit_range, bits_of, field_value, flag_number, flag_value, set_bit, set_bit_range,
    with_bit, with_bits,
};
use vstd::prelude::*;
use vstd::std_specs::convert::{FromSpec, TryFromSpec};

verus! {

/// Lead-off control configuration
#[derive(Debug, Clone, Copy, PartialEq, Eq)]
pub struct LeadOffControl {
    pub frequency: LeadOffFreq,
    pub magnitude: LeadOffCurrentMagnitude,
    pub comparator_threshold: LeadOffCompThreshold,
}

/// Lead-off frequency
#[derive(Debug, Clone, Copy, PartialEq, Eq, Structural)]
pub enum LeadOffFreq {
    /// DC lead-off detection turned on
    DC,
    /// AC lead-off detection at `fDR`/ 4
    AC,
}

impl LeadOffFreq {
    /// The field value that selects this member.
    pub open spec fn spec_bits(self) -> u8 {
        match self {
            LeadOffFreq::DC => 0b0,
            LeadOffFreq::AC => 0b1,
        }
    }

    /// The field value that selects this member.
    #[verifier::when_used_as_spec(spec_bits)]
    pub fn bits(self) -> (raw: u8)
        ensures
            raw == self.spec_bits(),
            LeadOffFreq::try_from_spec(raw) == Ok::<LeadOffFreq, u8>(self),
    {
        match self {
            LeadOffFreq::DC => 0b0,
            LeadOffFreq::AC => 0b1,
        }
    }
}

impl TryFrom<u8> for LeadOffFreq {
    type Error = u8;

    /// The member that a field value selects; a value that selects none
    /// comes back as the error.
    fn try_from(number: u8) -> (member: Result<Self, u8>) {
        match number {
            0b0 => Ok(LeadOffFreq::DC),
            0b1 => Ok(LeadOffFreq::AC),
            _ => Err(number),
        }
    }
}

impl vstd::std_specs::convert::TryFromSpecImpl<u8> for LeadOffFreq {
    open spec fn obeys_try_from_spec() -> bool {
        true
    }

    open spec fn try_from_spec(number: u8) -> Result<Self, u8> {
        match number {
            0b0 => Ok(LeadOffFreq::DC),
            0b1 => Ok(LeadOffFreq::AC),
            _ => Err(number),
        }
    }
}

impl From<LeadOffFreq> for bool {
    /// Whether the member is the one that sets its bit.
    fn from(v: LeadOffFreq) -> (flag: bool) {
        if v.bits() == 0x00 {
            false
        } else {
            true
        }
    }
}

impl vstd::std_specs::convert::FromSpecImpl<LeadOffFreq> for bool {
    open spec fn obeys_from_spec() -> bool {
        true
    }

    open spec fn from_spec(v: LeadOffFreq) -> bool {
        v.spec_bits() != 0x00
    }
}

/// Lead-off current magnitude
#[allow(non_camel_case_types)]
#[derive(Debug, Clone, Copy, PartialEq, Eq, Structural)]
pub enum LeadOffCurrentMagnitude {
    nA_6,
    nA_22,
    uA_6,
    uA_22,
}

impl LeadOffCurrentMagnitude {
    /// The field value that selects this member.
    pub open spec fn spec_bits(self) -> u8 {
        match self {
            LeadOffCurrentMagnitude::nA_6 => 0b00,
            LeadOffCurrentMagnitude::nA_22 => 0b01,
            LeadOffCurrentMagnitude::uA_6 => 0b10,
            LeadOffCurrentMagnitude::uA_22 => 0b11,
        }
    }

    /// The field value that selects this member.
    #[verifier::when_used_as_spec(spec_bits)]
    pub fn bits(self) -> (raw: u8)
        ensures
            raw == self.spec_bits(),
            LeadOffCurrentMagnitude::try_from_spec(raw) == Ok::<LeadOffCurrentMagnitude, u8>(self),
    {
        match self {
            LeadOffCurrentMagnitude::nA_6 => 0b00,
            LeadOffCurrentMagnitude::nA_22 => 0b01,
            LeadOffCurrentMagnitude::uA_6 => 0b10,
            LeadOffCurrentMagnitude::uA_22 => 0b11,
        }
    }
}

impl TryFrom<u8> for LeadOffCurrentMagnitude {
    type Error = u8;

    /// The member that a field value selects; a value that selects none
    /// comes back as the error.
    fn try_from(number: u8) -> (member: Result<Self, u8>) {
        match number {
            0b00 => Ok(LeadOffCurrentMagnitude::nA_6),
            0b01 => Ok(LeadOffCurrentMagnitude::nA_22),
            0b10 => Ok(LeadOffCurrentMagnitude::uA_6),
            0b11 => Ok(LeadOffCurrentMagnitude::uA_22),
            _ => Err(number),
        }
    }
}

impl vstd::std_specs::convert::TryFromSpecImpl<u8> for LeadOffCurrentMagnitude {
    open spec fn obeys_try_from_spec() -> bool {
        true
    }

    open spec fn try_from_spec(number: u8) -> Result<Self, u8> {
        match number {
            0b00 => Ok(LeadOffCurrentMagnitude::nA_6),
            0b01 => Ok(LeadOffCurrentMagnitude::nA_22),
            0b10 => Ok(LeadOffCurrentMagnitude::uA_6),
            0b11 => Ok(LeadOffCurrentMagnitude::uA_22),
            _ => Err(number),
        }
    }
}

/// Lead-off comparator threshold
///
/// The three bits of the field mean one thing for the positive side and
/// another for the negative side.
#[derive(Debug, Clone, Copy, PartialEq, Eq)]
pub enum LeadOffCompThreshold {
    PositiveSide(CompPositiveSide),
    NegativeSide(CompNegativeSide),
}

impl LeadOffCompThreshold {
    /// The field value of the threshold, whichever side it is for.
    pub open spec fn spec_bits(self) -> u8 {
        match self {
            LeadOffCompThreshold::PositiveSide(vv) => vv.spec_bits(),
            LeadOffCompThreshold::NegativeSide(vv) => vv.spec_bits(),
        }
    }
}

impl From<LeadOffCompThreshold> for u8 {
    /// The field value of the threshold, whichever side it is for.
    fn from(v: LeadOffCompThreshold) -> (raw: Self) {
        match v {
            LeadOffCompThreshold::PositiveSide(vv) => vv.bits(),
            LeadOffCompThreshold::NegativeSide(vv) => vv.bits(),
        }
    }
}

impl vstd::std_specs::convert::FromSpecImpl<LeadOffCompThreshold> for u8 {
    open spec fn obeys_from_spec() -> bool {
        true
    }

    open spec fn from_spec(v: LeadOffCompThreshold) -> Self {
        v.spec_bits()
    }
}

/// Comparator positive side
#[allow(non_camel_case_types)]
#[derive(Debug, Clone, Copy, PartialEq, Eq, Structural)]
pub enum CompPositiveSide {
    Pct_95_5,
    Pct_92_5,
    Pct_90_0,
    Pct_87_5,
    Pct_85_0,
    Pct_80_0,
    Pct_75_0,
    Pct_70_0,
}

impl CompPositiveSide {
    /// The field value that selects this member.
    pub open spec fn spec_bits(self) -> u8 {
        match self {
            CompPositiveSide::Pct_95_5 => 0b000,
            CompPositiveSide::Pct_92_5 => 0b001,
            CompPositiveSide::Pct_90_0 => 0b010,
            CompPositiveSide::Pct_87_5 => 0b011,
            CompPositiveSide::Pct_85_0 => 0b100,
            CompPositiveSide::Pct_80_0 => 0b101,
            CompPositiveSide::Pct_75_0 => 0b110,
            CompPositiveSide::Pct_70_0 => 0b111,
        }
    }

    /// The field value that selects this member.
    #[verifier::when_used_as_spec(spec_bits)]
    pub fn bits(self) -> (raw: u8)
        ensures
            raw == self.spec_bits(),
            CompPositiveSide::try_from_spec(raw) == Ok::<CompPositiveSide, u8>(self),
    {
        match self {
            CompPositiveSide::Pct_95_5 => 0b000,
            CompPositiveSide::Pct_92_5 => 0b001,
            CompPositiveSide::Pct_90_0 => 0b010,
            CompPositiveSide::Pct_87_5 => 0b011,
            CompPositiveSide::Pct_85_0 => 0b100,
            CompPositiveSide::Pct_80_0 => 0b101,
            CompPositiveSide::Pct_75_0 => 0b110,
            CompPositiveSide::Pct_70_0 => 0b111,
        }
    }
}

impl TryFrom<u8> for CompPositiveSide {
    type Error = u8;

    /// The member that a field value selects; a value that selects none
    /// comes back as the error.
    fn try_from(number: u8) -> (member: Result<Self, u8>) {
        match number {
            0b000 => Ok(CompPositiveSide::Pct_95_5),
            0b001 => Ok(CompPositiveSide::Pct_92_5),
            0b010 => Ok(CompPositiveSide::Pct_90_0),
            0b011 => Ok(CompPositiveSide::Pct_87_5),
            0b100 => Ok(CompPositiveSide::Pct_85_0),
            0b101 => Ok(CompPositiveSide::Pct_80_0),
            0b110 => Ok(CompPositiveSide::Pct_75_0),
            0b111 => Ok(CompPositiveSide::Pct_70_0),
            _ => Err(number),
        }
    }
}

impl vstd::std_specs::convert::TryFromSpecImpl<u8> for CompPositiveSide {
    open spec fn obeys_try_from_spec() -> bool {
        true
    }

    open spec fn try_from_spec(number: u8) -> Result<Self, u8> {
        match number {
            0b000 => Ok(CompPositiveSide::Pct_95_5),
            0b001 => Ok(CompPositiveSide::Pct_92_5),
            0b010 => Ok(CompPositiveSide::Pct_90_0),
            0b011 => Ok(CompPositiveSide::Pct_87_5),
            0b100 => Ok(CompPositiveSide::Pct_85_0),
            0b101 => Ok(CompPositiveSide::Pct_80_0),
            0b110 => Ok(CompPositiveSide::Pct_75_0),
            0b111 => Ok(CompPositiveSide::Pct_70_0),
            _ => Err(number),
        }
    }
}

/// Comparator negative side
#[allow(non_camel_case_types)]
#[derive(Debug, Clone, Copy, PartialEq, Eq, Structural)]
pub enum CompNegativeSide {
    Pct_5_0,
    Pct_7_5,
    Pct_10_0,
    Pct_12_5,
    Pct_15_0,
    Pct_20_0,
    Pct_25_0,
    Pct_30_0,
}

impl CompNegativeSide {
    /// The field value that selects this member.
    pub open spec fn spec_bits(self) -> u8 {
        match self {
            CompNegativeSide::Pct_5_0 => 0b000,
            CompNegativeSide::Pct_7_5 => 0b001,
            CompNegativeSide::Pct_10_0 => 0b010,
            CompNegativeSide::Pct_12_5 => 0b011,
            CompNegativeSide::Pct_15_0 => 0b100,
            CompNegativeSide::Pct_20_0 => 0b101,
            CompNegativeSide::Pct_25_0 => 0b110,
            CompNegativeSide::Pct_30_0 => 0b111,
        }
    }

    /// The field value that selects this member.
    #[verifier::when_used_as_spec(spec_bits)]
    pub fn bits(self) -> (raw: u8)
        ensures
            raw == self.spec_bits(),
            CompNegativeSide::try_from_spec(raw) == Ok::<CompNegativeSide, u8>(self),
    {
        match self {
            CompNegativeSide::Pct_5_0 => 0b000,
            CompNegativeSide::Pct_7_5 => 0b001,
            CompNegativeSide::Pct_10_0 => 0b010,
            CompNegativeSide::Pct_12_5 => 0b011,
            CompNegativeSide::Pct_15_0 => 0b100,
            CompNegativeSide::Pct_20_0 => 0b101,
            CompNegativeSide::Pct_25_0 => 0b110,
            CompNegativeSide::Pct_30_0 => 0b111,
        }
    }
}

impl TryFrom<u8> for CompNegativeSide {
    type Error = u8;

    /// The member that a field value selects; a value that selects none
    /// comes back as the error.
    fn try_from(number: u8) -> (member: Result<Self, u8>) {
        match number {
            0b000 => Ok(CompNegativeSide::Pct_5_0),
            0b001 => Ok(CompNegativeSide::Pct_7_5),
            0b010 => Ok(CompNegativeSide::Pct_10_0),
            0b011 => Ok(CompNegativeSide::Pct_12_5),
            0b100 => Ok(CompNegativeSide::Pct_15_0),
            0b101 => Ok(CompNegativeSide::Pct_20_0),
            0b110 => Ok(CompNegativeSide::Pct_25_0),
            0b111 => Ok(CompNegativeSide::Pct_30_0),
            _ => Err(number),
        }
    }
}

impl vstd::std_specs::convert::TryFromSpecImpl<u8> for CompNegativeSide {
    open spec fn obeys_try_from_spec() -> bool {
        true
    }

    open spec fn try_from_spec(number: u8) -> Result<Self, u8> {
        match number {
            0b000 => Ok(CompNegativeSide::Pct_5_0),
            0b001 => Ok(CompNegativeSide::Pct_7_5),
            0b010 => Ok(CompNegativeSide::Pct_10_0),
            0b011 => Ok(CompNegativeSide::Pct_12_5),
            0b100 => Ok(CompNegativeSide::Pct_15_0),
            0b101 => Ok(CompNegativeSide::Pct_20_0),
            0b110 => Ok(CompNegativeSide::Pct_25_0),
            0b111 => Ok(CompNegativeSide::Pct_30_0),
            _ => Err(number),
        }
    }
}

/// Lead-off control register (address 0x03)
///
/// Configures the lead-off detection operation.
#[derive(Debug, Clone, Copy, PartialEq, Eq)]
pub struct LeadOffControlReg(pub u8);

impl LeadOffControlReg {
    /// Selects ac (true) or dc (false) lead-off
    pub fn flead_off(&self) -> (value: bool)
        ensures
            value == bit_of(self.0 as int, 0),
    {
        bit(self.0, 0)
    }

    /// Sets bit 0, the field that [`Self::flead_off`] reads.
    pub fn set_flead_off(&mut self, value: bool)
        ensures
            final(self).0 == with_bit(old(self).0 as int, 0, value),
    {
        self.0 = set_bit(self.0, 0, value);
    }

    /// Magnitude of the lead-off current.
    pub fn ilead_off(&self) -> (value: u8)
        ensures
            value == bits_of(self.0 as int, 3, 2),
    {
        bit_range(self.0, 3, 2)
    }

    /// Sets bits 3..=2, the field that [`Self::ilead_off`] reads.
    pub fn set_ilead_off(&mut self, value: u8)
        ensures
            final(self).0 == with_bits(old(self).0 as int, 3, 2, value as int),
    {
        self.0 = set_bit_range(self.0, 3, 2, value);
    }

    /// Threshold of the lead-off comparators.
    pub fn comp_th(&self) -> (value: u8)
        ensures
            value == bits_of(self.0 as int, 7, 5),
    {
        bit_range(self.0, 7, 5)
    }

    /// Sets bits 7..=5, the field that [`Self::comp_th`] reads.
    pub fn set_comp_th(&mut self, value: u8)
        ensures
            final(self).0 == with_bits(old(self).0 as int, 7, 5, value as int),
    {
        self.0 = set_bit_range(self.0, 7, 5, value);
    }
}

impl From<LeadOffControl> for LeadOffControlReg {
    /// Packs a lead-off configuration into the register byte. Of the
    /// threshold only its three bits are kept, not the side. Bits 1 and 4
    /// stay clear.
    fn from(param: LeadOffControl) -> (reg: Self) {
        let mut reg = LeadOffControlReg(0);
        reg.set_flead_off(bool::from(param.frequency));
        reg.set_ilead_off(param.magnitude.bits());
        reg.set_comp_th(u8::from(param.comparator_threshold));
        reg
    }
}

impl vstd::std_specs::convert::FromSpecImpl<LeadOffControl> for LeadOffControlReg {
    open spec fn obeys_from_spec() -> bool {
        true
    }

    open spec fn from_spec(param: LeadOffControl) -> Self {
        LeadOffControlReg(
            (flag_value(0, param.frequency.spec_bits() != 0)
                + field_value(2, param.magnitude.spec_bits() as int)
                + field_value(5, param.comparator_threshold.spec_bits() as int)) as u8,
        )
    }
}

impl TryFrom<LeadOffControlReg> for LeadOffControl {
    type Error = u8;

    /// Interprets the register byte: every byte has a meaning. The byte does
    /// not say which side the threshold is for; it is read as the positive
    /// side.
    fn try_from(reg: LeadOffControlReg) -> (param: Result<Self, u8>)
        ensures
            param is Ok,
    {
        let frequency = match LeadOffFreq::try_from(reg.flead_off() as u8) {
            Ok(member) => member,
            Err(_) => {
                return Err(reg.0);
            },
        };
        let magnitude = match LeadOffCurrentMagnitude::try_from(reg.ilead_off()) {
            Ok(member) => member,
            Err(_) => {
                return Err(reg.0);
            },
        };
        let threshold = match CompPositiveSide::try_from(reg.comp_th()) {
            Ok(member) => member,
            Err(_) => {
                return Err(reg.0);
            },
        };
        Ok(
            LeadOffControl {
                frequency,
                magnitude,
                comparator_threshold: LeadOffCompThreshold::PositiveSide(threshold),
            },
        )
    }
}

impl vstd::std_specs::convert::TryFromSpecImpl<LeadOffControlReg> for LeadOffControl {
    open spec fn obeys_try_from_spec() -> bool {
        true
    }

    open spec fn try_from_spec(reg: LeadOffControlReg) -> Result<Self, u8> {
        let raw = reg.0 as int;
        match (
            <LeadOffFreq as TryFromSpec<u8>>::try_from_spec(flag_number(bit_of(raw, 0))),
            <LeadOffCurrentMagnitude as TryFromSpec<u8>>::try_from_spec(bits_of(raw, 3, 2) as u8),
            <CompPositiveSide as TryFromSpec<u8>>::try_from_spec(bits_of(raw, 7, 5) as u8),
        ) {
            (Ok(frequency), Ok(magnitude), Ok(threshold)) => Ok(
                LeadOffControl {
                    frequency,
                    magnitude,
                    comparator_threshold: LeadOffCompThreshold::PositiveSide(threshold),
                },
            ),
            _ => Err(reg.0),
        }
    }
}

/// Packing a lead-off configuration whose threshold is for the positive side
/// and interpreting the byte gives the configuration back.
pub proof fn lemma_leadoff_control_round_trip(param: LeadOffControl)
    requires
        param.comparator_threshold is PositiveSide,
    ensures
        LeadOffControl::try_from_spec(LeadOffControlReg::from_spec(param)) == Ok::<
            LeadOffControl,
            u8,
        >(param),
{
}

/// Lead-off sense selection register (address 0x07)
///
/// Selects the positive and negative side from each channel for lead-off detection.
#[derive(Clone, Copy, PartialEq, Eq)]
pub struct LoffSense(pub u8);

impl LoffSense {
    /// Controls the direction of the current used for lead-off derivation for channel 2
    pub fn flip2(&self) -> (value: bool)
        ensures
            value == bit_of(self.0 as int, 5),
    {
        bit(self.0, 5)
    }

    /// Sets bit 5, the field that [`Self::flip2`] reads.
    pub fn set_flip2(&mut self, value: bool)
        ensures
            final(self).0 == with_bit(old(self).0 as int, 5, value),
    {
        self.0 = set_bit(self.0, 5, value);
    }

    /// Controls the direction of the current used for lead-off derivation for channel 1
    pub fn flip1(&self) -> (value: bool)
        ensures
            value == bit_of(self.0 as int, 4),
    {
        bit(self.0, 4)
    }

    /// Sets bit 4, the field that [`Self::flip1`] reads.
    pub fn set_flip1(&mut self, value: bool)
        ensures
            final(self).0 == with_bit(old(self).0 as int, 4, value),
    {
        self.0 = set_bit(self.0, 4, value);
    }

    /// Controls the selection of negative input from channel 2 for lead-off detection
    pub fn loff2n(&self) -> (value: bool)
        ensures
            value == bit_of(self.0 as int, 3),
    {
        bit(self.0, 3)
    }

    /// Sets bit 3, the field that [`Self::loff2n`] reads.
    pub fn set_loff2n(&mut self, value: bool)
        ensures
            final(self).0 == with_bit(old(self).0 as int, 3, value),
    {
        self.0 = set_bit(self.0, 3, value);
    }

    /// Controls the selection of positive input from channel 2 for lead-off detection
    pub fn loff2p(&self) -> (value: bool)
        ensures
            value == bit_of(self.0 as int, 2),
    {
        bit(self.0, 2)
    }

    /// Sets bit 2, the field that [`Self::loff2p`] reads.
    pub fn set_loff2p(&mut self, value: bool)
        ensures
            final(self).0 == with_bit(old(self).0 as int, 2, value),
    {
        self.0 = set_bit(self.0, 2, value);
    }

    /// Controls the selection of negative input from channel 1 for lead-off detection
    pub fn loff1n(&self) -> (value: bool)
        ensures
            value == bit_of(self.0 as int, 1),
    {
        bit(self.0, 1)
    }

    /// Sets bit 1, the field that [`Self::loff1n`] reads.
    pub fn set_loff1n(&mut self, value: bool)
        ensures
            final(self).0 == with_bit(old(self).0 as int, 1, value),
    {
        self.0 = set_bit(self.0, 1, value);
    }

    /// Controls the selection of positive input from channel 1 for lead-off detection
    pub fn loff1p(&self) -> (value: bool)
        ensures
            value == bit_of(self.0 as int, 0),
    {
        bit(self.0, 0)
    }

    /// Sets bit 0, the field that [`Self::loff1p`] reads.
    pub fn set_loff1p(&mut self, value: bool)
        ensures
            final(self).0 == with_bit(old(self).0 as int, 0, value),
    {
        self.0 = set_bit(self.0, 0, value);
    }
}

/// Lead-Off status
#[derive(Debug, Clone, Copy, PartialEq, Eq)]
pub struct LeadOffStatus {
    pub ch1_positive_leadoff: bool,
    pub ch1_negative_leadoff: bool,
    pub ch2_positive_leadoff: bool,
    pub ch2_negative_leadoff: bool,
    pub rld_leadoff: bool,
    pub clk_div: ClkDiv,
}

impl Default for LeadOffStatus {
    fn default() -> (value: Self)
        ensures
            value == (LeadOffStatus {
                ch1_positive_leadoff: false,
                ch1_negative_leadoff: false,
                ch2_positive_leadoff: false,
                ch2_negative_leadoff: false,
                rld_leadoff: false,
                clk_div: ClkDiv::Div4,
            }),
    {
        LeadOffStatus {
            ch1_positive_leadoff: false,
            ch1_negative_leadoff: false,
            ch2_positive_leadoff: false,
            ch2_negative_leadoff: false,
            rld_leadoff: false,
            clk_div: ClkDiv::Div4,
        }
    }
}

/// Clock divider selection
#[derive(Debug, Clone, Copy, PartialEq, Eq, Structural)]
pub enum ClkDiv {
    Div4,
    Div16,
}

impl ClkDiv {
    /// The field value that selects this member.
    pub open spec fn spec_bits(self) -> u8 {
        match self {
            ClkDiv::Div4 => 0x00,
            ClkDiv::Div16 => 0x01,
        }
    }

    /// The field value that selects this member.
    #[verifier::when_used_as_spec(spec_bits)]
    pub fn bits(self) -> (raw: u8)
        ensures
            raw == self.spec_bits(),
            ClkDiv::try_from_spec(raw) == Ok::<ClkDiv, u8>(self),
    {
        match self {
            ClkDiv::Div4 => 0x00,
            ClkDiv::Div16 => 0x01,
        }
    }
}

impl TryFrom<u8> for ClkDiv {
    type Error = u8;

    /// The member that a field value selects; a value that selects none
    /// comes back as the error.
    fn try_from(number: u8) -> (member: Result<Self, u8>) {
        match number {
            0x00 => Ok(ClkDiv::Div4),
            0x01 => Ok(ClkDiv::Div16),
            _ => Err(number),
        }
    }
}

impl vstd::std_specs::convert::TryFromSpecImpl<u8> for ClkDiv {
    open spec fn obeys_try_from_spec() -> bool {
        true
    }

    open spec fn try_from_spec(number: u8) -> Result<Self, u8> {
        match number {
            0x00 => Ok(ClkDiv::Div4),
            0x01 => Ok(ClkDiv::Div16),
            _ => Err(number),
        }
    }
}

impl From<ClkDiv> for bool {
    /// Whether the member is the one that sets its bit.
    fn from(v: ClkDiv) -> (flag: bool) {
        if v.bits() == 0x00 {
            false
        } else {
            true
        }
    }
}

impl vstd::std_specs::convert::FromSpecImpl<ClkDiv> for bool {
    open spec fn obeys_from_spec() -> bool {
        true
    }

    open spec fn from_spec(v: ClkDiv) -> bool {
        v.spec_bits() != 0x00
    }
}

/// Lead-Off Status register (address 0x08)
///
/// This register stores the status of whether the positive or negative electrode on each
/// channel is on or off
#[derive(Debug, Clone, Copy, PartialEq, Eq)]
pub struct LeadOffStatusReg(pub u8);

impl LeadOffStatusReg {
    /// Bit 0.
    pub fn in1p_off(&self) -> (value: bool)
        ensures
            value == bit_of(self.0 as int, 0),
    {
        bit(self.0, 0)
    }

    /// Sets bit 0, the field that [`Self::in1p_off`] reads.
    pub fn set_in1p_off(&mut self, value: bool)
        ensures
            final(self).0 == with_bit(old(self).0 as int, 0, value),
    {
        self.0 = set_bit(self.0, 0, value);
    }

    /// Bit 1.
    pub fn in1n_off(&self) -> (value: bool)
        ensures
            value == bit_of(self.0 as int, 1),
    {
        bit(self.0, 1)
    }

    /// Sets bit 1, the field that [`Self::in1n_off`] reads.
    pub fn set_in1n_off(&mut self, value: bool)
        ensures
            final(self).0 == with_bit(old(self).0 as int, 1, value),
    {
        self.0 = set_bit(self.0, 1, value);
    }

    /// Bit 2.
    pub fn in2p_off(&self) -> (value: bool)
        ensures
            value == bit_of(self.0 as int, 2),
    {
        bit(self.0, 2)
    }

    /// Sets bit 2, the field that [`Self::in2p_off`] reads.
    pub fn set_in2p_off(&mut self, value: bool)
        ensures
            final(self).0 == with_bit(old(self).0 as int, 2, value),
    {
        self.0 = set_bit(self.0, 2, value);
    }

    /// Bit 3.
    pub fn in2n_off(&self) -> (value: bool)
        ensures
            value == bit_of(self.0 as int, 3),
    {
        bit(self.0, 3)
    }

    /// Sets bit 3, the field that [`Self::in2n_off`] reads.
    pub fn set_in2n_off(&mut self, value: bool)
        ensures
            final(self).0 == with_bit(old(self).0 as int, 3, value),
    {
        self.0 = set_bit(self.0, 3, value);
    }

    /// Bit 4.
    pub fn rld_stat(&self) -> (value: bool)
        ensures
            value == bit_of(self.0 as int, 4),
    {
        bit(self.0, 4)
    }

    /// Sets bit 4, the field that [`Self::rld_stat`] reads.
    pub fn set_rld_stat(&mut self, value: bool)
        ensures
            final(self).0 == with_bit(old(self).0 as int, 4, value),
    {
        self.0 = set_bit(self.0, 4, value);
    }

    /// Bit 6.
    pub fn clk_div(&self) -> (value: bool)
        ensures
            value == bit_of(self.0 as int, 6),
    {
        bit(self.0, 6)
    }

    /// Sets bit 6, the field that [`Self::clk_div`] reads.
    pub fn set_clk_div(&mut self, value: bool)
        ensures
            final(self).0 == with_bit(old(self).0 as int, 6, value),
    {
        self.0 = set_bit(self.0, 6, value);
    }
}

impl From<LeadOffStatus> for LeadOffStatusReg {
    /// Packs the one part of the status that can be written, the clock divider.
    /// The lead-off bits are for the device to set and stay clear.
    fn from(param: LeadOffStatus) -> (reg: Self) {
        let mut reg = LeadOffStatusReg(0);
        reg.set_clk_div(bool::from(param.clk_div));
        reg
    }
}

impl vstd::std_specs::convert::FromSpecImpl<LeadOffStatus> for LeadOffStatusReg {
    open spec fn obeys_from_spec() -> bool {
        true
    }

    open spec fn from_spec(param: LeadOffStatus) -> Self {
        LeadOffStatusReg(
            (flag_value(6, param.clk_div.spec_bits() != 0)) as u8,
        )
    }
}

impl TryFrom<LeadOffStatusReg> for LeadOffStatus {
    type Error = u8;

    /// Interprets the register byte: every byte has a meaning.
    fn try_from(reg: LeadOffStatusReg) -> (param: Result<Self, u8>)
        ensures
            param is Ok,
    {
        let clk_div = match ClkDiv::try_from(reg.clk_div() as u8) {
            Ok(member) => member,
            Err(_) => {
                return Err(reg.0);
            },
        };
        Ok(
            LeadOffStatus {
                ch1_positive_leadoff: reg.in1p_off(),
                ch1_negative_leadoff: reg.in1n_off(),
                ch2_positive_leadoff: reg.in2p_off(),
                ch2_negative_leadoff: reg.in2n_off(),
                rld_leadoff: reg.rld_stat(),
                clk_div,
            },
        )
    }
}

impl vstd::std_specs::convert::TryFromSpecImpl<LeadOffStatusReg> for LeadOffStatus {
    open spec fn obeys_try_from_spec() -> bool {
        true
    }

    open spec fn try_from_spec(reg: LeadOffStatusReg) -> Result<Self, u8> {
        let raw = reg.0 as int;
        match <ClkDiv as TryFromSpec<u8>>::try_from_spec(flag_number(bit_of(raw, 6))) {
            Ok(clk_div) => Ok(
                LeadOffStatus {
                    ch1_positive_leadoff: bit_of(raw, 0),
                    ch1_negative_leadoff: bit_of(raw, 1),
                    ch2_positive_leadoff: bit_of(raw, 2),
                    ch2_negative_leadoff: bit_of(raw, 3),
                    rld_leadoff: bit_of(raw, 4),
                    clk_div,
                },
            ),
            Err(_) => Err(reg.0),
        }
    }
}

/// Packing a status that reports no lead-off and interpreting the byte gives
/// the status back. The lead-off bits are not written, so a status that
/// reports one does not come back.
pub proof fn lemma_leadoff_status_round_trip(param: LeadOffStatus)
    requires
        !param.ch1_positive_leadoff,
        !param.ch1_negative_leadoff,
        !param.ch2_positive_leadoff,
        !param.ch2_negative_leadoff,
        !param.rld_leadoff,
    ensures
        LeadOffStatus::try_from_spec(LeadOffStatusReg::from_spec(param)) == Ok::<LeadOffStatus, u8>(param),
{
}

} // verus!
