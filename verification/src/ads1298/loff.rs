//! Lead-off detection registers.

use crate::bits::{
    bit, bit_of, bit_range, bits_of, field_value, flag_number, flag_value, flags_byte,
    lemma_flags_byte, lemma_flags_set, set_bit, set_bit_range, with_bit, with_bits,
};
use vstd::prelude::*;
use vstd::std_specs::convert::{FromSpec, TryFromSpec};

verus! {

/// Lead-off control configuration
#[derive(Debug, Clone, Copy, PartialEq, Eq)]
pub struct LeadOffControl {
    pub frequency: LeadOffFreq,
    pub magnitude: LeadOffMagnitude,
    pub detection_mode: LeadOffDetectMode,
    pub comparator_threshold: LeadOffCompThreshold,
}

impl Default for LeadOffControl {
    fn default() -> (value: Self)
        ensures
            value == (LeadOffControl {
                frequency: LeadOffFreq::Default,
                magnitude: LeadOffMagnitude::nA_6,
                detection_mode: LeadOffDetectMode::CurrentSource,
                comparator_threshold: LeadOffCompThreshold::PositiveSide(CompPositiveSide::Pct_95_5),
            }),
    {
        LeadOffControl {
            frequency: LeadOffFreq::Default,
            magnitude: LeadOffMagnitude::nA_6,
            detection_mode: LeadOffDetectMode::CurrentSource,
            comparator_threshold: LeadOffCompThreshold::PositiveSide(CompPositiveSide::Pct_95_5),
        }
    }
}

/// Lead-off frequency
#[derive(Debug, Clone, Copy, PartialEq, Eq, Structural)]
pub enum LeadOffFreq {
    /// Default value
    Default,
    /// AC lead-off detection at `fDR`/ 4
    AC,
    /// Do not use
    NotUse,
    /// DC lead-off detection turned on
    DC,
}

impl LeadOffFreq {
    /// The field value that selects this member.
    pub open spec fn spec_bits(self) -> u8 {
        match self {
            LeadOffFreq::Default => 0b00,
            LeadOffFreq::AC => 0b01,
            LeadOffFreq::NotUse => 0b10,
            LeadOffFreq::DC => 0b11,
        }
    }

    /// The field value that selects this member.
    #[verifier::when_used_as_spec(spec_bits)]
    pub fn bits(self) -> (raw: u8)
        ensures
            raw == self.spec_bits(),
            LeadOffFreq::try_from_spec(raw) == Ok::<LeadOffFreq, u8>(self),
    {
        match self {
            LeadOffFreq::Default => 0b00,
            LeadOffFreq::AC => 0b01,
            LeadOffFreq::NotUse => 0b10,
            LeadOffFreq::DC => 0b11,
        }
    }
}

impl TryFrom<u8> for LeadOffFreq {
    type Error = u8;

    /// The member that a field value selects; a value that selects none
    /// comes back as the error.
    fn try_from(number: u8) -> (member: Result<Self, u8>) {
        match number {
            0b00 => Ok(LeadOffFreq::Default),
            0b01 => Ok(LeadOffFreq::AC),
            0b10 => Ok(LeadOffFreq::NotUse),
            0b11 => Ok(LeadOffFreq::DC),
            _ => Err(number),
        }
    }
}

impl vstd::std_specs::convert::TryFromSpecImpl<u8> for LeadOffFreq {
    open spec fn obeys_try_from_spec() -> bool {
        true
    }

    open spec fn try_from_spec(number: u8) -> Result<Self, u8> {
        match number {
            0b00 => Ok(LeadOffFreq::Default),
            0b01 => Ok(LeadOffFreq::AC),
            0b10 => Ok(LeadOffFreq::NotUse),
            0b11 => Ok(LeadOffFreq::DC),
            _ => Err(number),
        }
    }
}

/// Lead-off current magnitude
#[allow(non_camel_case_types)]
#[derive(Debug, Clone, Copy, PartialEq, Eq, Structural)]
pub enum LeadOffMagnitude {
    nA_6,
    nA_12,
    nA_18,
    nA_24,
}

impl LeadOffMagnitude {
    /// The field value that selects this member.
    pub open spec fn spec_bits(self) -> u8 {
        match self {
            LeadOffMagnitude::nA_6 => 0b00,
            LeadOffMagnitude::nA_12 => 0b01,
            LeadOffMagnitude::nA_18 => 0b10,
            LeadOffMagnitude::nA_24 => 0b11,
        }
    }

    /// The field value that selects this member.
    #[verifier::when_used_as_spec(spec_bits)]
    pub fn bits(self) -> (raw: u8)
        ensures
            raw == self.spec_bits(),
            LeadOffMagnitude::try_from_spec(raw) == Ok::<LeadOffMagnitude, u8>(self),
    {
        match self {
            LeadOffMagnitude::nA_6 => 0b00,
            LeadOffMagnitude::nA_12 => 0b01,
            LeadOffMagnitude::nA_18 => 0b10,
            LeadOffMagnitude::nA_24 => 0b11,
        }
    }
}

impl TryFrom<u8> for LeadOffMagnitude {
    type Error = u8;

    /// The member that a field value selects; a value that selects none
    /// comes back as the error.
    fn try_from(number: u8) -> (member: Result<Self, u8>) {
        match number {
            0b00 => Ok(LeadOffMagnitude::nA_6),
            0b01 => Ok(LeadOffMagnitude::nA_12),
            0b10 => Ok(LeadOffMagnitude::nA_18),
            0b11 => Ok(LeadOffMagnitude::nA_24),
            _ => Err(number),
        }
    }
}

impl vstd::std_specs::convert::TryFromSpecImpl<u8> for LeadOffMagnitude {
    open spec fn obeys_try_from_spec() -> bool {
        true
    }

    open spec fn try_from_spec(number: u8) -> Result<Self, u8> {
        match number {
            0b00 => Ok(LeadOffMagnitude::nA_6),
            0b01 => Ok(LeadOffMagnitude::nA_12),
            0b10 => Ok(LeadOffMagnitude::nA_18),
            0b11 => Ok(LeadOffMagnitude::nA_24),
            _ => Err(number),
        }
    }
}

/// Lead-off detection mode
#[derive(Debug, Clone, Copy, PartialEq, Eq, Structural)]
pub enum LeadOffDetectMode {
    CurrentSource,
    PullUpDown,
}

impl LeadOffDetectMode {
    /// The field value that selects this member.
    pub open spec fn spec_bits(self) -> u8 {
        match self {
            LeadOffDetectMode::CurrentSource => 0b0,
            LeadOffDetectMode::PullUpDown => 0b1,
        }
    }

    /// The field value that selects this member.
    #[verifier::when_used_as_spec(spec_bits)]
    pub fn bits(self) -> (raw: u8)
        ensures
            raw == self.spec_bits(),
            LeadOffDetectMode::try_from_spec(raw) == Ok::<LeadOffDetectMode, u8>(self),
    {
        match self {
            LeadOffDetectMode::CurrentSource => 0b0,
            LeadOffDetectMode::PullUpDown => 0b1,
        }
    }
}

impl TryFrom<u8> for LeadOffDetectMode {
    type Error = u8;

    /// The member that a field value selects; a value that selects none
    /// comes back as the error.
    fn try_from(number: u8) -> (member: Result<Self, u8>) {
        match number {
            0b0 => Ok(LeadOffDetectMode::CurrentSource),
            0b1 => Ok(LeadOffDetectMode::PullUpDown),
            _ => Err(number),
        }
    }
}

impl vstd::std_specs::convert::TryFromSpecImpl<u8> for LeadOffDetectMode {
    open spec fn obeys_try_from_spec() -> bool {
        true
    }

    open spec fn try_from_spec(number: u8) -> Result<Self, u8> {
        match number {
            0b0 => Ok(LeadOffDetectMode::CurrentSource),
            0b1 => Ok(LeadOffDetectMode::PullUpDown),
            _ => Err(number),
        }
    }
}

impl From<LeadOffDetectMode> for bool {
    /// Whether the member is the one that sets its bit.
    fn from(v: LeadOffDetectMode) -> (flag: bool) {
        if v.bits() == 0x00 {
            false
        } else {
            true
        }
    }
}

impl vstd::std_specs::convert::FromSpecImpl<LeadOffDetectMode> for bool {
    open spec fn obeys_from_spec() -> bool {
        true
    }

    open spec fn from_spec(v: LeadOffDetectMode) -> bool {
        v.spec_bits() != 0x00
    }
}

/// Lead-off comparator threshold
///
/// The three bits of the field mean one thing for the positive side and
/// another for the negative side.
#[derive(Debug, Clone, Copy, PartialEq, Eq)]
pub enum LeadOffCompThreshold {
    PositiveSide(CompPositiveSide),
    NegativeSide(CompNegativeSide),
}

impl LeadOffCompThreshold {
    /// The field value of the threshold, whichever side it is for.
    pub open spec fn spec_bits(self) -> u8 {
        match self {
            LeadOffCompThreshold::PositiveSide(vv) => vv.spec_bits(),
            LeadOffCompThreshold::NegativeSide(vv) => vv.spec_bits(),
        }
    }
}

impl From<LeadOffCompThreshold> for u8 {
    /// The field value of the threshold, whichever side it is for.
    fn from(v: LeadOffCompThreshold) -> (raw: Self) {
        match v {
            LeadOffCompThreshold::PositiveSide(vv) => vv.bits(),
            LeadOffCompThreshold::NegativeSide(vv) => vv.bits(),
        }
    }
}

impl vstd::std_specs::convert::FromSpecImpl<LeadOffCompThreshold> for u8 {
    open spec fn obeys_from_spec() -> bool {
        true
    }

    open spec fn from_spec(v: LeadOffCompThreshold) -> Self {
        v.spec_bits()
    }
}

/// Comparator positive side
#[allow(non_camel_case_types)]
#[derive(Debug, Clone, Copy, PartialEq, Eq, Structural)]
pub enum CompPositiveSide {
    Pct_95_5,
    Pct_92_5,
    Pct_90_0,
    Pct_87_5,
    Pct_85_0,
    Pct_80_0,
    Pct_75_0,
    Pct_70_0,
}

impl CompPositiveSide {
    /// The field value that selects this member.
    pub open spec fn spec_bits(self) -> u8 {
        match self {
            CompPositiveSide::Pct_95_5 => 0b000,
            CompPositiveSide::Pct_92_5 => 0b001,
            CompPositiveSide::Pct_90_0 => 0b010,
            CompPositiveSide::Pct_87_5 => 0b011,
            CompPositiveSide::Pct_85_0 => 0b100,
            CompPositiveSide::Pct_80_0 => 0b101,
            CompPositiveSide::Pct_75_0 => 0b110,
            CompPositiveSide::Pct_70_0 => 0b111,
        }
    }

    /// The field value that selects this member.
    #[verifier::when_used_as_spec(spec_bits)]
    pub fn bits(self) -> (raw: u8)
        ensures
            raw == self.spec_bits(),
            CompPositiveSide::try_from_spec(raw) == Ok::<CompPositiveSide, u8>(self),
    {
        match self {
            CompPositiveSide::Pct_95_5 => 0b000,
            CompPositiveSide::Pct_92_5 => 0b001,
            CompPositiveSide::Pct_90_0 => 0b010,
            CompPositiveSide::Pct_87_5 => 0b011,
            CompPositiveSide::Pct_85_0 => 0b100,
            CompPositiveSide::Pct_80_0 => 0b101,
            CompPositiveSide::Pct_75_0 => 0b110,
            CompPositiveSide::Pct_70_0 => 0b111,
        }
    }
}

impl TryFrom<u8> for CompPositiveSide {
    type Error = u8;

    /// The member that a field value selects; a value that selects none
    /// comes back as the error.
    fn try_from(number: u8) -> (member: Result<Self, u8>) {
        match number {
            0b000 => Ok(CompPositiveSide::Pct_95_5),
            0b001 => Ok(CompPositiveSide::Pct_92_5),
            0b010 => Ok(CompPositiveSide::Pct_90_0),
            0b011 => Ok(CompPositiveSide::Pct_87_5),
            0b100 => Ok(CompPositiveSide::Pct_85_0),
            0b101 => Ok(CompPositiveSide::Pct_80_0),
            0b110 => Ok(CompPositiveSide::Pct_75_0),
            0b111 => Ok(CompPositiveSide::Pct_70_0),
            _ => Err(number),
        }
    }
}

impl vstd::std_specs::convert::TryFromSpecImpl<u8> for CompPositiveSide {
    open spec fn obeys_try_from_spec() -> bool {
        true
    }

    open spec fn try_from_spec(number: u8) -> Result<Self, u8> {
        match number {
            0b000 => Ok(CompPositiveSide::Pct_95_5),
            0b001 => Ok(CompPositiveSide::Pct_92_5),
            0b010 => Ok(CompPositiveSide::Pct_90_0),
            0b011 => Ok(CompPositiveSide::Pct_87_5),
            0b100 => Ok(CompPositiveSide::Pct_85_0),
            0b101 => Ok(CompPositiveSide::Pct_80_0),
            0b110 => Ok(CompPositiveSide::Pct_75_0),
            0b111 => Ok(CompPositiveSide::Pct_70_0),
            _ => Err(number),
        }
    }
}

/// Comparator negative side
#[allow(non_camel_case_types)]
#[derive(Debug, Clone, Copy, PartialEq, Eq, Structural)]
pub enum CompNegativeSide {
    Pct_5_0,
    Pct_7_5,
    Pct_10_0,
    Pct_12_5,
    Pct_15_0,
    Pct_20_0,
    Pct_25_0,
    Pct_30_0,
}

impl CompNegativeSide {
    /// The field value that selects this member.
    pub open spec fn spec_bits(self) -> u8 {
        match self {
            CompNegativeSide::Pct_5_0 => 0b000,
            CompNegativeSide::Pct_7_5 => 0b001,
            CompNegativeSide::Pct_10_0 => 0b010,
            CompNegativeSide::Pct_12_5 => 0b011,
            CompNegativeSide::Pct_15_0 => 0b100,
            CompNegativeSide::Pct_20_0 => 0b101,
            CompNegativeSide::Pct_25_0 => 0b110,
            CompNegativeSide::Pct_30_0 => 0b111,
        }
    }

    /// The field value that selects this member.
    #[verifier::when_used_as_spec(spec_bits)]
    pub fn bits(self) -> (raw: u8)
        ensures
            raw == self.spec_bits(),
            CompNegativeSide::try_from_spec(raw) == Ok::<CompNegativeSide, u8>(self),
    {
        match self {
            CompNegativeSide::Pct_5_0 => 0b000,
            CompNegativeSide::Pct_7_5 => 0b001,
            CompNegativeSide::Pct_10_0 => 0b010,
            CompNegativeSide::Pct_12_5 => 0b011,
            CompNegativeSide::Pct_15_0 => 0b100,
            CompNegativeSide::Pct_20_0 => 0b101,
            CompNegativeSide::Pct_25_0 => 0b110,
            CompNegativeSide::Pct_30_0 => 0b111,
        }
    }
}

impl TryFrom<u8> for CompNegativeSide {
    type Error = u8;

    /// The member that a field value selects; a value that selects none
    /// comes back as the error.
    fn try_from(number: u8) -> (member: Result<Self, u8>) {
        match number {
            0b000 => Ok(CompNegativeSide::Pct_5_0),
            0b001 => Ok(CompNegativeSide::Pct_7_5),
            0b010 => Ok(CompNegativeSide::Pct_10_0),
            0b011 => Ok(CompNegativeSide::Pct_12_5),
            0b100 => Ok(CompNegativeSide::Pct_15_0),
            0b101 => Ok(CompNegativeSide::Pct_20_0),
            0b110 => Ok(CompNegativeSide::Pct_25_0),
            0b111 => Ok(CompNegativeSide::Pct_30_0),
            _ => Err(number),
        }
    }
}

impl vstd::std_specs::convert::TryFromSpecImpl<u8> for CompNegativeSide {
    open spec fn obeys_try_from_spec() -> bool {
        true
    }

    open spec fn try_from_spec(number: u8) -> Result<Self, u8> {
        match number {
            0b000 => Ok(CompNegativeSide::Pct_5_0),
            0b001 => Ok(CompNegativeSide::Pct_7_5),
            0b010 => Ok(CompNegativeSide::Pct_10_0),
            0b011 => Ok(CompNegativeSide::Pct_12_5),
            0b100 => Ok(CompNegativeSide::Pct_15_0),
            0b101 => Ok(CompNegativeSide::Pct_20_0),
            0b110 => Ok(CompNegativeSide::Pct_25_0),
            0b111 => Ok(CompNegativeSide::Pct_30_0),
            _ => Err(number),
        }
    }
}

/// Lead-off control register (address 0x04)
///
/// The lead-off control register configures the lead-off detection operation
#[derive(Debug, Clone, Copy, PartialEq, Eq)]
pub struct LeadOffControlReg(pub u8);

impl LeadOffControlReg {
    /// Lead-off frequency
    ///
    /// These bits determine the frequency of lead-off detect for each channel.
    ///
    ///   - 00 = When any bits of the `LOFF_SENSP` or `LOFF_SENSN` registers are turned on,
    ///     make sure that `FLEAD`[1:0] are either set to 01 or 11
    ///   - 01 = AC lead-off detection at `fDR`/ 4
    ///   - 10 = Do not use
    ///   - 11 = DC lead-off detection turned on
    pub fn flead_off(&self) -> (value: u8)
        ensures
            value == bits_of(self.0 as int, 1, 0),
    {
        bit_range(self.0, 1, 0)
    }

    /// Sets bits 1..=0, the field that [`Self::flead_off`] reads.
    pub fn set_flead_off(&mut self, value: u8)
        ensures
            final(self).0 == with_bits(old(self).0 as int, 1, 0, value as int),
    {
        self.0 = set_bit_range(self.0, 1, 0, value);
    }

    /// Lead-off current magnitude
    ///
    /// These bits determine the magnitude of current for the
    /// current lead-off mode.
    ///   - 00 = 6 nA
    ///   - 01 = 12 nA
    ///   - 10 = 18 nA
    ///   - 11 = 24 nA
    pub fn ilead_off(&self) -> (value: u8)
        ensures
            value == bits_of(self.0 as int, 3, 2),
    {
        bit_range(self.0, 3, 2)
    }

    /// Sets bits 3..=2, the field that [`Self::ilead_off`] reads.
    pub fn set_ilead_off(&mut self, value: u8)
        ensures
            final(self).0 == with_bits(old(self).0 as int, 3, 2, value as int),
    {
        self.0 = set_bit_range(self.0, 3, 2, value);
    }

    /// Lead-off detection mode
    ///
    /// This bit determines the lead-off detection mode.
    ///   - 0 = Current source mode lead-off
    ///   - 1 = pullup or pulldown resistor mode lead-off
    pub fn vlead_off_en(&self) -> (value: bool)
        ensures
            value == bit_of(self.0 as int, 4),
    {
        bit(self.0, 4)
    }

    /// Sets bit 4, the field that [`Self::vlead_off_en`] reads.
    pub fn set_vlead_off_en(&mut self, value: bool)
        ensures
            final(self).0 == with_bit(old(self).0 as int, 4, value),
    {
        self.0 = set_bit(self.0, 4, value);
    }

    /// Lead-off comparator threshold
    ///
    /// Comparator positive side
    ///   - 000 = 95%
    ///   - 001 = 92.5%
    ///   - 010 = 90%
    ///   - 011 = 87.5%
    ///   - 100 = 85%
    ///   - 101 = 80%
    ///   - 110 = 75%
    ///   - 111 = 70%
    ///
    /// Comparator negative side
    ///   - 000 = 5%
    ///   - 001 = 7.5%
    ///   - 010 = 10%
    ///   - 011 = 12.5%
    ///   - 100 = 15%
    ///   - 101 = 20%
    ///   - 110 = 25%
    ///   - 111 = 30%
    pub fn comp_th(&self) -> (value: u8)
        ensures
            value == bits_of(self.0 as int, 7, 5),
    {
        bit_range(self.0, 7, 5)
    }

    /// Sets bits 7..=5, the field that [`Self::comp_th`] reads.
    pub fn set_comp_th(&mut self, value: u8)
        ensures
            final(self).0 == with_bits(old(self).0 as int, 7, 5, value as int),
    {
        self.0 = set_bit_range(self.0, 7, 5, value);
    }
}

impl From<LeadOffControl> for LeadOffControlReg {
    /// Packs a lead-off configuration into the register byte. Of the
    /// threshold only its three bits are kept, not the side.
    fn from(param: LeadOffControl) -> (reg: Self) {
        let mut reg = LeadOffControlReg(0);
        reg.set_flead_off(param.frequency.bits());
        reg.set_ilead_off(param.magnitude.bits());
        reg.set_vlead_off_en(bool::from(param.detection_mode));
        reg.set_comp_th(u8::from(param.comparator_threshold));
        reg
    }
}

impl vstd::std_specs::convert::FromSpecImpl<LeadOffControl> for LeadOffControlReg {
    open spec fn obeys_from_spec() -> bool {
        true
    }

    open spec fn from_spec(param: LeadOffControl) -> Self {
        LeadOffControlReg(
            (field_value(0, param.frequency.spec_bits() as int)
                + field_value(2, param.magnitude.spec_bits() as int)
                + flag_value(4, param.detection_mode.spec_bits() != 0)
                + field_value(5, param.comparator_threshold.spec_bits() as int)) as u8,
        )
    }
}

impl TryFrom<LeadOffControlReg> for LeadOffControl {
    type Error = u8;

    /// Interprets the register byte: every byte has a meaning. The byte does
    /// not say which side the threshold is for; it is read as the positive
    /// side.
    fn try_from(reg: LeadOffControlReg) -> (param: Result<Self, u8>)
        ensures
            param is Ok,
    {
        let frequency = match LeadOffFreq::try_from(reg.flead_off()) {
            Ok(member) => member,
            Err(_) => {
                return Err(reg.0);
            },
        };
        let magnitude = match LeadOffMagnitude::try_from(reg.ilead_off()) {
            Ok(member) => member,
            Err(_) => {
                return Err(reg.0);
            },
        };
        let detection_mode = match LeadOffDetectMode::try_from(reg.vlead_off_en() as u8) {
            Ok(member) => member,
            Err(_) => {
                return Err(reg.0);
            },
        };
        let threshold = match CompPositiveSide::try_from(reg.comp_th()) {
            Ok(member) => member,
            Err(_) => {
                return Err(reg.0);
            },
        };
        Ok(
            LeadOffControl {
                frequency,
                magnitude,
                detection_mode,
                comparator_threshold: LeadOffCompThreshold::PositiveSide(threshold),
            },
        )
    }
}

impl vstd::std_specs::convert::TryFromSpecImpl<LeadOffControlReg> for LeadOffControl {
    open spec fn obeys_try_from_spec() -> bool {
        true
    }

    open spec fn try_from_spec(reg: LeadOffControlReg) -> Result<Self, u8> {
        let raw = reg.0 as int;
        match (
            <LeadOffFreq as TryFromSpec<u8>>::try_from_spec(bits_of(raw, 1, 0) as u8),
            <LeadOffMagnitude as TryFromSpec<u8>>::try_from_spec(bits_of(raw, 3, 2) as u8),
            <LeadOffDetectMode as TryFromSpec<u8>>::try_from_spec(flag_number(bit_of(raw, 4))),
            <CompPositiveSide as TryFromSpec<u8>>::try_from_spec(bits_of(raw, 7, 5) as u8),
        ) {
            (Ok(frequency), Ok(magnitude), Ok(detection_mode), Ok(threshold)) => Ok(
                LeadOffControl {
                    frequency,
                    magnitude,
                    detection_mode,
                    comparator_threshold: LeadOffCompThreshold::PositiveSide(threshold),
                },
            ),
            _ => Err(reg.0),
        }
    }
}

/// Packing a lead-off configuration whose threshold is for the positive side
/// and interpreting the byte gives the configuration back.
pub proof fn lemma_leadoff_control_round_trip(param: LeadOffControl)
    requires
        param.comparator_threshold is PositiveSide,
    ensures
        LeadOffControl::try_from_spec(LeadOffControlReg::from_spec(param)) == Ok::<
            LeadOffControl,
            u8,
        >(param),
{
}

/// Lead-off sense setup
#[derive(Debug, Clone, Copy, PartialEq, Eq)]
pub struct LeadOffSense {
    pub ch1_enable: bool,
    pub ch2_enable: bool,
    pub ch3_enable: bool,
    pub ch4_enable: bool,
    pub ch5_enable: bool,
    pub ch6_enable: bool,
    pub ch7_enable: bool,
    pub ch8_enable: bool,
}

impl Default for LeadOffSense {
    fn default() -> (value: Self)
        ensures
            value == (LeadOffSense {
                ch1_enable: false,
                ch2_enable: false,
                ch3_enable: false,
                ch4_enable: false,
                ch5_enable: false,
                ch6_enable: false,
                ch7_enable: false,
                ch8_enable: false,
            }),
    {
        LeadOffSense {
            ch1_enable: false,
            ch2_enable: false,
            ch3_enable: false,
            ch4_enable: false,
            ch5_enable: false,
            ch6_enable: false,
            ch7_enable: false,
            ch8_enable: false,
        }
    }
}

/// LOFF_SENSP/N : Positive/Negative Signal Lead-Off Detection Register
/// (addresses 0x0F and 0x10)
#[derive(Debug, Clone, Copy, PartialEq, Eq)]
pub struct LeadOffSenseReg(pub u8);

impl LeadOffSenseReg {
    /// INxP/N leadoff
    ///
    /// Enable lead-off detection on INxP/N
    ///
    ///   - 0: Disabled
    ///   - 1: Enabled
    pub fn loff1(&self) -> (value: bool)
        ensures
            value == bit_of(self.0 as int, 0),
    {
        bit(self.0, 0)
    }

    /// Sets bit 0, the field that [`Self::loff1`] reads.
    pub fn set_loff1(&mut self, value: bool)
        ensures
            final(self).0 == with_bit(old(self).0 as int, 0, value),
    {
        self.0 = set_bit(self.0, 0, value);
    }

    /// Bit 1.
    pub fn loff2(&self) -> (value: bool)
        ensures
            value == bit_of(self.0 as int, 1),
    {
        bit(self.0, 1)
    }

    /// Sets bit 1, the field that [`Self::loff2`] reads.
    pub fn set_loff2(&mut self, value: bool)
        ensures
            final(self).0 == with_bit(old(self).0 as int, 1, value),
    {
        self.0 = set_bit(self.0, 1, value);
    }

    /// Bit 2.
    pub fn loff3(&self) -> (value: bool)
        ensures
            value == bit_of(self.0 as int, 2),
    {
        bit(self.0, 2)
    }

    /// Sets bit 2, the field that [`Self::loff3`] reads.
    pub fn set_loff3(&mut self, value: bool)
        ensures
            final(self).0 == with_bit(old(self).0 as int, 2, value),
    {
        self.0 = set_bit(self.0, 2, value);
    }

    /// Bit 3.
    pub fn loff4(&self) -> (value: bool)
        ensures
            value == bit_of(self.0 as int, 3),
    {
        bit(self.0, 3)
    }

    /// Sets bit 3, the field that [`Self::loff4`] reads.
    pub fn set_loff4(&mut self, value: bool)
        ensures
            final(self).0 == with_bit(old(self).0 as int, 3, value),
    {
        self.0 = set_bit(self.0, 3, value);
    }

    /// Bit 4.
    pub fn loff5(&self) -> (value: bool)
        ensures
            value == bit_of(self.0 as int, 4),
    {
        bit(self.0, 4)
    }

    /// Sets bit 4, the field that [`Self::loff5`] reads.
    pub fn set_loff5(&mut self, value: bool)
        ensures
            final(self).0 == with_bit(old(self).0 as int, 4, value),
    {
        self.0 = set_bit(self.0, 4, value);
    }

    /// Bit 5.
    pub fn loff6(&self) -> (value: bool)
        ensures
            value == bit_of(self.0 as int, 5),
    {
        bit(self.0, 5)
    }

    /// Sets bit 5, the field that [`Self::loff6`] reads.
    pub fn set_loff6(&mut self, value: bool)
        ensures
            final(self).0 == with_bit(old(self).0 as int, 5, value),
    {
        self.0 = set_bit(self.0, 5, value);
    }

    /// Bit 6.
    pub fn loff7(&self) -> (value: bool)
        ensures
            value == bit_of(self.0 as int, 6),
    {
        bit(self.0, 6)
    }

    /// Sets bit 6, the field that [`Self::loff7`] reads.
    pub fn set_loff7(&mut self, value: bool)
        ensures
            final(self).0 == with_bit(old(self).0 as int, 6, value),
    {
        self.0 = set_bit(self.0, 6, value);
    }

    /// Bit 7.
    pub fn loff8(&self) -> (value: bool)
        ensures
            value == bit_of(self.0 as int, 7),
    {
        bit(self.0, 7)
    }

    /// Sets bit 7, the field that [`Self::loff8`] reads.
    pub fn set_loff8(&mut self, value: bool)
        ensures
            final(self).0 == with_bit(old(self).0 as int, 7, value),
    {
        self.0 = set_bit(self.0, 7, value);
    }
}

impl From<LeadOffSense> for LeadOffSenseReg {
    /// Packs the sense setup into the register byte, channel 1 in bit 0.
    fn from(param: LeadOffSense) -> (reg: Self) {
        let mut reg = LeadOffSenseReg(0);
        reg.set_loff1(param.ch1_enable);
        reg.set_loff2(param.ch2_enable);
        reg.set_loff3(param.ch3_enable);
        reg.set_loff4(param.ch4_enable);
        reg.set_loff5(param.ch5_enable);
        reg.set_loff6(param.ch6_enable);
        reg.set_loff7(param.ch7_enable);
        reg.set_loff8(param.ch8_enable);
        proof {
            lemma_flags_set(
                param.ch1_enable,
                param.ch2_enable,
                param.ch3_enable,
                param.ch4_enable,
                param.ch5_enable,
                param.ch6_enable,
                param.ch7_enable,
                param.ch8_enable,
            );
        }
        reg
    }
}

impl vstd::std_specs::convert::FromSpecImpl<LeadOffSense> for LeadOffSenseReg {
    open spec fn obeys_from_spec() -> bool {
        true
    }

    open spec fn from_spec(param: LeadOffSense) -> Self {
        LeadOffSenseReg(
            flags_byte(
                param.ch1_enable,
                param.ch2_enable,
                param.ch3_enable,
                param.ch4_enable,
                param.ch5_enable,
                param.ch6_enable,
                param.ch7_enable,
                param.ch8_enable,
            ) as u8,
        )
    }
}

impl TryFrom<LeadOffSenseReg> for LeadOffSense {
    type Error = u8;

    /// Interprets the register byte: every byte has a meaning.
    fn try_from(reg: LeadOffSenseReg) -> (param: Result<Self, u8>)
        ensures
            param is Ok,
    {
        Ok(
            LeadOffSense {
                ch1_enable: reg.loff1(),
                ch2_enable: reg.loff2(),
                ch3_enable: reg.loff3(),
                ch4_enable: reg.loff4(),
                ch5_enable: reg.loff5(),
                ch6_enable: reg.loff6(),
                ch7_enable: reg.loff7(),
                ch8_enable: reg.loff8(),
            },
        )
    }
}

impl vstd::std_specs::convert::TryFromSpecImpl<LeadOffSenseReg> for LeadOffSense {
    open spec fn obeys_try_from_spec() -> bool {
        true
    }

    open spec fn try_from_spec(reg: LeadOffSenseReg) -> Result<Self, u8> {
        let raw = reg.0 as int;
        Ok(
            LeadOffSense {
                ch1_enable: bit_of(raw, 0),
                ch2_enable: bit_of(raw, 1),
                ch3_enable: bit_of(raw, 2),
                ch4_enable: bit_of(raw, 3),
                ch5_enable: bit_of(raw, 4),
                ch6_enable: bit_of(raw, 5),
                ch7_enable: bit_of(raw, 6),
                ch8_enable: bit_of(raw, 7),
            },
        )
    }
}

/// Packing a sense setup and interpreting the byte gives the setup back.
pub proof fn lemma_leadoff_sense_round_trip(param: LeadOffSense)
    ensures
        LeadOffSense::try_from_spec(LeadOffSenseReg::from_spec(param)) == Ok::<LeadOffSense, u8>(param),
{
    lemma_flags_byte(
        param.ch1_enable,
        param.ch2_enable,
        param.ch3_enable,
        param.ch4_enable,
        param.ch5_enable,
        param.ch6_enable,
        param.ch7_enable,
        param.ch8_enable,
    );
}

/// Controls the direction of the current used for lead-off derivation
#[derive(Debug, Clone, Copy, PartialEq, Eq)]
pub struct LeadOffFlip {
    /// Channel N polarity flip
    pub ch1_flip: bool,
    pub ch2_flip: bool,
    pub ch3_flip: bool,
    pub ch4_flip: bool,
    pub ch5_flip: bool,
    pub ch6_flip: bool,
    pub ch7_flip: bool,
    pub ch8_flip: bool,
}

impl Default for LeadOffFlip {
    fn default() -> (value: Self)
        ensures
            value == (LeadOffFlip {
                ch1_flip: false,
                ch2_flip: false,
                ch3_flip: false,
                ch4_flip: false,
                ch5_flip: false,
                ch6_flip: false,
                ch7_flip: false,
                ch8_flip: false,
            }),
    {
        LeadOffFlip {
            ch1_flip: false,
            ch2_flip: false,
            ch3_flip: false,
            ch4_flip: false,
            ch5_flip: false,
            ch6_flip: false,
            ch7_flip: false,
            ch8_flip: false,
        }
    }
}

/// LOFF_FLIP: Lead-Off Flip Register (address 0x11)
///
/// This register controls the direction of the current used for lead-off derivation.
#[derive(Debug, Clone, Copy, PartialEq, Eq)]
pub struct LeadOffFlipReg(pub u8);

impl LeadOffFlipReg {
    /// Channel X LOFF Polarity Flip
    ///
    /// Flip the pullup/pulldown polarity of the current source or
    /// resistor on channel N for lead-off derivation.
    ///
    ///   - 0: No Flip: INXP is pulled to `AVDD` and INXN pulled to `AVSS`
    ///   - 1: Flipped: INXP is pulled to `AVSS` and INXN pulled to `AVDD`
    pub fn flip1(&self) -> (value: bool)
        ensures
            value == bit_of(self.0 as int, 0),
    {
        bit(self.0, 0)
    }

    /// Sets bit 0, the field that [`Self::flip1`] reads.
    pub fn set_flip1(&mut self, value: bool)
        ensures
            final(self).0 == with_bit(old(self).0 as int, 0, value),
    {
        self.0 = set_bit(self.0, 0, value);
    }

    /// Bit 1.
    pub fn flip2(&self) -> (value: bool)
        ensures
            value == bit_of(self.0 as int, 1),
    {
        bit(self.0, 1)
    }

    /// Sets bit 1, the field that [`Self::flip2`] reads.
    pub fn set_flip2(&mut self, value: bool)
        ensures
            final(self).0 == with_bit(old(self).0 as int, 1, value),
    {
        self.0 = set_bit(self.0, 1, value);
    }

    /// Bit 2.
    pub fn flip3(&self) -> (value: bool)
        ensures
            value == bit_of(self.0 as int, 2),
    {
        bit(self.0, 2)
    }

    /// Sets bit 2, the field that [`Self::flip3`] reads.
    pub fn set_flip3(&mut self, value: bool)
        ensures
            final(self).0 == with_bit(old(self).0 as int, 2, value),
    {
        self.0 = set_bit(self.0, 2, value);
    }

    /// Bit 3.
    pub fn flip4(&self) -> (value: bool)
        ensures
            value == bit_of(self.0 as int, 3),
    {
        bit(self.0, 3)
    }

    /// Sets bit 3, the field that [`Self::flip4`] reads.
    pub fn set_flip4(&mut self, value: bool)
        ensures
            final(self).0 == with_bit(old(self).0 as int, 3, value),
    {
        self.0 = set_bit(self.0, 3, value);
    }

    /// Bit 4.
    pub fn flip5(&self) -> (value: bool)
        ensures
            value == bit_of(self.0 as int, 4),
    {
        bit(self.0, 4)
    }

    /// Sets bit 4, the field that [`Self::flip5`] reads.
    pub fn set_flip5(&mut self, value: bool)
        ensures
            final(self).0 == with_bit(old(self).0 as int, 4, value),
    {
        self.0 = set_bit(self.0, 4, value);
    }

    /// Bit 5.
    pub fn flip6(&self) -> (value: bool)
        ensures
            value == bit_of(self.0 as int, 5),
    {
        bit(self.0, 5)
    }

    /// Sets bit 5, the field that [`Self::flip6`] reads.
    pub fn set_flip6(&mut self, value: bool)
        ensures
            final(self).0 == with_bit(old(self).0 as int, 5, value),
    {
        self.0 = set_bit(self.0, 5, value);
    }

    /// Bit 6.
    pub fn flip7(&self) -> (value: bool)
        ensures
            value == bit_of(self.0 as int, 6),
    {
        bit(self.0, 6)
    }

    /// Sets bit 6, the field that [`Self::flip7`] reads.
    pub fn set_flip7(&mut self, value: bool)
        ensures
            final(self).0 == with_bit(old(self).0 as int, 6, value),
    {
        self.0 = set_bit(self.0, 6, value);
    }

    /// Bit 7.
    pub fn flip8(&self) -> (value: bool)
        ensures
            value == bit_of(self.0 as int, 7),
    {
        bit(self.0, 7)
    }

    /// Sets bit 7, the field that [`Self::flip8`] reads.
    pub fn set_flip8(&mut self, value: bool)
        ensures
            final(self).0 == with_bit(old(self).0 as int, 7, value),
    {
        self.0 = set_bit(self.0, 7, value);
    }
}

impl From<LeadOffFlip> for LeadOffFlipReg {
    /// Packs the flips into the register byte, channel 1 in bit 0.
    fn from(param: LeadOffFlip) -> (reg: Self) {
        let mut reg = LeadOffFlipReg(0);
        reg.set_flip1(param.ch1_flip);
        reg.set_flip2(param.ch2_flip);
        reg.set_flip3(param.ch3_flip);
        reg.set_flip4(param.ch4_flip);
        reg.set_flip5(param.ch5_flip);
        reg.set_flip6(param.ch6_flip);
        reg.set_flip7(param.ch7_flip);
        reg.set_flip8(param.ch8_flip);
        proof {
            lemma_flags_set(
                param.ch1_flip,
                param.ch2_flip,
                param.ch3_flip,
                param.ch4_flip,
                param.ch5_flip,
                param.ch6_flip,
                param.ch7_flip,
                param.ch8_flip,
            );
        }
        reg
    }
}

impl vstd::std_specs::convert::FromSpecImpl<LeadOffFlip> for LeadOffFlipReg {
    open spec fn obeys_from_spec() -> bool {
        true
    }

    open spec fn from_spec(param: LeadOffFlip) -> Self {
        LeadOffFlipReg(
            flags_byte(
                param.ch1_flip,
                param.ch2_flip,
                param.ch3_flip,
                param.ch4_flip,
                param.ch5_flip,
                param.ch6_flip,
                param.ch7_flip,
                param.ch8_flip,
            ) as u8,
        )
    }
}

impl TryFrom<LeadOffFlipReg> for LeadOffFlip {
    type Error = u8;

    /// Interprets the register byte: every byte has a meaning.
    fn try_from(reg: LeadOffFlipReg) -> (param: Result<Self, u8>)
        ensures
            param is Ok,
    {
        Ok(
            LeadOffFlip {
                ch1_flip: reg.flip1(),
                ch2_flip: reg.flip2(),
                ch3_flip: reg.flip3(),
                ch4_flip: reg.flip4(),
                ch5_flip: reg.flip5(),
                ch6_flip: reg.flip6(),
                ch7_flip: reg.flip7(),
                ch8_flip: reg.flip8(),
            },
        )
    }
}

impl vstd::std_specs::convert::TryFromSpecImpl<LeadOffFlipReg> for LeadOffFlip {
    open spec fn obeys_try_from_spec() -> bool {
        true
    }

    open spec fn try_from_spec(reg: LeadOffFlipReg) -> Result<Self, u8> {
        let raw = reg.0 as int;
        Ok(
            LeadOffFlip {
                ch1_flip: bit_of(raw, 0),
                ch2_flip: bit_of(raw, 1),
                ch3_flip: bit_of(raw, 2),
                ch4_flip: bit_of(raw, 3),
                ch5_flip: bit_of(raw, 4),
                ch6_flip: bit_of(raw, 5),
                ch7_flip: bit_of(raw, 6),
                ch8_flip: bit_of(raw, 7),
            },
        )
    }
}

/// Packing flips and interpreting the byte gives the flips back.
pub proof fn lemma_leadoff_flip_round_trip(param: LeadOffFlip)
    ensures
        LeadOffFlip::try_from_spec(LeadOffFlipReg::from_spec(param)) == Ok::<LeadOffFlip, u8>(param),
{
    lemma_flags_byte(
        param.ch1_flip,
        param.ch2_flip,
        param.ch3_flip,
        param.ch4_flip,
        param.ch5_flip,
        param.ch6_flip,
        param.ch7_flip,
        param.ch8_flip,
    );
}

} // verus!
