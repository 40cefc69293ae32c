//! Respiration control registers.

use crate::bits::{
    bit, bit_of, bit_range, bits_of, field_value, flag_number, flag_value, set_bit, set_bit_range,
    with_bit, with_bits,
};
use vstd::prelude::*;
use vstd::std_specs::cmp::PartialEqSpec;
use vstd::std_specs::convert::{FromSpec, TryFromSpec};

verus! {

/// Respiration control
#[derive(Debug, Clone, Copy, PartialEq, Eq)]
pub struct Resp1 {
    /// Clock of the respiration circuitry
    pub clock: RespClock,
    /// Phase of the demodulation control signal
    pub phase: RespPhase,
    /// Modulation circuitry on channel 1
    pub modulation_enable: bool,
    /// Demodulation circuitry on channel 1
    pub demodulation_enable: bool,
}

impl Default for Resp1 {
    fn default() -> (value: Self)
        ensures
            value == (Resp1 {
                clock: RespClock::Internal,
                phase: RespPhase::RespPhase32kHz(RespPhase32kHz::Deg_0),
                modulation_enable: false,
                demodulation_enable: false,
            }),
    {
        Resp1 {
            clock: RespClock::Internal,
            phase: RespPhase::RespPhase32kHz(RespPhase32kHz::Deg_0),
            modulation_enable: false,
            demodulation_enable: false,
        }
    }
}

/// Clock of the respiration circuitry
#[derive(Debug, Clone, Copy, PartialEq, Eq, Structural)]
pub enum RespClock {
    Internal,
    External,
}

impl RespClock {
    /// The field value that selects this member.
    pub open spec fn spec_bits(self) -> u8 {
        match self {
            RespClock::Internal => 0x00,
            RespClock::External => 0x01,
        }
    }

    /// The field value that selects this member.
    #[verifier::when_used_as_spec(spec_bits)]
    pub fn bits(self) -> (raw: u8)
        ensures
            raw == self.spec_bits(),
            RespClock::try_from_spec(raw) == Ok::<RespClock, u8>(self),
    {
        match self {
            RespClock::Internal => 0x00,
            RespClock::External => 0x01,
        }
    }
}

impl TryFrom<u8> for RespClock {
    type Error = u8;

    /// The member that a field value selects; a value that selects none
    /// comes back as the error.
    fn try_from(number: u8) -> (member: Result<Self, u8>) {
        match number {
            0x00 => Ok(RespClock::Internal),
            0x01 => Ok(RespClock::External),
            _ => Err(number),
        }
    }
}

impl vstd::std_specs::convert::TryFromSpecImpl<u8> for RespClock {
    open spec fn obeys_try_from_spec() -> bool {
        true
    }

    open spec fn try_from_spec(number: u8) -> Result<Self, u8> {
        match number {
            0x00 => Ok(RespClock::Internal),
            0x01 => Ok(RespClock::External),
            _ => Err(number),
        }
    }
}

impl From<RespClock> for bool {
    /// Whether the member is the one that sets its bit.
    fn from(v: RespClock) -> (flag: bool) {
        if v.bits() == 0x00 {
            false
        } else {
            true
        }
    }
}

impl vstd::std_specs::convert::FromSpecImpl<RespClock> for bool {
    open spec fn obeys_from_spec() -> bool {
        true
    }

    open spec fn from_spec(v: RespClock) -> bool {
        v.spec_bits() != 0x00
    }
}

/// Phase of the respiration demodulation control signal.
///
/// The four bits of the field mean one angle at a respiration clock of 32 kHz
/// and another at 64 kHz. Two phases are equal when their bits are.
#[derive(Debug, Clone, Copy, Eq)]
pub enum RespPhase {
    RespPhase32kHz(RespPhase32kHz),
    RespPhase64kHz(RespPhase64kHz),
}

impl RespPhase {
    /// The field value of the phase, whichever clock it is for.
    pub open spec fn spec_bits(self) -> u8 {
        match self {
            RespPhase::RespPhase32kHz(vv) => vv.spec_bits(),
            RespPhase::RespPhase64kHz(vv) => vv.spec_bits(),
        }
    }
}

impl From<RespPhase> for u8 {
    /// The field value of the phase, whichever clock it is for.
    fn from(v: RespPhase) -> (raw: Self) {
        match v {
            RespPhase::RespPhase32kHz(vv) => vv.bits(),
            RespPhase::RespPhase64kHz(vv) => vv.bits(),
        }
    }
}

impl vstd::std_specs::convert::FromSpecImpl<RespPhase> for u8 {
    open spec fn obeys_from_spec() -> bool {
        true
    }

    open spec fn from_spec(v: RespPhase) -> Self {
        v.spec_bits()
    }
}

impl PartialEq for RespPhase {
    fn eq(&self, other: &Self) -> (equal: bool) {
        u8::from(*self) == u8::from(*other)
    }
}

impl vstd::std_specs::cmp::PartialEqSpecImpl for RespPhase {
    open spec fn obeys_eq_spec() -> bool {
        true
    }

    open spec fn eq_spec(&self, other: &Self) -> bool {
        self.spec_bits() == other.spec_bits()
    }
}

/// Phase at a respiration clock of 32 kHz
#[allow(non_camel_case_types)]
#[derive(Debug, Clone, Copy, PartialEq, Eq, Structural)]
pub enum RespPhase32kHz {
    Deg_0,
    Deg_11_25,
    Deg_22_5,
    Deg_33_75,
    Deg_45,
    Deg_56_25,
    Deg_67_5,
    Deg_78_75,
    Deg_90,
    Deg_101_25,
    Deg_112_5,
    Deg_123_75,
    Deg_135,
    Deg_146_25,
    Deg_157_5,
    Deg_168_75,
}

impl RespPhase32kHz {
    /// The field value that selects this member.
    pub open spec fn spec_bits(self) -> u8 {
        match self {
            RespPhase32kHz::Deg_0 => 0b0000,
            RespPhase32kHz::Deg_11_25 => 0b0001,
            RespPhase32kHz::Deg_22_5 => 0b0010,
            RespPhase32kHz::Deg_33_75 => 0b0011,
            RespPhase32kHz::Deg_45 => 0b0100,
            RespPhase32kHz::Deg_56_25 => 0b0101,
            RespPhase32kHz::Deg_67_5 => 0b0110,
            RespPhase32kHz::Deg_78_75 => 0b0111,
            RespPhase32kHz::Deg_90 => 0b1000,
            RespPhase32kHz::Deg_101_25 => 0b1001,
            RespPhase32kHz::Deg_112_5 => 0b1010,
            RespPhase32kHz::Deg_123_75 => 0b1011,
            RespPhase32kHz::Deg_135 => 0b1100,
            RespPhase32kHz::Deg_146_25 => 0b1101,
            RespPhase32kHz::Deg_157_5 => 0b1110,
            RespPhase32kHz::Deg_168_75 => 0b1111,
        }
    }

    /// The field value that selects this member.
    #[verifier::when_used_as_spec(spec_bits)]
    pub fn bits(self) -> (raw: u8)
        ensures
            raw == self.spec_bits(),
            RespPhase32kHz::try_from_spec(raw) == Ok::<RespPhase32kHz, u8>(self),
    {
        match self {
            RespPhase32kHz::Deg_0 => 0b0000,
            RespPhase32kHz::Deg_11_25 => 0b0001,
            RespPhase32kHz::Deg_22_5 => 0b0010,
            RespPhase32kHz::Deg_33_75 => 0b0011,
            RespPhase32kHz::Deg_45 => 0b0100,
            RespPhase32kHz::Deg_56_25 => 0b0101,
            RespPhase32kHz::Deg_67_5 => 0b0110,
            RespPhase32kHz::Deg_78_75 => 0b0111,
            RespPhase32kHz::Deg_90 => 0b1000,
            RespPhase32kHz::Deg_101_25 => 0b1001,
            RespPhase32kHz::Deg_112_5 => 0b1010,
            RespPhase32kHz::Deg_123_75 => 0b1011,
            RespPhase32kHz::Deg_135 => 0b1100,
            RespPhase32kHz::Deg_146_25 => 0b1101,
            RespPhase32kHz::Deg_157_5 => 0b1110,
            RespPhase32kHz::Deg_168_75 => 0b1111,
        }
    }
}

impl TryFrom<u8> for RespPhase32kHz {
    type Error = u8;

    /// The member that a field value selects; a value that selects none
    /// comes back as the error.
    fn try_from(number: u8) -> (member: Result<Self, u8>) {
        match number {
            0b0000 => Ok(RespPhase32kHz::Deg_0),
            0b0001 => Ok(RespPhase32kHz::Deg_11_25),
            0b0010 => Ok(RespPhase32kHz::Deg_22_5),
            0b0011 => Ok(RespPhase32kHz::Deg_33_75),
            0b0100 => Ok(RespPhase32kHz::Deg_45),
            0b0101 => Ok(RespPhase32kHz::Deg_56_25),
            0b0110 => Ok(RespPhase32kHz::Deg_67_5),
            0b0111 => Ok(RespPhase32kHz::Deg_78_75),
            0b1000 => Ok(RespPhase32kHz::Deg_90),
            0b1001 => Ok(RespPhase32kHz::Deg_101_25),
            0b1010 => Ok(RespPhase32kHz::Deg_112_5),
            0b1011 => Ok(RespPhase32kHz::Deg_123_75),
            0b1100 => Ok(RespPhase32kHz::Deg_135),
            0b1101 => Ok(RespPhase32kHz::Deg_146_25),
            0b1110 => Ok(RespPhase32kHz::Deg_157_5),
            0b1111 => Ok(RespPhase32kHz::Deg_168_75),
            _ => Err(number),
        }
    }
}

impl vstd::std_specs::convert::TryFromSpecImpl<u8> for RespPhase32kHz {
    open spec fn obeys_try_from_spec() -> bool {
        true
    }

    open spec fn try_from_spec(number: u8) -> Result<Self, u8> {
        match number {
            0b0000 => Ok(RespPhase32kHz::Deg_0),
            0b0001 => Ok(RespPhase32kHz::Deg_11_25),
            0b0010 => Ok(RespPhase32kHz::Deg_22_5),
            0b0011 => Ok(RespPhase32kHz::Deg_33_75),
            0b0100 => Ok(RespPhase32kHz::Deg_45),
            0b0101 => Ok(RespPhase32kHz::Deg_56_25),
            0b0110 => Ok(RespPhase32kHz::Deg_67_5),
            0b0111 => Ok(RespPhase32kHz::Deg_78_75),
            0b1000 => Ok(RespPhase32kHz::Deg_90),
            0b1001 => Ok(RespPhase32kHz::Deg_101_25),
            0b1010 => Ok(RespPhase32kHz::Deg_112_5),
            0b1011 => Ok(RespPhase32kHz::Deg_123_75),
            0b1100 => Ok(RespPhase32kHz::Deg_135),
            0b1101 => Ok(RespPhase32kHz::Deg_146_25),
            0b1110 => Ok(RespPhase32kHz::Deg_157_5),
            0b1111 => Ok(RespPhase32kHz::Deg_168_75),
            _ => Err(number),
        }
    }
}

/// Phase at a respiration clock of 64 kHz
#[allow(non_camel_case_types)]
#[derive(Debug, Clone, Copy, PartialEq, Eq, Structural)]
pub enum RespPhase64kHz {
    Deg_0,
    Deg_22_5,
    Deg_45,
    Deg_67_5,
    Deg_90,
    Deg_112_5,
    Deg_135,
    Deg_157_5,
}

impl RespPhase64kHz {
    /// The field value that selects this member.
    pub open spec fn spec_bits(self) -> u8 {
        match self {
            RespPhase64kHz::Deg_0 => 0b0000,
            RespPhase64kHz::Deg_22_5 => 0b0001,
            RespPhase64kHz::Deg_45 => 0b0010,
            RespPhase64kHz::Deg_67_5 => 0b0011,
            RespPhase64kHz::Deg_90 => 0b0100,
            RespPhase64kHz::Deg_112_5 => 0b0101,
            RespPhase64kHz::Deg_135 => 0b0110,
            RespPhase64kHz::Deg_157_5 => 0b0111,
        }
    }

    /// The field value that selects this member.
    #[verifier::when_used_as_spec(spec_bits)]
    pub fn bits(self) -> (raw: u8)
        ensures
            raw == self.spec_bits(),
            RespPhase64kHz::try_from_spec(raw) == Ok::<RespPhase64kHz, u8>(self),
    {
        match self {
            RespPhase64kHz::Deg_0 => 0b0000,
            RespPhase64kHz::Deg_22_5 => 0b0001,
            RespPhase64kHz::Deg_45 => 0b0010,
            RespPhase64kHz::Deg_67_5 => 0b0011,
            RespPhase64kHz::Deg_90 => 0b0100,
            RespPhase64kHz::Deg_112_5 => 0b0101,
            RespPhase64kHz::Deg_135 => 0b0110,
            RespPhase64kHz::Deg_157_5 => 0b0111,
        }
    }
}

impl TryFrom<u8> for RespPhase64kHz {
    type Error = u8;

    /// The member that a field value selects; a value that selects none
    /// comes back as the error.
    fn try_from(number: u8) -> (member: Result<Self, u8>) {
        match number {
            0b0000 => Ok(RespPhase64kHz::Deg_0),
            0b0001 => Ok(RespPhase64kHz::Deg_22_5),
            0b0010 => Ok(RespPhase64kHz::Deg_45),
            0b0011 => Ok(RespPhase64kHz::Deg_67_5),
            0b0100 => Ok(RespPhase64kHz::Deg_90),
            0b0101 => Ok(RespPhase64kHz::Deg_112_5),
            0b0110 => Ok(RespPhase64kHz::Deg_135),
            0b0111 => Ok(RespPhase64kHz::Deg_157_5),
            _ => Err(number),
        }
    }
}

impl vstd::std_specs::convert::TryFromSpecImpl<u8> for RespPhase64kHz {
    open spec fn obeys_try_from_spec() -> bool {
        true
    }

    open spec fn try_from_spec(number: u8) -> Result<Self, u8> {
        match number {
            0b0000 => Ok(RespPhase64kHz::Deg_0),
            0b0001 => Ok(RespPhase64kHz::Deg_22_5),
            0b0010 => Ok(RespPhase64kHz::Deg_45),
            0b0011 => Ok(RespPhase64kHz::Deg_67_5),
            0b0100 => Ok(RespPhase64kHz::Deg_90),
            0b0101 => Ok(RespPhase64kHz::Deg_112_5),
            0b0110 => Ok(RespPhase64kHz::Deg_135),
            0b0111 => Ok(RespPhase64kHz::Deg_157_5),
            _ => Err(number),
        }
    }
}

/// Respiration control register 1 (address 0x09)
///
/// Controls the respiration functionality.
#[derive(Debug, Clone, Copy, PartialEq, Eq)]
pub struct RespControl1Reg(pub u8);

impl RespControl1Reg {
    /// Respiration control
    ///
    /// This bit sets the mode of the respiration circuitry.
    ///   - 0 = Internal respiration with internal clock
    ///   - 1 = Internal respiration with external clock
    pub fn resp_ctrl(&self) -> (value: bool)
        ensures
            value == bit_of(self.0 as int, 0),
    {
        bit(self.0, 0)
    }

    /// Sets bit 0, the field that [`Self::resp_ctrl`] reads.
    pub fn set_resp_ctrl(&mut self, value: bool)
        ensures
            final(self).0 == with_bit(old(self).0 as int, 0, value),
    {
        self.0 = set_bit(self.0, 0, value);
    }

    /// Not used
    ///
    /// Must be set 1
    fn set_must_set_1(&mut self, value: bool)
        ensures
            final(self).0 == with_bit(old(self).0 as int, 1, value),
    {
        self.0 = set_bit(self.0, 1, value);
    }

    /// Respiration phase
    ///
    /// These bits control the phase of the respiration demodulation control signal.
    ///
    /// |  bits  | RESP_CLK = 32kHz | RESP_CLK = 64kHZ |
    /// |--------|------------------|------------------|
    /// | 0b0000 | 0                | 0                |
    /// | 0b0001 | 11.25            | 22.5             |
    /// | 0b0010 | 22.5             | 45               |
    /// | 0b0011 | 33.75            | 67.5             |
    /// | 0b0100 | 45               | 90               |
    /// | 0b0101 | 56.25            | 112.5            |
    /// | 0b0110 | 67.5             | 135              |
    /// | 0b0111 | 78.75            | 157.5            |
    /// | 0b1000 | 90               | NA               |
    /// | 0b1001 | 101.25           | NA               |
    /// | 0b1010 | 112.5            | NA               |
    /// | 0b1011 | 123.75           | NA               |
    /// | 0b1100 | 135              | NA               |
    /// | 0b1101 | 146.25           | NA               |
    /// | 0b1110 | 157.5            | NA               |
    /// | 0b1111 | 168.75           | NA               |
    pub fn resp_ph(&self) -> (value: u8)
        ensures
            value == bits_of(self.0 as int, 5, 2),
    {
        bit_range(self.0, 5, 2)
    }

    /// Sets bits 5..=2, the field that [`Self::resp_ph`] reads.
    pub fn set_resp_ph(&mut self, value: u8)
        ensures
            final(self).0 == with_bits(old(self).0 as int, 5, 2, value as int),
    {
        self.0 = set_bit_range(self.0, 5, 2, value);
    }

    /// Enables respiration modulation circuitry
    ///
    /// This bit enables and disables the modulation circuitry on channel 1.
    ///   - 0 = `RESP` modulation circuitry turned off (default)
    ///   - 1 = `RESP` modulation circuitry turned on
    pub fn resp_mod_en(&self) -> (value: bool)
        ensures
            value == bit_of(self.0 as int, 6),
    {
        bit(self.0, 6)
    }

    /// Sets bit 6, the field that [`Self::resp_mod_en`] reads.
    pub fn set_resp_mod_en(&mut self, value: bool)
        ensures
            final(self).0 == with_bit(old(self).0 as int, 6, value),
    {
        self.0 = set_bit(self.0, 6, value);
    }

    /// Enables respiration demodulation circuitry
    ///
    /// This bit enables and disables the demodulation circuitry on channel 1.
    ///   - 0 = `RESP` demodulation circuitry turned off (default)
    ///   - 1 = `RESP` demodulation circuitry turned on
    pub fn resp_demod_en(&self) -> (value: bool)
        ensures
            value == bit_of(self.0 as int, 7),
    {
        bit(self.0, 7)
    }

    /// Sets bit 7, the field that [`Self::resp_demod_en`] reads.
    pub fn set_resp_demod_en(&mut self, value: bool)
        ensures
            final(self).0 == with_bit(old(self).0 as int, 7, value),
    {
        self.0 = set_bit(self.0, 7, value);
    }
}

impl From<Resp1> for RespControl1Reg {
    /// Packs the respiration control into the register byte. Bit 1 is always
    /// set, as the data sheet asks. Of the phase only its four bits are
    /// kept, not the clock it is for.
    fn from(param: Resp1) -> (reg: Self) {
        let mut reg = RespControl1Reg(0x00);
        reg.set_resp_ctrl(bool::from(param.clock));
        reg.set_must_set_1(true);
        reg.set_resp_ph(u8::from(param.phase));
        reg.set_resp_mod_en(param.modulation_enable);
        reg.set_resp_demod_en(param.demodulation_enable);
        reg
    }
}

impl vstd::std_specs::convert::FromSpecImpl<Resp1> for RespControl1Reg {
    open spec fn obeys_from_spec() -> bool {
        true
    }

    open spec fn from_spec(param: Resp1) -> Self {
        RespControl1Reg(
            (flag_value(0, param.clock.spec_bits() != 0)
                + flag_value(1, true)
                + field_value(2, param.phase.spec_bits() as int)
                + flag_value(6, param.modulation_enable)
                + flag_value(7, param.demodulation_enable)) as u8,
        )
    }
}

impl TryFrom<RespControl1Reg> for Resp1 {
    type Error = u8;

    /// Interprets the register byte: every byte has a meaning. The byte does
    /// not say which clock the phase is for; it is read as for 32 kHz.
    fn try_from(reg: RespControl1Reg) -> (param: Result<Self, u8>)
        ensures
            param is Ok,
    {
        let clock = match RespClock::try_from(reg.resp_ctrl() as u8) {
            Ok(member) => member,
            Err(_) => {
                return Err(reg.0);
            },
        };
        let phase = match RespPhase32kHz::try_from(reg.resp_ph()) {
            Ok(member) => member,
            Err(_) => {
                return Err(reg.0);
            },
        };
        Ok(
            Resp1 {
                clock,
                phase: RespPhase::RespPhase32kHz(phase),
                modulation_enable: reg.resp_mod_en(),
                demodulation_enable: reg.resp_demod_en(),
            },
        )
    }
}

impl vstd::std_specs::convert::TryFromSpecImpl<RespControl1Reg> for Resp1 {
    open spec fn obeys_try_from_spec() -> bool {
        true
    }

    open spec fn try_from_spec(reg: RespControl1Reg) -> Result<Self, u8> {
        let raw = reg.0 as int;
        match (
            <RespClock as TryFromSpec<u8>>::try_from_spec(flag_number(bit_of(raw, 0))),
            <RespPhase32kHz as TryFromSpec<u8>>::try_from_spec(bits_of(raw, 5, 2) as u8),
        ) {
            (Ok(clock), Ok(phase)) => Ok(
                Resp1 {
                    clock,
                    phase: RespPhase::RespPhase32kHz(phase),
                    modulation_enable: bit_of(raw, 6),
                    demodulation_enable: bit_of(raw, 7),
                },
            ),
            _ => Err(reg.0),
        }
    }
}

/// Packing a respiration control and interpreting the byte gives an equal
/// control back: the same clock and switches, and a phase with the same bits,
/// which is what makes two phases equal.
pub proof fn lemma_resp1_round_trip(param: Resp1)
    ensures
        Resp1::try_from_spec(RespControl1Reg::from_spec(param)) matches Ok(read) && read.clock
            == param.clock && read.phase.eq_spec(&param.phase) && read.modulation_enable
            == param.modulation_enable && read.demodulation_enable == param.demodulation_enable,
        param.phase is RespPhase32kHz ==> Resp1::try_from_spec(RespControl1Reg::from_spec(param))
            == Ok::<Resp1, u8>(param),
{
}

/// Respiration control register 2 (address 0x0A)
///
/// Controls the respiration and calibration functionality.
#[derive(Debug, Clone, Copy, PartialEq, Eq)]
pub struct RespControl2Reg(pub u8);

impl RespControl2Reg {
    /// Determines the RLDREF signal source.
    /// Can be fed externally (false : 0) or internally by using (AVDD - AVSS) / 2 (true : 1).
    pub fn rldref_int(&self) -> (value: bool)
        ensures
            value == bit_of(self.0 as int, 1),
    {
        bit(self.0, 1)
    }

    /// Sets bit 1, the field that [`Self::rldref_int`] reads.
    pub fn set_rldref_int(&mut self, value: bool)
        ensures
            final(self).0 == with_bit(old(self).0 as int, 1, value),
    {
        self.0 = set_bit(self.0, 1, value);
    }

    /// Controls the respiration control frequency when RESP_CTRL = 0.
    ///
    /// **Warning**: this bit must be written with '1' for the ADS1291 and ADS1292.
    pub fn resp_freq_64khz(&self) -> (value: bool)
        ensures
            value == bit_of(self.0 as int, 2),
    {
        bit(self.0, 2)
    }

    /// Sets bit 2, the field that [`Self::resp_freq_64khz`] reads.
    pub fn set_resp_freq_64khz(&mut self, value: bool)
        ensures
            final(self).0 == with_bit(old(self).0 as int, 2, value),
    {
        self.0 = set_bit(self.0, 2, value);
    }

    /// Enables offset calibration
    pub fn calib_on(&self) -> (value: bool)
        ensures
            value == bit_of(self.0 as int, 7),
    {
        bit(self.0, 7)
    }

    /// Sets bit 7, the field that [`Self::calib_on`] reads.
    pub fn set_calib_on(&mut self, value: bool)
        ensures
            final(self).0 == with_bit(old(self).0 as int, 7, value),
    {
        self.0 = set_bit(self.0, 7, value);
    }
}

} // verus!
