//! Channel settings registers.

use crate::bits::{
    bit, bit_of, bit_range, bits_of, field_value, flag_value, set_bit, set_bit_range, with_bit,
    with_bits,
};
use vstd::prelude::*;
use vstd::std_specs::convert::{FromSpec, TryFromSpec};

verus! {

/// Individual channel settings
#[derive(Debug, Clone, Copy, PartialEq, Eq)]
pub enum Chan {
    PowerUp { input: ChannelInput, gain: ChannelGain },
    PowerDown,
}

impl Default for Chan {
    fn default() -> (value: Self)
        ensures
            value == (Chan::PowerUp { input: ChannelInput::Normal, gain: ChannelGain::X6 }),
    {
        Chan::PowerUp { input: ChannelInput::Normal, gain: ChannelGain::X6 }
    }
}

/// Channel Input
#[derive(Debug, Clone, Copy, PartialEq, Eq, Structural)]
pub enum ChannelInput {
    /// Normal electrode input
    Normal,
    /// Input shorted (for offset or noise measurements)
    Shorted,
    /// Used in conjunction with `RLD_MEAS` bit for RLD measurements.
    Rld,
    /// MVDD for supply measurement
    MVDD,
    /// Temperature sensor
    Temp,
    /// Test signal
    TestSig,
    /// RLD_DRP (positive electrode is the driver)
    RldDrp,
    /// RLD_DRN (negative electrode is the driver)
    RldDrn,
}

impl ChannelInput {
    /// The field value that selects this member.
    pub open spec fn spec_bits(self) -> u8 {
        match self {
            ChannelInput::Normal => 0b000,
            ChannelInput::Shorted => 0b001,
            ChannelInput::Rld => 0b010,
            ChannelInput::MVDD => 0b011,
            ChannelInput::Temp => 0b100,
            ChannelInput::TestSig => 0b101,
            ChannelInput::RldDrp => 0b110,
            ChannelInput::RldDrn => 0b111,
        }
    }

    /// The field value that selects this member.
    #[verifier::when_used_as_spec(spec_bits)]
    pub fn bits(self) -> (raw: u8)
        ensures
            raw == self.spec_bits(),
            ChannelInput::try_from_spec(raw) == Ok::<ChannelInput, u8>(self),
    {
        match self {
            ChannelInput::Normal => 0b000,
            ChannelInput::Shorted => 0b001,
            ChannelInput::Rld => 0b010,
            ChannelInput::MVDD => 0b011,
            ChannelInput::Temp => 0b100,
            ChannelInput::TestSig => 0b101,
            ChannelInput::RldDrp => 0b110,
            ChannelInput::RldDrn => 0b111,
        }
    }
}

impl TryFrom<u8> for ChannelInput {
    type Error = u8;

    /// The member that a field value selects; a value that selects none
    /// comes back as the error.
    fn try_from(number: u8) -> (member: Result<Self, u8>) {
        match number {
            0b000 => Ok(ChannelInput::Normal),
            0b001 => Ok(ChannelInput::Shorted),
            0b010 => Ok(ChannelInput::Rld),
            0b011 => Ok(ChannelInput::MVDD),
            0b100 => Ok(ChannelInput::Temp),
            0b101 => Ok(ChannelInput::TestSig),
            0b110 => Ok(ChannelInput::RldDrp),
            0b111 => Ok(ChannelInput::RldDrn),
            _ => Err(number),
        }
    }
}

impl vstd::std_specs::convert::TryFromSpecImpl<u8> for ChannelInput {
    open spec fn obeys_try_from_spec() -> bool {
        true
    }

    open spec fn try_from_spec(number: u8) -> Result<Self, u8> {
        match number {
            0b000 => Ok(ChannelInput::Normal),
            0b001 => Ok(ChannelInput::Shorted),
            0b010 => Ok(ChannelInput::Rld),
            0b011 => Ok(ChannelInput::MVDD),
            0b100 => Ok(ChannelInput::Temp),
            0b101 => Ok(ChannelInput::TestSig),
            0b110 => Ok(ChannelInput::RldDrp),
            0b111 => Ok(ChannelInput::RldDrn),
            _ => Err(number),
        }
    }
}

/// PGA gain
#[derive(Debug, Clone, Copy, PartialEq, Eq, Structural)]
pub enum ChannelGain {
    X6,
    X1,
    X2,
    X3,
    X4,
    X8,
    X12,
}

impl ChannelGain {
    /// The field value that selects this member.
    pub open spec fn spec_bits(self) -> u8 {
        match self {
            ChannelGain::X6 => 0b000,
            ChannelGain::X1 => 0b001,
            ChannelGain::X2 => 0b010,
            ChannelGain::X3 => 0b011,
            ChannelGain::X4 => 0b100,
            ChannelGain::X8 => 0b101,
            ChannelGain::X12 => 0b110,
        }
    }

    /// The field value that selects this member.
    #[verifier::when_used_as_spec(spec_bits)]
    pub fn bits(self) -> (raw: u8)
        ensures
            raw == self.spec_bits(),
            ChannelGain::try_from_spec(raw) == Ok::<ChannelGain, u8>(self),
    {
        match self {
            ChannelGain::X6 => 0b000,
            ChannelGain::X1 => 0b001,
            ChannelGain::X2 => 0b010,
            ChannelGain::X3 => 0b011,
            ChannelGain::X4 => 0b100,
            ChannelGain::X8 => 0b101,
            ChannelGain::X12 => 0b110,
        }
    }
}

impl TryFrom<u8> for ChannelGain {
    type Error = u8;

    /// The member that a field value selects; a value that selects none
    /// comes back as the error.
    fn try_from(number: u8) -> (member: Result<Self, u8>) {
        match number {
            0b000 => Ok(ChannelGain::X6),
            0b001 => Ok(ChannelGain::X1),
            0b010 => Ok(ChannelGain::X2),
            0b011 => Ok(ChannelGain::X3),
            0b100 => Ok(ChannelGain::X4),
            0b101 => Ok(ChannelGain::X8),
            0b110 => Ok(ChannelGain::X12),
            _ => Err(number),
        }
    }
}

impl vstd::std_specs::convert::TryFromSpecImpl<u8> for ChannelGain {
    open spec fn obeys_try_from_spec() -> bool {
        true
    }

    open spec fn try_from_spec(number: u8) -> Result<Self, u8> {
        match number {
            0b000 => Ok(ChannelGain::X6),
            0b001 => Ok(ChannelGain::X1),
            0b010 => Ok(ChannelGain::X2),
            0b011 => Ok(ChannelGain::X3),
            0b100 => Ok(ChannelGain::X4),
            0b101 => Ok(ChannelGain::X8),
            0b110 => Ok(ChannelGain::X12),
            _ => Err(number),
        }
    }
}

/// Individual channel settings (addresses 0x05 to 0x0C)
///
/// The CH[1:8]SET control register configures the power mode, PGA gain, and multiplexer
/// settings channels
#[derive(Debug, Clone, Copy, PartialEq, Eq)]
pub struct ChanSetReg(pub u8);

impl ChanSetReg {
    /// Channel Input
    ///
    /// These bits determine the channel input selection.
    ///
    ///   - 000 = Normal electrode input
    ///   - 001 = Input shorted (for offset or noise measurements)
    ///   - 010 = Used in conjunction with `RLD_MEAS` bit for RLD measurements.
    ///   - 011 = MVDD for supply measurement
    ///   - 100 = Temperature sensor
    ///   - 101 = Test signal
    ///   - 110 = RLD_DRP (positive electrode is the driver)
    ///   - 111 = RLD_DRN (negative electrode is the driver)
    pub fn mux(&self) -> (value: u8)
        ensures
            value == bits_of(self.0 as int, 2, 0),
    {
        bit_range(self.0, 2, 0)
    }

    /// Sets bits 2..=0, the field that [`Self::mux`] reads.
    pub fn set_mux(&mut self, value: u8)
        ensures
            final(self).0 == with_bits(old(self).0 as int, 2, 0, value as int),
    {
        self.0 = set_bit_range(self.0, 2, 0, value);
    }

    /// PGA gain
    ///
    /// These bits determine the PGA gain setting.
    ///   - 000 =  6
    ///   - 001 =  1
    ///   - 010 =  2
    ///   - 011 =  3
    ///   - 100 =  4
    ///   - 101 =  8
    ///   - 110 = 12
    pub fn gain(&self) -> (value: u8)
        ensures
            value == bits_of(self.0 as int, 6, 4),
    {
        bit_range(self.0, 6, 4)
    }

    /// Sets bits 6..=4, the field that [`Self::gain`] reads.
    pub fn set_gain(&mut self, value: u8)
        ensures
            final(self).0 == with_bits(old(self).0 as int, 6, 4, value as int),
    {
        self.0 = set_bit_range(self.0, 6, 4, value);
    }

    /// Power-down
    ///
    /// This bit determines the channel power mode for the corresponding channel.
    ///
    ///   - 0 = Normal operation
    ///   - 1 = Channel power-down.
    ///
    /// When powering down a channel, TI recommends that the channel be set to
    /// input short by setting the appropriate MUXn bits to 001 of the CHnSET register
    pub fn pd(&self) -> (value: bool)
        ensures
            value == bit_of(self.0 as int, 7),
    {
        bit(self.0, 7)
    }

    /// Sets bit 7, the field that [`Self::pd`] reads.
    pub fn set_pd(&mut self, value: bool)
        ensures
            final(self).0 == with_bit(old(self).0 as int, 7, value),
    {
        self.0 = set_bit(self.0, 7, value);
    }
}

impl From<Chan> for ChanSetReg {
    /// Packs the channel settings into the register byte. A channel that is
    /// powered down has its input shorted, as the data sheet recommends, and
    /// its gain bits clear. Bit 3 stays clear.
    fn from(chan: Chan) -> (reg: Self) {
        let mut reg = ChanSetReg(0);
        match chan {
            Chan::PowerUp { input, gain } => {
                reg.set_mux(input.bits());
                reg.set_gain(gain.bits());
                reg.set_pd(false);
            },
            Chan::PowerDown => {
                reg.set_mux(ChannelInput::Shorted.bits());
                reg.set_pd(true);
            },
        }
        reg
    }
}

impl vstd::std_specs::convert::FromSpecImpl<Chan> for ChanSetReg {
    open spec fn obeys_from_spec() -> bool {
        true
    }

    open spec fn from_spec(chan: Chan) -> Self {
        match chan {
            Chan::PowerUp { input, gain } => ChanSetReg(
                (field_value(0, input.spec_bits() as int) + field_value(4, gain.spec_bits() as int))
                    as u8,
            ),
            Chan::PowerDown => ChanSetReg(
                (field_value(0, ChannelInput::Shorted.spec_bits() as int) + flag_value(7, true))
                    as u8,
            ),
        }
    }
}

impl TryFrom<ChanSetReg> for Chan {
    type Error = u8;

    /// Interprets the register byte. With the power-down bit set the other
    /// bits are not looked at. Else the input and the gain must each be a
    /// member; if one is not, the byte is the error.
    fn try_from(reg: ChanSetReg) -> (chan: Result<Self, u8>)
        ensures
            chan is Err ==> chan == Err::<Chan, u8>(reg.0),
            chan is Err <==> !bit_of(reg.0 as int, 7) && bits_of(reg.0 as int, 6, 4) == 0b111,
    {
        if reg.pd() {
            Ok(Chan::PowerDown)
        } else {
            let input = match ChannelInput::try_from(reg.mux()) {
                Ok(member) => member,
                Err(_) => {
                    return Err(reg.0);
                },
            };
            let gain = match ChannelGain::try_from(reg.gain()) {
                Ok(member) => member,
                Err(_) => {
                    return Err(reg.0);
                },
            };
            Ok(Chan::PowerUp { input, gain })
        }
    }
}

impl vstd::std_specs::convert::TryFromSpecImpl<ChanSetReg> for Chan {
    open spec fn obeys_try_from_spec() -> bool {
        true
    }

    open spec fn try_from_spec(reg: ChanSetReg) -> Result<Self, u8> {
        let raw = reg.0 as int;
        if bit_of(raw, 7) {
            Ok(Chan::PowerDown)
        } else {
            match (
                <ChannelInput as TryFromSpec<u8>>::try_from_spec(bits_of(raw, 2, 0) as u8),
                <ChannelGain as TryFromSpec<u8>>::try_from_spec(bits_of(raw, 6, 4) as u8),
            ) {
                (Ok(input), Ok(gain)) => Ok(Chan::PowerUp { input, gain }),
                _ => Err(reg.0),
            }
        }
    }
}

/// Packing channel settings and interpreting the byte gives the settings
/// back.
pub proof fn lemma_chan_round_trip(chan: Chan)
    ensures
        Chan::try_from_spec(ChanSetReg::from_spec(chan)) == Ok::<Chan, u8>(chan),
{
}

} // verus!
