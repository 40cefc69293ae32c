//! Configuration registers 1 and 2.

use crate::bits::{
    bit, bit_of, bit_range, bits_of, field_value, flag_number, flag_value, set_bit, set_bit_range,
    with_bit, with_bits,
};
use vstd::prelude::*;
use vstd::std_specs::convert::{FromSpec, TryFromSpec};

verus! {

/// Basic device configuration
#[derive(Debug, Clone, Copy, PartialEq, Eq)]
pub struct Config {
    /// Conversion mode
    pub mode: Mode,
    /// Oversampling rate of all channels
    pub sample_rate: SampleRate,
}

impl Default for Config {
    fn default() -> (value: Self)
        ensures
            value == (Config {
                mode: Mode::Continuous,
                sample_rate: SampleRate::Sps500,
            }),
    {
        Config {
            mode: Mode::Continuous,
            sample_rate: SampleRate::Sps500,
        }
    }
}

/// Conversion mode
#[derive(Debug, Clone, Copy, PartialEq, Eq, Structural)]
pub enum Mode {
    Continuous,
    SingleShot,
}

impl Mode {
    /// The field value that selects this member.
    pub open spec fn spec_bits(self) -> u8 {
        match self {
            Mode::Continuous => 0x00,
            Mode::SingleShot => 0x01,
        }
    }

    /// The field value that selects this member.
    #[verifier::when_used_as_spec(spec_bits)]
    pub fn bits(self) -> (raw: u8)
        ensures
            raw == self.spec_bits(),
            Mode::try_from_spec(raw) == Ok::<Mode, u8>(self),
    {
        match self {
            Mode::Continuous => 0x00,
            Mode::SingleShot => 0x01,
        }
    }
}

impl TryFrom<u8> for Mode {
    type Error = u8;

    /// The member that a field value selects; a value that selects none
    /// comes back as the error.
    fn try_from(number: u8) -> (member: Result<Self, u8>) {
        match number {
            0x00 => Ok(Mode::Continuous),
            0x01 => Ok(Mode::SingleShot),
            _ => Err(number),
        }
    }
}

impl vstd::std_specs::convert::TryFromSpecImpl<u8> for Mode {
    open spec fn obeys_try_from_spec() -> bool {
        true
    }

    open spec fn try_from_spec(number: u8) -> Result<Self, u8> {
        match number {
            0x00 => Ok(Mode::Continuous),
            0x01 => Ok(Mode::SingleShot),
            _ => Err(number),
        }
    }
}

/// Oversampling rate
#[derive(Debug, Clone, Copy, PartialEq, Eq, Structural)]
pub enum SampleRate {
    Sps125,
    Sps250,
    Sps500,
    KSps1,
    KSps2,
    KSps4,
    KSps8,
}

impl SampleRate {
    /// The field value that selects this member.
    pub open spec fn spec_bits(self) -> u8 {
        match self {
            SampleRate::Sps125 => 0b000,
            SampleRate::Sps250 => 0b001,
            SampleRate::Sps500 => 0b010,
            SampleRate::KSps1 => 0b011,
            SampleRate::KSps2 => 0b100,
            SampleRate::KSps4 => 0b101,
            SampleRate::KSps8 => 0b110,
        }
    }

    /// The field value that selects this member.
    #[verifier::when_used_as_spec(spec_bits)]
    pub fn bits(self) -> (raw: u8)
        ensures
            raw == self.spec_bits(),
            SampleRate::try_from_spec(raw) == Ok::<SampleRate, u8>(self),
    {
        match self {
            SampleRate::Sps125 => 0b000,
            SampleRate::Sps250 => 0b001,
            SampleRate::Sps500 => 0b010,
            SampleRate::KSps1 => 0b011,
            SampleRate::KSps2 => 0b100,
            SampleRate::KSps4 => 0b101,
            SampleRate::KSps8 => 0b110,
        }
    }
}

impl TryFrom<u8> for SampleRate {
    type Error = u8;

    /// The member that a field value selects; a value that selects none
    /// comes back as the error.
    fn try_from(number: u8) -> (member: Result<Self, u8>) {
        match number {
            0b000 => Ok(SampleRate::Sps125),
            0b001 => Ok(SampleRate::Sps250),
            0b010 => Ok(SampleRate::Sps500),
            0b011 => Ok(SampleRate::KSps1),
            0b100 => Ok(SampleRate::KSps2),
            0b101 => Ok(SampleRate::KSps4),
            0b110 => Ok(SampleRate::KSps8),
            _ => Err(number),
        }
    }
}

impl vstd::std_specs::convert::TryFromSpecImpl<u8> for SampleRate {
    open spec fn obeys_try_from_spec() -> bool {
        true
    }

    open spec fn try_from_spec(number: u8) -> Result<Self, u8> {
        match number {
            0b000 => Ok(SampleRate::Sps125),
            0b001 => Ok(SampleRate::Sps250),
            0b010 => Ok(SampleRate::Sps500),
            0b011 => Ok(SampleRate::KSps1),
            0b100 => Ok(SampleRate::KSps2),
            0b101 => Ok(SampleRate::KSps4),
            0b110 => Ok(SampleRate::KSps8),
            _ => Err(number),
        }
    }
}

impl Default for SampleRate {
    fn default() -> (value: Self)
        ensures
            value == SampleRate::Sps500,
    {
        SampleRate::Sps500
    }
}

/// Configuration register 1 (address 0x01)
///
/// Configures each ADC channel sample rate.
#[derive(Debug, Clone, Copy, PartialEq, Eq)]
pub struct Config1Reg(pub u8);

impl Config1Reg {
    /// The oversampling rate used by all channels.
    pub fn oversampling(&self) -> (value: u8)
        ensures
            value == bits_of(self.0 as int, 2, 0),
    {
        bit_range(self.0, 2, 0)
    }

    /// Sets bits 2..=0, the field that [`Self::oversampling`] reads.
    pub fn set_oversampling(&mut self, value: u8)
        ensures
            final(self).0 == with_bits(old(self).0 as int, 2, 0, value as int),
    {
        self.0 = set_bit_range(self.0, 2, 0, value);
    }

    /// The single shot conversion mode, otherwise use a continuous conversion mode.
    pub fn single_shot(&self) -> (value: bool)
        ensures
            value == bit_of(self.0 as int, 7),
    {
        bit(self.0, 7)
    }

    /// Sets bit 7, the field that [`Self::single_shot`] reads.
    pub fn set_single_shot(&mut self, value: bool)
        ensures
            final(self).0 == with_bit(old(self).0 as int, 7, value),
    {
        self.0 = set_bit(self.0, 7, value);
    }
}

impl From<Config> for Config1Reg {
    /// Packs a configuration into the register byte. Bits 3 to 6 stay clear.
    fn from(config: Config) -> (reg: Self) {
        let mut reg = Config1Reg(0);
        reg.set_single_shot(config.mode == Mode::SingleShot);
        reg.set_oversampling(config.sample_rate.bits());
        reg
    }
}

impl vstd::std_specs::convert::FromSpecImpl<Config> for Config1Reg {
    open spec fn obeys_from_spec() -> bool {
        true
    }

    open spec fn from_spec(config: Config) -> Self {
        Config1Reg(
            (field_value(0, config.sample_rate.spec_bits() as int)
                + flag_value(7, config.mode == Mode::SingleShot)) as u8,
        )
    }
}

impl TryFrom<Config1Reg> for Config {
    type Error = u8;

    /// Interprets the register byte. A rate field that selects no rate makes
    /// the byte uninterpretable, and the byte is the error.
    fn try_from(reg: Config1Reg) -> (config: Result<Self, u8>)
        ensures
            config is Err ==> config == Err::<Config, u8>(reg.0),
            config is Err <==> bits_of(reg.0 as int, 2, 0) == 0b111,
    {
        let mode = match Mode::try_from(reg.single_shot() as u8) {
            Ok(member) => member,
            Err(_) => {
                return Err(reg.0);
            },
        };
        let sample_rate = match SampleRate::try_from(reg.oversampling()) {
            Ok(member) => member,
            Err(_) => {
                return Err(reg.0);
            },
        };
        Ok(
            Config {
                mode,
                sample_rate,
            },
        )
    }
}

impl vstd::std_specs::convert::TryFromSpecImpl<Config1Reg> for Config {
    open spec fn obeys_try_from_spec() -> bool {
        true
    }

    open spec fn try_from_spec(reg: Config1Reg) -> Result<Self, u8> {
        let raw = reg.0 as int;
        match (
            <Mode as TryFromSpec<u8>>::try_from_spec(flag_number(bit_of(raw, 7))),
            <SampleRate as TryFromSpec<u8>>::try_from_spec(bits_of(raw, 2, 0) as u8),
        ) {
            (Ok(mode), Ok(sample_rate)) => Ok(
                Config {
                    mode,
                    sample_rate,
                },
            ),
            _ => Err(reg.0),
        }
    }
}

/// Packing a configuration and interpreting the byte gives the configuration
/// back.
pub proof fn lemma_config_round_trip(config: Config)
    ensures
        Config::try_from_spec(Config1Reg::from_spec(config)) == Ok::<Config, u8>(config),
{
}

/// Various configurations
#[allow(non_snake_case)]
#[derive(Debug, Clone, Copy, PartialEq, Eq)]
pub struct MiscConfig {
    /// Test signal frequency
    pub test_signal_freq: TestSignalFreq,
    /// Test signal enable flag
    pub test_signal_enable: bool,
    /// Oscillator clock output
    pub osc_clock_output: bool,
    /// Reference voltage `VREF` 4V enable
    /// or 2V if disabled
    pub vref_4V_enable: bool,
    /// Power-down reference buffer enable
    pub ref_buffer_enable: bool,
    /// Lead-off comparator enable
    pub leadoff_comparator_enable: bool,
}

impl Default for MiscConfig {
    fn default() -> (value: Self)
        ensures
            value == (MiscConfig {
                test_signal_freq: TestSignalFreq::AtDc,
                test_signal_enable: false,
                osc_clock_output: false,
                vref_4V_enable: false,
                ref_buffer_enable: false,
                leadoff_comparator_enable: false,
            }),
    {
        MiscConfig {
            test_signal_freq: TestSignalFreq::AtDc,
            test_signal_enable: false,
            osc_clock_output: false,
            vref_4V_enable: false,
            ref_buffer_enable: false,
            leadoff_comparator_enable: false,
        }
    }
}

/// Test signal frequency
#[allow(non_camel_case_types)]
#[derive(Debug, Clone, Copy, PartialEq, Eq, Structural)]
pub enum TestSignalFreq {
    /// At dc
    AtDc,
    /// Square wave at 1 Hz
    SquareWave_1Hz,
}

impl TestSignalFreq {
    /// The field value that selects this member.
    pub open spec fn spec_bits(self) -> u8 {
        match self {
            TestSignalFreq::AtDc => 0x00,
            TestSignalFreq::SquareWave_1Hz => 0x01,
        }
    }

    /// The field value that selects this member.
    #[verifier::when_used_as_spec(spec_bits)]
    pub fn bits(self) -> (raw: u8)
        ensures
            raw == self.spec_bits(),
            TestSignalFreq::try_from_spec(raw) == Ok::<TestSignalFreq, u8>(self),
    {
        match self {
            TestSignalFreq::AtDc => 0x00,
            TestSignalFreq::SquareWave_1Hz => 0x01,
        }
    }
}

impl TryFrom<u8> for TestSignalFreq {
    type Error = u8;

    /// The member that a field value selects; a value that selects none
    /// comes back as the error.
    fn try_from(number: u8) -> (member: Result<Self, u8>) {
        match number {
            0x00 => Ok(TestSignalFreq::AtDc),
            0x01 => Ok(TestSignalFreq::SquareWave_1Hz),
            _ => Err(number),
        }
    }
}

impl vstd::std_specs::convert::TryFromSpecImpl<u8> for TestSignalFreq {
    open spec fn obeys_try_from_spec() -> bool {
        true
    }

    open spec fn try_from_spec(number: u8) -> Result<Self, u8> {
        match number {
            0x00 => Ok(TestSignalFreq::AtDc),
            0x01 => Ok(TestSignalFreq::SquareWave_1Hz),
            _ => Err(number),
        }
    }
}

impl From<TestSignalFreq> for bool {
    /// Whether the member is the one that sets its bit.
    fn from(v: TestSignalFreq) -> (flag: bool) {
        if v.bits() == 0x00 {
            false
        } else {
            true
        }
    }
}

impl vstd::std_specs::convert::FromSpecImpl<TestSignalFreq> for bool {
    open spec fn obeys_from_spec() -> bool {
        true
    }

    open spec fn from_spec(v: TestSignalFreq) -> bool {
        v.spec_bits() != 0x00
    }
}

/// Configuration register 2 (address 0x02)
///
/// Configures the test signal, clock, reference and LOFF buffer.
#[derive(Debug, Clone, Copy, PartialEq, Eq)]
pub struct Config2Reg(pub u8);

impl Config2Reg {
    /// Determines the test signal frequency.
    pub fn test_freq(&self) -> (value: bool)
        ensures
            value == bit_of(self.0 as int, 0),
    {
        bit(self.0, 0)
    }

    /// Sets bit 0, the field that [`Self::test_freq`] reads.
    pub fn set_test_freq(&mut self, value: bool)
        ensures
            final(self).0 == with_bit(old(self).0 as int, 0, value),
    {
        self.0 = set_bit(self.0, 0, value);
    }

    /// Determines whether the test signal is turned on or off.
    pub fn int_test(&self) -> (value: bool)
        ensures
            value == bit_of(self.0 as int, 1),
    {
        bit(self.0, 1)
    }

    /// Sets bit 1, the field that [`Self::int_test`] reads.
    pub fn set_int_test(&mut self, value: bool)
        ensures
            final(self).0 == with_bit(old(self).0 as int, 1, value),
    {
        self.0 = set_bit(self.0, 1, value);
    }

    /// Determines if the internal oscillator signal is connected to the CLK pin when an internal oscillator is used.
    pub fn clk_en(&self) -> (value: bool)
        ensures
            value == bit_of(self.0 as int, 3),
    {
        bit(self.0, 3)
    }

    /// Sets bit 3, the field that [`Self::clk_en`] reads.
    pub fn set_clk_en(&mut self, value: bool)
        ensures
            final(self).0 == with_bit(old(self).0 as int, 3, value),
    {
        self.0 = set_bit(self.0, 3, value);
    }

    /// Enable 4.033v reference, otherwise use the 2.42v reference.
    pub fn vref_4v(&self) -> (value: bool)
        ensures
            value == bit_of(self.0 as int, 4),
    {
        bit(self.0, 4)
    }

    /// Sets bit 4, the field that [`Self::vref_4v`] reads.
    pub fn set_vref_4v(&mut self, value: bool)
        ensures
            final(self).0 == with_bit(old(self).0 as int, 4, value),
    {
        self.0 = set_bit(self.0, 4, value);
    }

    /// Powers down the internal reference buffer so that the external reference can be used.
    pub fn pdb_refbuf(&self) -> (value: bool)
        ensures
            value == bit_of(self.0 as int, 5),
    {
        bit(self.0, 5)
    }

    /// Sets bit 5, the field that [`Self::pdb_refbuf`] reads.
    pub fn set_pdb_refbuf(&mut self, value: bool)
        ensures
            final(self).0 == with_bit(old(self).0 as int, 5, value),
    {
        self.0 = set_bit(self.0, 5, value);
    }

    /// Power down the lead-off comparators.
    pub fn pdb_loff_comp(&self) -> (value: bool)
        ensures
            value == bit_of(self.0 as int, 6),
    {
        bit(self.0, 6)
    }

    /// Sets bit 6, the field that [`Self::pdb_loff_comp`] reads.
    pub fn set_pdb_loff_comp(&mut self, value: bool)
        ensures
            final(self).0 == with_bit(old(self).0 as int, 6, value),
    {
        self.0 = set_bit(self.0, 6, value);
    }
}

impl From<MiscConfig> for Config2Reg {
    /// Packs the configuration into the register byte. Bit 7 is always set, as
    /// the data sheet asks; bit 2 stays clear.
    fn from(param: MiscConfig) -> (reg: Self) {
        let mut reg = Config2Reg(0x80);
        reg.set_test_freq(bool::from(param.test_signal_freq));
        reg.set_int_test(param.test_signal_enable);
        reg.set_clk_en(param.osc_clock_output);
        reg.set_vref_4v(param.vref_4V_enable);
        reg.set_pdb_refbuf(param.ref_buffer_enable);
        reg.set_pdb_loff_comp(param.leadoff_comparator_enable);
        reg
    }
}

impl vstd::std_specs::convert::FromSpecImpl<MiscConfig> for Config2Reg {
    open spec fn obeys_from_spec() -> bool {
        true
    }

    open spec fn from_spec(param: MiscConfig) -> Self {
        Config2Reg(
            (0x80
                + flag_value(0, param.test_signal_freq.spec_bits() != 0)
                + flag_value(1, param.test_signal_enable)
                + flag_value(3, param.osc_clock_output)
                + flag_value(4, param.vref_4V_enable)
                + flag_value(5, param.ref_buffer_enable)
                + flag_value(6, param.leadoff_comparator_enable)) as u8,
        )
    }
}

impl TryFrom<Config2Reg> for MiscConfig {
    type Error = u8;

    /// Interprets the register byte: every byte has a meaning.
    fn try_from(reg: Config2Reg) -> (param: Result<Self, u8>)
        ensures
            param is Ok,
    {
        let test_signal_freq = match TestSignalFreq::try_from(reg.test_freq() as u8) {
            Ok(member) => member,
            Err(_) => {
                return Err(reg.0);
            },
        };
        Ok(
            MiscConfig {
                test_signal_freq,
                test_signal_enable: reg.int_test(),
                osc_clock_output: reg.clk_en(),
                vref_4V_enable: reg.vref_4v(),
                ref_buffer_enable: reg.pdb_refbuf(),
                leadoff_comparator_enable: reg.pdb_loff_comp(),
            },
        )
    }
}

impl vstd::std_specs::convert::TryFromSpecImpl<Config2Reg> for MiscConfig {
    open spec fn obeys_try_from_spec() -> bool {
        true
    }

    open spec fn try_from_spec(reg: Config2Reg) -> Result<Self, u8> {
        let raw = reg.0 as int;
        match <TestSignalFreq as TryFromSpec<u8>>::try_from_spec(flag_number(bit_of(raw, 0))) {
            Ok(test_signal_freq) => Ok(
                MiscConfig {
                    test_signal_freq,
                    test_signal_enable: bit_of(raw, 1),
                    osc_clock_output: bit_of(raw, 3),
                    vref_4V_enable: bit_of(raw, 4),
                    ref_buffer_enable: bit_of(raw, 5),
                    leadoff_comparator_enable: bit_of(raw, 6),
                },
            ),
            Err(_) => Err(reg.0),
        }
    }
}

/// Packing a configuration and interpreting the byte gives the configuration
/// back.
pub proof fn lemma_misc_config_round_trip(param: MiscConfig)
    ensures
        MiscConfig::try_from_spec(Config2Reg::from_spec(param)) == Ok::<MiscConfig, u8>(param),
{
}

} // verus!
