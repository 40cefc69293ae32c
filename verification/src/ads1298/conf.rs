//! Configuration registers 1 to 4.

use crate::bits::{
    bit, bit_of, bit_range, bits_of, field_value, flag_number, flag_value, set_bit, set_bit_range,
    with_bit, with_bits,
};
use vstd::prelude::*;
use vstd::std_specs::convert::{FromSpec, TryFromSpec};

verus! {

/// Basic device configuration
#[derive(Debug, Clone, Copy, PartialEq, Eq)]
pub struct Config {
    /// Device mode
    pub mode: Mode,
    /// Oscillator clock output
    pub osc_clock_output: bool,
    /// Daisy chain or multiple readback mode
    pub daisy_chain: bool,
}

impl Default for Config {
    fn default() -> (value: Self)
        ensures
            value == (Config {
                mode: Mode::LowPower(SampleRateLP::Sps250),
                osc_clock_output: false,
                daisy_chain: true,
            }),
    {
        Config { mode: Mode::default(), osc_clock_output: false, daisy_chain: true }
    }
}

/// Device mode
#[derive(Debug, Clone, Copy, PartialEq, Eq)]
pub enum Mode {
    HighResolution(SampleRateHR),
    LowPower(SampleRateLP),
}

impl Mode {
    /// The field value of the sample rate, whichever mode it belongs to.
    pub open spec fn rate_bits(self) -> u8 {
        match self {
            Mode::HighResolution(data_rate) => data_rate.spec_bits(),
            Mode::LowPower(data_rate) => data_rate.spec_bits(),
        }
    }
}

impl Default for Mode {
    fn default() -> (value: Self)
        ensures
            value == Mode::LowPower(SampleRateLP::Sps250),
    {
        Mode::LowPower(SampleRateLP::Sps250)
    }
}

/// Sample rate in high-resolution mode
#[derive(Debug, Clone, Copy, PartialEq, Eq, Structural)]
pub enum SampleRateHR {
    KSps32,
    KSps16,
    Sps8k,
    Sps4k,
    Sps2k,
    Sps1k,
    Sps500,
}

impl SampleRateHR {
    /// The field value that selects this member.
    pub open spec fn spec_bits(self) -> u8 {
        match self {
            SampleRateHR::KSps32 => 0b000,
            SampleRateHR::KSps16 => 0b001,
            SampleRateHR::Sps8k => 0b010,
            SampleRateHR::Sps4k => 0b011,
            SampleRateHR::Sps2k => 0b100,
            SampleRateHR::Sps1k => 0b101,
            SampleRateHR::Sps500 => 0b110,
        }
    }

    /// The field value that selects this member.
    #[verifier::when_used_as_spec(spec_bits)]
    pub fn bits(self) -> (raw: u8)
        ensures
            raw == self.spec_bits(),
            SampleRateHR::try_from_spec(raw) == Ok::<SampleRateHR, u8>(self),
    {
        match self {
            SampleRateHR::KSps32 => 0b000,
            SampleRateHR::KSps16 => 0b001,
            SampleRateHR::Sps8k => 0b010,
            SampleRateHR::Sps4k => 0b011,
            SampleRateHR::Sps2k => 0b100,
            SampleRateHR::Sps1k => 0b101,
            SampleRateHR::Sps500 => 0b110,
        }
    }
}

impl TryFrom<u8> for SampleRateHR {
    type Error = u8;

    /// The member that a field value selects; a value that selects none
    /// comes back as the error.
    fn try_from(number: u8) -> (member: Result<Self, u8>) {
        match number {
            0b000 => Ok(SampleRateHR::KSps32),
            0b001 => Ok(SampleRateHR::KSps16),
            0b010 => Ok(SampleRateHR::Sps8k),
            0b011 => Ok(SampleRateHR::Sps4k),
            0b100 => Ok(SampleRateHR::Sps2k),
            0b101 => Ok(SampleRateHR::Sps1k),
            0b110 => Ok(SampleRateHR::Sps500),
            _ => Err(number),
        }
    }
}

impl vstd::std_specs::convert::TryFromSpecImpl<u8> for SampleRateHR {
    open spec fn obeys_try_from_spec() -> bool {
        true
    }

    open spec fn try_from_spec(number: u8) -> Result<Self, u8> {
        match number {
            0b000 => Ok(SampleRateHR::KSps32),
            0b001 => Ok(SampleRateHR::KSps16),
            0b010 => Ok(SampleRateHR::Sps8k),
            0b011 => Ok(SampleRateHR::Sps4k),
            0b100 => Ok(SampleRateHR::Sps2k),
            0b101 => Ok(SampleRateHR::Sps1k),
            0b110 => Ok(SampleRateHR::Sps500),
            _ => Err(number),
        }
    }
}

/// Sample rate in low power mode
#[derive(Debug, Clone, Copy, PartialEq, Eq, Structural)]
pub enum SampleRateLP {
    KSps16,
    KSps8,
    KSps4,
    KSps2,
    KSps1,
    Sps500,
    Sps250,
}

impl SampleRateLP {
    /// The field value that selects this member.
    pub open spec fn spec_bits(self) -> u8 {
        match self {
            SampleRateLP::KSps16 => 0b000,
            SampleRateLP::KSps8 => 0b001,
            SampleRateLP::KSps4 => 0b010,
            SampleRateLP::KSps2 => 0b011,
            SampleRateLP::KSps1 => 0b100,
            SampleRateLP::Sps500 => 0b101,
            SampleRateLP::Sps250 => 0b110,
        }
    }

    /// The field value that selects this member.
    #[verifier::when_used_as_spec(spec_bits)]
    pub fn bits(self) -> (raw: u8)
        ensures
            raw == self.spec_bits(),
            SampleRateLP::try_from_spec(raw) == Ok::<SampleRateLP, u8>(self),
    {
        match self {
            SampleRateLP::KSps16 => 0b000,
            SampleRateLP::KSps8 => 0b001,
            SampleRateLP::KSps4 => 0b010,
            SampleRateLP::KSps2 => 0b011,
            SampleRateLP::KSps1 => 0b100,
            SampleRateLP::Sps500 => 0b101,
            SampleRateLP::Sps250 => 0b110,
        }
    }
}

impl TryFrom<u8> for SampleRateLP {
    type Error = u8;

    /// The member that a field value selects; a value that selects none
    /// comes back as the error.
    fn try_from(number: u8) -> (member: Result<Self, u8>) {
        match number {
            0b000 => Ok(SampleRateLP::KSps16),
            0b001 => Ok(SampleRateLP::KSps8),
            0b010 => Ok(SampleRateLP::KSps4),
            0b011 => Ok(SampleRateLP::KSps2),
            0b100 => Ok(SampleRateLP::KSps1),
            0b101 => Ok(SampleRateLP::Sps500),
            0b110 => Ok(SampleRateLP::Sps250),
            _ => Err(number),
        }
    }
}

impl vstd::std_specs::convert::TryFromSpecImpl<u8> for SampleRateLP {
    open spec fn obeys_try_from_spec() -> bool {
        true
    }

    open spec fn try_from_spec(number: u8) -> Result<Self, u8> {
        match number {
            0b000 => Ok(SampleRateLP::KSps16),
            0b001 => Ok(SampleRateLP::KSps8),
            0b010 => Ok(SampleRateLP::KSps4),
            0b011 => Ok(SampleRateLP::KSps2),
            0b100 => Ok(SampleRateLP::KSps1),
            0b101 => Ok(SampleRateLP::Sps500),
            0b110 => Ok(SampleRateLP::Sps250),
            _ => Err(number),
        }
    }
}

/// Configuration Register 1 (address 0x01)
#[derive(Debug, Clone, Copy, PartialEq, Eq)]
pub struct Config1Reg(pub u8);

impl Config1Reg {
    /// Output data rate
    pub fn output_date_rate(&self) -> (value: u8)
        ensures
            value == bits_of(self.0 as int, 2, 0),
    {
        bit_range(self.0, 2, 0)
    }

    /// Sets bits 2..=0, the field that [`Self::output_date_rate`] reads.
    pub fn set_output_date_rate(&mut self, value: u8)
        ensures
            final(self).0 == with_bits(old(self).0 as int, 2, 0, value as int),
    {
        self.0 = set_bit_range(self.0, 2, 0, value);
    }

    /// `CLK` connection
    ///
    /// This bit determines if the internal oscillator signal is connected to the `CLK` pin when
    /// the `CLKSEL` pin = 1
    ///
    ///   - 0 = Oscillator clock output disabled
    ///   - 1 = Oscillator clock output enabled
    pub fn clock_enable(&self) -> (value: bool)
        ensures
            value == bit_of(self.0 as int, 5),
    {
        bit(self.0, 5)
    }

    /// Sets bit 5, the field that [`Self::clock_enable`] reads.
    pub fn set_clock_enable(&mut self, value: bool)
        ensures
            final(self).0 == with_bit(old(self).0 as int, 5, value),
    {
        self.0 = set_bit(self.0, 5, value);
    }

    /// Daisy-chain or multiple readback mode
    ///
    /// This bit determines which mode is enabled.
    ///
    ///   - 0 = Daisy-chain mode
    ///   - 1 = Multiple readback mode
    pub fn daisy_disable(&self) -> (value: bool)
        ensures
            value == bit_of(self.0 as int, 6),
    {
        bit(self.0, 6)
    }

    /// Sets bit 6, the field that [`Self::daisy_disable`] reads.
    pub fn set_daisy_disable(&mut self, value: bool)
        ensures
            final(self).0 == with_bit(old(self).0 as int, 6, value),
    {
        self.0 = set_bit(self.0, 6, value);
    }

    /// High-resolution or low-power mode
    ///
    /// This bit determines whether the device runs in low-power or high-resolution mode.
    ///
    ///   - 0 = LP mode
    ///   - 1 = HR mode
    pub fn high_resolution(&self) -> (value: bool)
        ensures
            value == bit_of(self.0 as int, 7),
    {
        bit(self.0, 7)
    }

    /// Sets bit 7, the field that [`Self::high_resolution`] reads.
    pub fn set_high_resolution(&mut self, value: bool)
        ensures
            final(self).0 == with_bit(old(self).0 as int, 7, value),
    {
        self.0 = set_bit(self.0, 7, value);
    }
}

impl From<Config> for Config1Reg {
    /// Packs a configuration into the register byte. Bits 3 and 4 stay
    /// clear.
    fn from(config: Config) -> (reg: Self) {
        let (high_resolution, output_date_rate) = match config.mode {
            Mode::HighResolution(data_rate) => (true, data_rate.bits()),
            Mode::LowPower(data_rate) => (false, data_rate.bits()),
        };

        let mut reg = Config1Reg(0);
        reg.set_output_date_rate(output_date_rate);
        reg.set_clock_enable(config.osc_clock_output);
        reg.set_daisy_disable(!config.daisy_chain);
        reg.set_high_resolution(high_resolution);
        reg
    }
}

impl vstd::std_specs::convert::FromSpecImpl<Config> for Config1Reg {
    open spec fn obeys_from_spec() -> bool {
        true
    }

    open spec fn from_spec(config: Config) -> Self {
        Config1Reg(
            (field_value(0, config.mode.rate_bits() as int) + flag_value(
                5,
                config.osc_clock_output,
            ) + flag_value(6, !config.daisy_chain) + flag_value(
                7,
                config.mode is HighResolution,
            )) as u8,
        )
    }
}

impl TryFrom<Config1Reg> for Config {
    type Error = u8;

    /// Interprets the register byte. The rate field is read in the mode that
    /// bit 7 selects; a rate that the mode does not have makes the byte
    /// uninterpretable, and the byte is the error.
    fn try_from(reg: Config1Reg) -> (config: Result<Self, u8>)
        ensures
            config is Err ==> config == Err::<Config, u8>(reg.0),
            config is Err <==> bits_of(reg.0 as int, 2, 0) == 0b111,
    {
        let mode = if reg.high_resolution() {
            match SampleRateHR::try_from(reg.output_date_rate()) {
                Ok(data_rate) => Mode::HighResolution(data_rate),
                Err(_) => {
                    return Err(reg.0);
                },
            }
        } else {
            match SampleRateLP::try_from(reg.output_date_rate()) {
                Ok(data_rate) => Mode::LowPower(data_rate),
                Err(_) => {
                    return Err(reg.0);
                },
            }
        };
        Ok(Config { mode, osc_clock_output: reg.clock_enable(), daisy_chain: !reg.daisy_disable() })
    }
}

impl vstd::std_specs::convert::TryFromSpecImpl<Config1Reg> for Config {
    open spec fn obeys_try_from_spec() -> bool {
        true
    }

    open spec fn try_from_spec(reg: Config1Reg) -> Result<Self, u8> {
        let raw = reg.0 as int;
        let rate = bits_of(raw, 2, 0) as u8;
        let osc_clock_output = bit_of(raw, 5);
        let daisy_chain = !bit_of(raw, 6);
        if bit_of(raw, 7) {
            match <SampleRateHR as TryFromSpec<u8>>::try_from_spec(rate) {
                Ok(data_rate) => Ok(
                    Config { mode: Mode::HighResolution(data_rate), osc_clock_output, daisy_chain },
                ),
                Err(_) => Err(reg.0),
            }
        } else {
            match <SampleRateLP as TryFromSpec<u8>>::try_from_spec(rate) {
                Ok(data_rate) => Ok(
                    Config { mode: Mode::LowPower(data_rate), osc_clock_output, daisy_chain },
                ),
                Err(_) => Err(reg.0),
            }
        }
    }
}

/// Packing a configuration and interpreting the byte gives the configuration
/// back.
pub proof fn lemma_config_round_trip(config: Config)
    ensures
        Config::try_from_spec(Config1Reg::from_spec(config)) == Ok::<Config, u8>(config),
{
}

/// Test signal configuration
#[derive(Debug, Clone, Copy, PartialEq, Eq)]
pub struct TestSignalConfig {
    /// Test signal frequency
    pub frequency: TestSignalFreq,
    /// Test signal amplitude
    pub amplitude: TestSignalAmp,
    /// Test signal source
    pub source: TestSignalSource,
    /// WCT chopping scheme
    pub wct_chop: WctChoppingFreq,
}

impl Default for TestSignalConfig {
    fn default() -> (value: Self)
        ensures
            value == (TestSignalConfig {
                frequency: TestSignalFreq::PulsedAtFclk_div_2_21,
                amplitude: TestSignalAmp::Mode_x1,
                source: TestSignalSource::External,
                wct_chop: WctChoppingFreq::Variable,
            }),
    {
        TestSignalConfig {
            frequency: TestSignalFreq::PulsedAtFclk_div_2_21,
            amplitude: TestSignalAmp::Mode_x1,
            source: TestSignalSource::External,
            wct_chop: WctChoppingFreq::Variable,
        }
    }
}

/// Test signal frequency settings
#[allow(non_camel_case_types)]
#[derive(Debug, Clone, Copy, PartialEq, Eq, Structural)]
pub enum TestSignalFreq {
    /// Pulsed at `fCLK` / 2**21
    PulsedAtFclk_div_2_21,
    /// Pulsed at `fCLK` / 2**20
    PulsedAtFclk_div_2_20,
    /// Not used
    NotUsed,
    /// At dc
    AtDC,
}

impl TestSignalFreq {
    /// The field value that selects this member.
    pub open spec fn spec_bits(self) -> u8 {
        match self {
            TestSignalFreq::PulsedAtFclk_div_2_21 => 0b00,
            TestSignalFreq::PulsedAtFclk_div_2_20 => 0b01,
            TestSignalFreq::NotUsed => 0b10,
            TestSignalFreq::AtDC => 0b11,
        }
    }

    /// The field value that selects this member.
    #[verifier::when_used_as_spec(spec_bits)]
    pub fn bits(self) -> (raw: u8)
        ensures
            raw == self.spec_bits(),
            TestSignalFreq::try_from_spec(raw) == Ok::<TestSignalFreq, u8>(self),
    {
        match self {
            TestSignalFreq::PulsedAtFclk_div_2_21 => 0b00,
            TestSignalFreq::PulsedAtFclk_div_2_20 => 0b01,
            TestSignalFreq::NotUsed => 0b10,
            TestSignalFreq::AtDC => 0b11,
        }
    }
}

impl TryFrom<u8> for TestSignalFreq {
    type Error = u8;

    /// The member that a field value selects; a value that selects none
    /// comes back as the error.
    fn try_from(number: u8) -> (member: Result<Self, u8>) {
        match number {
            0b00 => Ok(TestSignalFreq::PulsedAtFclk_div_2_21),
            0b01 => Ok(TestSignalFreq::PulsedAtFclk_div_2_20),
            0b10 => Ok(TestSignalFreq::NotUsed),
            0b11 => Ok(TestSignalFreq::AtDC),
            _ => Err(number),
        }
    }
}

impl vstd::std_specs::convert::TryFromSpecImpl<u8> for TestSignalFreq {
    open spec fn obeys_try_from_spec() -> bool {
        true
    }

    open spec fn try_from_spec(number: u8) -> Result<Self, u8> {
        match number {
            0b00 => Ok(TestSignalFreq::PulsedAtFclk_div_2_21),
            0b01 => Ok(TestSignalFreq::PulsedAtFclk_div_2_20),
            0b10 => Ok(TestSignalFreq::NotUsed),
            0b11 => Ok(TestSignalFreq::AtDC),
            _ => Err(number),
        }
    }
}

/// Test signal amplitude settings
#[allow(non_camel_case_types)]
#[derive(Debug, Clone, Copy, PartialEq, Eq, Structural)]
pub enum TestSignalAmp {
    /// 1 x -(`VREFP`- `VREFN`)/ 2400V
    Mode_x1,
    /// 2 x -(`VREFP`- `VREFN`)/ 2400V
    Mode_x2,
}

impl TestSignalAmp {
    /// The field value that selects this member.
    pub open spec fn spec_bits(self) -> u8 {
        match self {
            TestSignalAmp::Mode_x1 => 0b0,
            TestSignalAmp::Mode_x2 => 0b1,
        }
    }

    /// The field value that selects this member.
    #[verifier::when_used_as_spec(spec_bits)]
    pub fn bits(self) -> (raw: u8)
        ensures
            raw == self.spec_bits(),
            TestSignalAmp::try_from_spec(raw) == Ok::<TestSignalAmp, u8>(self),
    {
        match self {
            TestSignalAmp::Mode_x1 => 0b0,
            TestSignalAmp::Mode_x2 => 0b1,
        }
    }
}

impl TryFrom<u8> for TestSignalAmp {
    type Error = u8;

    /// The member that a field value selects; a value that selects none
    /// comes back as the error.
    fn try_from(number: u8) -> (member: Result<Self, u8>) {
        match number {
            0b0 => Ok(TestSignalAmp::Mode_x1),
            0b1 => Ok(TestSignalAmp::Mode_x2),
            _ => Err(number),
        }
    }
}

impl vstd::std_specs::convert::TryFromSpecImpl<u8> for TestSignalAmp {
    open spec fn obeys_try_from_spec() -> bool {
        true
    }

    open spec fn try_from_spec(number: u8) -> Result<Self, u8> {
        match number {
            0b0 => Ok(TestSignalAmp::Mode_x1),
            0b1 => Ok(TestSignalAmp::Mode_x2),
            _ => Err(number),
        }
    }
}

impl From<TestSignalAmp> for bool {
    /// Whether the member is the one that sets its bit.
    fn from(v: TestSignalAmp) -> (flag: bool) {
        if v.bits() == 0x00 {
            false
        } else {
            true
        }
    }
}

impl vstd::std_specs::convert::FromSpecImpl<TestSignalAmp> for bool {
    open spec fn obeys_from_spec() -> bool {
        true
    }

    open spec fn from_spec(v: TestSignalAmp) -> bool {
        v.spec_bits() != 0x00
    }
}

/// Test signal source
#[derive(Debug, Clone, Copy, PartialEq, Eq, Structural)]
pub enum TestSignalSource {
    /// Test signals are driven externally
    External,
    /// Test signals are driven internally
    Internal,
}

impl TestSignalSource {
    /// The field value that selects this member.
    pub open spec fn spec_bits(self) -> u8 {
        match self {
            TestSignalSource::External => 0b0,
            TestSignalSource::Internal => 0b1,
        }
    }

    /// The field value that selects this member.
    #[verifier::when_used_as_spec(spec_bits)]
    pub fn bits(self) -> (raw: u8)
        ensures
            raw == self.spec_bits(),
            TestSignalSource::try_from_spec(raw) == Ok::<TestSignalSource, u8>(self),
    {
        match self {
            TestSignalSource::External => 0b0,
            TestSignalSource::Internal => 0b1,
        }
    }
}

impl TryFrom<u8> for TestSignalSource {
    type Error = u8;

    /// The member that a field value selects; a value that selects none
    /// comes back as the error.
    fn try_from(number: u8) -> (member: Result<Self, u8>) {
        match number {
            0b0 => Ok(TestSignalSource::External),
            0b1 => Ok(TestSignalSource::Internal),
            _ => Err(number),
        }
    }
}

impl vstd::std_specs::convert::TryFromSpecImpl<u8> for TestSignalSource {
    open spec fn obeys_try_from_spec() -> bool {
        true
    }

    open spec fn try_from_spec(number: u8) -> Result<Self, u8> {
        match number {
            0b0 => Ok(TestSignalSource::External),
            0b1 => Ok(TestSignalSource::Internal),
            _ => Err(number),
        }
    }
}

impl From<TestSignalSource> for bool {
    /// Whether the member is the one that sets its bit.
    fn from(v: TestSignalSource) -> (flag: bool) {
        if v.bits() == 0x00 {
            false
        } else {
            true
        }
    }
}

impl vstd::std_specs::convert::FromSpecImpl<TestSignalSource> for bool {
    open spec fn obeys_from_spec() -> bool {
        true
    }

    open spec fn from_spec(v: TestSignalSource) -> bool {
        v.spec_bits() != 0x00
    }
}

/// WCT chopping scheme
#[derive(Debug, Clone, Copy, PartialEq, Eq, Structural)]
pub enum WctChoppingFreq {
    /// Chopping frequency varies, see datasheet.
    Variable,
    /// Chopping frequency constant at `fMOD`/ 16
    Const,
}

impl WctChoppingFreq {
    /// The field value that selects this member.
    pub open spec fn spec_bits(self) -> u8 {
        match self {
            WctChoppingFreq::Variable => 0b0,
            WctChoppingFreq::Const => 0b1,
        }
    }

    /// The field value that selects this member.
    #[verifier::when_used_as_spec(spec_bits)]
    pub fn bits(self) -> (raw: u8)
        ensures
            raw == self.spec_bits(),
            WctChoppingFreq::try_from_spec(raw) == Ok::<WctChoppingFreq, u8>(self),
    {
        match self {
            WctChoppingFreq::Variable => 0b0,
            WctChoppingFreq::Const => 0b1,
        }
    }
}

impl TryFrom<u8> for WctChoppingFreq {
    type Error = u8;

    /// The member that a field value selects; a value that selects none
    /// comes back as the error.
    fn try_from(number: u8) -> (member: Result<Self, u8>) {
        match number {
            0b0 => Ok(WctChoppingFreq::Variable),
            0b1 => Ok(WctChoppingFreq::Const),
            _ => Err(number),
        }
    }
}

impl vstd::std_specs::convert::TryFromSpecImpl<u8> for WctChoppingFreq {
    open spec fn obeys_try_from_spec() -> bool {
        true
    }

    open spec fn try_from_spec(number: u8) -> Result<Self, u8> {
        match number {
            0b0 => Ok(WctChoppingFreq::Variable),
            0b1 => Ok(WctChoppingFreq::Const),
            _ => Err(number),
        }
    }
}

impl From<WctChoppingFreq> for bool {
    /// Whether the member is the one that sets its bit.
    fn from(v: WctChoppingFreq) -> (flag: bool) {
        if v.bits() == 0x00 {
            false
        } else {
            true
        }
    }
}

impl vstd::std_specs::convert::FromSpecImpl<WctChoppingFreq> for bool {
    open spec fn obeys_from_spec() -> bool {
        true
    }

    open spec fn from_spec(v: WctChoppingFreq) -> bool {
        v.spec_bits() != 0x00
    }
}

/// Configuration register 2 (address 0x02)
///
/// Configures the test signal generation
#[derive(Debug, Clone, Copy, PartialEq, Eq)]
pub struct Config2Reg(pub u8);

impl Config2Reg {
    /// Test signal frequency
    ///
    /// These bits determine the calibration signal frequency.
    ///   - 00 = Pulsed at `fCLK` / 2**21
    ///   - 01 = Pulsed at `fCLK` / 2**20
    ///   - 10 = Not used
    ///   - 11 = At dc
    pub fn test_freq(&self) -> (value: u8)
        ensures
            value == bits_of(self.0 as int, 1, 0),
    {
        bit_range(self.0, 1, 0)
    }

    /// Sets bits 1..=0, the field that [`Self::test_freq`] reads.
    pub fn set_test_freq(&mut self, value: u8)
        ensures
            final(self).0 == with_bits(old(self).0 as int, 1, 0, value as int),
    {
        self.0 = set_bit_range(self.0, 1, 0, value);
    }

    /// Test signal amplitude
    ///
    /// These bits determine the calibration signal amplitude
    ///
    ///   - 0 = 1 x -(`VREFP`- `VREFN`)/ 2400V
    ///   - 1 = 2 x -(`VREFP`- `VREFN`)/ 2400V
    pub fn test_amp(&self) -> (value: bool)
        ensures
            value == bit_of(self.0 as int, 2),
    {
        bit(self.0, 2)
    }

    /// Sets bit 2, the field that [`Self::test_amp`] reads.
    pub fn set_test_amp(&mut self, value: bool)
        ensures
            final(self).0 == with_bit(old(self).0 as int, 2, value),
    {
        self.0 = set_bit(self.0, 2, value);
    }

    /// TEST source
    ///
    /// This bit determines the source for the test signal.
    ///
    ///   - 0 = Test signals are driven externally
    ///   - 1 = Test signals are generated internally
    pub fn int_test(&self) -> (value: bool)
        ensures
            value == bit_of(self.0 as int, 4),
    {
        bit(self.0, 4)
    }

    /// Sets bit 4, the field that [`Self::int_test`] reads.
    pub fn set_int_test(&mut self, value: bool)
        ensures
            final(self).0 == with_bit(old(self).0 as int, 4, value),
    {
        self.0 = set_bit(self.0, 4, value);
    }

    /// WCT chopping scheme
    ///
    /// This bit determines whether the chopping frequency of WCT amplifiers is variable or
    /// fixed
    ///
    ///   - 0 = Chopping frequency varies, see datasheet.
    ///   - 1 = Chopping frequency constant at `fMOD`/ 16
    pub fn wct_chop(&self) -> (value: bool)
        ensures
            value == bit_of(self.0 as int, 5),
    {
        bit(self.0, 5)
    }

    /// Sets bit 5, the field that [`Self::wct_chop`] reads.
    pub fn set_wct_chop(&mut self, value: bool)
        ensures
            final(self).0 == with_bit(old(self).0 as int, 5, value),
    {
        self.0 = set_bit(self.0, 5, value);
    }
}

impl From<TestSignalConfig> for Config2Reg {
    /// Packs a test signal configuration into the register byte. Bits 3, 6
    /// and 7 stay clear.
    fn from(config: TestSignalConfig) -> (reg: Self) {
        let mut reg = Config2Reg(0);
        reg.set_test_freq(config.frequency.bits());
        reg.set_test_amp(bool::from(config.amplitude));
        reg.set_int_test(bool::from(config.source));
        reg.set_wct_chop(bool::from(config.wct_chop));
        reg
    }
}

impl vstd::std_specs::convert::FromSpecImpl<TestSignalConfig> for Config2Reg {
    open spec fn obeys_from_spec() -> bool {
        true
    }

    open spec fn from_spec(config: TestSignalConfig) -> Self {
        Config2Reg(
            (field_value(0, config.frequency.spec_bits() as int)
                + flag_value(2, config.amplitude.spec_bits() != 0)
                + flag_value(4, config.source.spec_bits() != 0)
                + flag_value(5, config.wct_chop.spec_bits() != 0)) as u8,
        )
    }
}

impl TryFrom<Config2Reg> for TestSignalConfig {
    type Error = u8;

    /// Interprets the register byte. Every field has a member for each of its
    /// values, so every byte has a meaning.
    fn try_from(reg: Config2Reg) -> (config: Result<Self, u8>)
        ensures
            config is Ok,
    {
        let frequency = match TestSignalFreq::try_from(reg.test_freq()) {
            Ok(member) => member,
            Err(_) => {
                return Err(reg.0);
            },
        };
        let amplitude = match TestSignalAmp::try_from(reg.test_amp() as u8) {
            Ok(member) => member,
            Err(_) => {
                return Err(reg.0);
            },
        };
        let source = match TestSignalSource::try_from(reg.int_test() as u8) {
            Ok(member) => member,
            Err(_) => {
                return Err(reg.0);
            },
        };
        let wct_chop = match WctChoppingFreq::try_from(reg.wct_chop() as u8) {
            Ok(member) => member,
            Err(_) => {
                return Err(reg.0);
            },
        };
        Ok(
            TestSignalConfig {
                frequency,
                amplitude,
                source,
                wct_chop,
            },
        )
    }
}

impl vstd::std_specs::convert::TryFromSpecImpl<Config2Reg> for TestSignalConfig {
    open spec fn obeys_try_from_spec() -> bool {
        true
    }

    open spec fn try_from_spec(reg: Config2Reg) -> Result<Self, u8> {
        let raw = reg.0 as int;
        match (
            <TestSignalFreq as TryFromSpec<u8>>::try_from_spec(bits_of(raw, 1, 0) as u8),
            <TestSignalAmp as TryFromSpec<u8>>::try_from_spec(flag_number(bit_of(raw, 2))),
            <TestSignalSource as TryFromSpec<u8>>::try_from_spec(flag_number(bit_of(raw, 4))),
            <WctChoppingFreq as TryFromSpec<u8>>::try_from_spec(flag_number(bit_of(raw, 5))),
        ) {
            (Ok(frequency), Ok(amplitude), Ok(source), Ok(wct_chop)) => Ok(
                TestSignalConfig {
                    frequency,
                    amplitude,
                    source,
                    wct_chop,
                },
            ),
            _ => Err(reg.0),
        }
    }
}

/// Packing a test signal configuration and interpreting the byte gives the
/// configuration back.
pub proof fn lemma_test_signal_config_round_trip(config: TestSignalConfig)
    ensures
        TestSignalConfig::try_from_spec(Config2Reg::from_spec(config)) == Ok::<TestSignalConfig, u8>(config),
{
}

/// Configures multireference and RLD operation
#[allow(non_snake_case)]
#[derive(Debug, Clone, Copy, PartialEq, Eq)]
pub struct RldConfig {
    /// RLD lead-off status
    ///
    ///   - false = connected
    ///   - true = not connected
    ///
    /// The device reports it; what is written to it is ignored.
    pub leadoff_status: bool,
    /// RLD sense function enable
    pub leadoff_sense_enable: bool,
    /// RLD buffer power enable
    pub buffer_power_enable: bool,
    /// `RLDREF` signal source
    pub ref_source: RldRefSource,
    /// RLD measurement
    ///   - 0 = Open
    ///   - 1 = `RLD_IN` signal is routed to the channel that has the MUX_Setting 010 (VREF)
    pub measurement_enable: bool,
    /// Reference voltage 4V enable
    pub vref_4V_enable: bool,
    /// Power-down reference buffer enable
    pub ref_buffer_enable: bool,
}

impl Default for RldConfig {
    fn default() -> (value: Self)
        ensures
            value == (RldConfig {
                leadoff_status: false,
                leadoff_sense_enable: false,
                buffer_power_enable: false,
                ref_source: RldRefSource::External,
                measurement_enable: false,
                vref_4V_enable: false,
                ref_buffer_enable: false,
            }),
    {
        RldConfig {
            leadoff_status: false,
            leadoff_sense_enable: false,
            buffer_power_enable: false,
            ref_source: RldRefSource::External,
            measurement_enable: false,
            vref_4V_enable: false,
            ref_buffer_enable: false,
        }
    }
}

/// Determines the `RLDREF` signal source
#[derive(Debug, Clone, Copy, PartialEq, Eq, Structural)]
pub enum RldRefSource {
    /// `RLDREF` signal fed externally
    External,
    /// `RLDREF` signal (`AVDD`- `AVSS`)/ 2 generated internally
    Interanl,
}

impl RldRefSource {
    /// The field value that selects this member.
    pub open spec fn spec_bits(self) -> u8 {
        match self {
            RldRefSource::External => 0b0,
            RldRefSource::Interanl => 0b1,
        }
    }

    /// The field value that selects this member.
    #[verifier::when_used_as_spec(spec_bits)]
    pub fn bits(self) -> (raw: u8)
        ensures
            raw == self.spec_bits(),
            RldRefSource::try_from_spec(raw) == Ok::<RldRefSource, u8>(self),
    {
        match self {
            RldRefSource::External => 0b0,
            RldRefSource::Interanl => 0b1,
        }
    }
}

impl TryFrom<u8> for RldRefSource {
    type Error = u8;

    /// The member that a field value selects; a value that selects none
    /// comes back as the error.
    fn try_from(number: u8) -> (member: Result<Self, u8>) {
        match number {
            0b0 => Ok(RldRefSource::External),
            0b1 => Ok(RldRefSource::Interanl),
            _ => Err(number),
        }
    }
}

impl vstd::std_specs::convert::TryFromSpecImpl<u8> for RldRefSource {
    open spec fn obeys_try_from_spec() -> bool {
        true
    }

    open spec fn try_from_spec(number: u8) -> Result<Self, u8> {
        match number {
            0b0 => Ok(RldRefSource::External),
            0b1 => Ok(RldRefSource::Interanl),
            _ => Err(number),
        }
    }
}

impl From<RldRefSource> for bool {
    /// Whether the member is the one that sets its bit.
    fn from(v: RldRefSource) -> (flag: bool) {
        if v.bits() == 0x00 {
            false
        } else {
            true
        }
    }
}

impl vstd::std_specs::convert::FromSpecImpl<RldRefSource> for bool {
    open spec fn obeys_from_spec() -> bool {
        true
    }

    open spec fn from_spec(v: RldRefSource) -> bool {
        v.spec_bits() != 0x00
    }
}

impl Default for RldRefSource {
    fn default() -> (value: Self)
        ensures
            value == RldRefSource::External,
    {
        RldRefSource::External
    }
}

/// Configuration register 3 (address 0x03)
///
/// Configures multireference and RLD operation
#[derive(Debug, Clone, Copy, PartialEq, Eq)]
pub struct Config3Reg(pub u8);

impl Config3Reg {
    /// RLD lead-off status
    ///
    /// This bit determines the RLD status.
    ///
    /// **Readonly**
    ///
    ///   - 0 = RLD is connected
    ///   - 1 = RLD is not connected
    pub fn rld_stat(&self) -> (value: bool)
        ensures
            value == bit_of(self.0 as int, 0),
    {
        bit(self.0, 0)
    }

    /// RLD sense function
    ///
    /// This bit enables the RLD sense function.
    ///
    ///   - 0 = RLD sense is disabled
    ///   - 1 = RLD sense is enabled
    pub fn rld_loff_sens(&self) -> (value: bool)
        ensures
            value == bit_of(self.0 as int, 1),
    {
        bit(self.0, 1)
    }

    /// Sets bit 1, the field that [`Self::rld_loff_sens`] reads.
    pub fn set_rld_loff_sens(&mut self, value: bool)
        ensures
            final(self).0 == with_bit(old(self).0 as int, 1, value),
    {
        self.0 = set_bit(self.0, 1, value);
    }

    /// RLD buffer power
    ///
    /// This bit determines the RLD buffer power state
    ///
    ///   - 0 = RLD buffer is powered down
    ///   - 1 = RLD buffer is enabled
    pub fn pd_rld(&self) -> (value: bool)
        ensures
            value == bit_of(self.0 as int, 2),
    {
        bit(self.0, 2)
    }

    /// Sets bit 2, the field that [`Self::pd_rld`] reads.
    pub fn set_pd_rld(&mut self, value: bool)
        ensures
            final(self).0 == with_bit(old(self).0 as int, 2, value),
    {
        self.0 = set_bit(self.0, 2, value);
    }

    /// `RLDREF` signal
    ///
    /// This bit determines the `RLDREF` signal source
    ///
    ///   - 0 = `RLDREF` signal fed externally
    ///   - 1 = `RLDREF` signal (`AVDD`- `AVSS`)/ 2 generated internally
    pub fn rldref_int(&self) -> (value: bool)
        ensures
            value == bit_of(self.0 as int, 3),
    {
        bit(self.0, 3)
    }

    /// Sets bit 3, the field that [`Self::rldref_int`] reads.
    pub fn set_rldref_int(&mut self, value: bool)
        ensures
            final(self).0 == with_bit(old(self).0 as int, 3, value),
    {
        self.0 = set_bit(self.0, 3, value);
    }

    /// RLD measurement
    ///
    /// This bit enables RLD measurement
    ///   - 0 = Open
    ///   - 1 = `RLD_IN` signal is routed to the channel that has the MUX_Setting 010 (VREF)
    pub fn rld_meas(&self) -> (value: bool)
        ensures
            value == bit_of(self.0 as int, 4),
    {
        bit(self.0, 4)
    }

    /// Sets bit 4, the field that [`Self::rld_meas`] reads.
    pub fn set_rld_meas(&mut self, value: bool)
        ensures
            final(self).0 == with_bit(old(self).0 as int, 4, value),
    {
        self.0 = set_bit(self.0, 4, value);
    }

    /// Reference voltage
    ///
    /// This bit determines the reference voltage, `VREFP`
    ///
    ///   - 0 = `VREFP` is set to 2.4 V
    ///   - 1 = `VREFP` is set to 4 V (use only with a 5-V analog supply)
    pub fn vref_4v(&self) -> (value: bool)
        ensures
            value == bit_of(self.0 as int, 5),
    {
        bit(self.0, 5)
    }

    /// Sets bit 5, the field that [`Self::vref_4v`] reads.
    pub fn set_vref_4v(&mut self, value: bool)
        ensures
            final(self).0 == with_bit(old(self).0 as int, 5, value),
    {
        self.0 = set_bit(self.0, 5, value);
    }

    /// Reserved
    ///
    /// Always 0x1
    fn set_reserved(&mut self, value: bool)
        ensures
            final(self).0 == with_bit(old(self).0 as int, 6, value),
    {
        self.0 = set_bit(self.0, 6, value);
    }

    /// Power-down reference buffer
    ///
    /// This bit determines the power-down reference buffer state
    ///
    ///   - 0 = Power-down internal reference buffer
    ///   - 1 = Enable internal reference buffer
    pub fn pd_refbuf(&self) -> (value: bool)
        ensures
            value == bit_of(self.0 as int, 7),
    {
        bit(self.0, 7)
    }

    /// Sets bit 7, the field that [`Self::pd_refbuf`] reads.
    pub fn set_pd_refbuf(&mut self, value: bool)
        ensures
            final(self).0 == with_bit(old(self).0 as int, 7, value),
    {
        self.0 = set_bit(self.0, 7, value);
    }
}

impl From<RldConfig> for Config3Reg {
    /// Packs an RLD configuration into the register byte. The reserved bit 6
    /// is always set; the status bit 0 is read-only and stays clear.
    fn from(conf: RldConfig) -> (reg: Self) {
        let mut reg = Config3Reg(0);
        reg.set_rld_loff_sens(conf.leadoff_sense_enable);
        reg.set_pd_rld(conf.buffer_power_enable);
        reg.set_rldref_int(bool::from(conf.ref_source));
        reg.set_rld_meas(conf.measurement_enable);
        reg.set_vref_4v(conf.vref_4V_enable);
        reg.set_reserved(true);
        reg.set_pd_refbuf(conf.ref_buffer_enable);
        reg
    }
}

impl vstd::std_specs::convert::FromSpecImpl<RldConfig> for Config3Reg {
    open spec fn obeys_from_spec() -> bool {
        true
    }

    open spec fn from_spec(conf: RldConfig) -> Self {
        Config3Reg(
            (flag_value(1, conf.leadoff_sense_enable)
                + flag_value(2, conf.buffer_power_enable)
                + flag_value(3, conf.ref_source.spec_bits() != 0)
                + flag_value(4, conf.measurement_enable)
                + flag_value(5, conf.vref_4V_enable)
                + flag_value(6, true)
                + flag_value(7, conf.ref_buffer_enable)) as u8,
        )
    }
}

impl TryFrom<Config3Reg> for RldConfig {
    type Error = u8;

    /// Interprets the register byte: every byte has a meaning.
    fn try_from(reg: Config3Reg) -> (conf: Result<Self, u8>)
        ensures
            conf is Ok,
    {
        let ref_source = match RldRefSource::try_from(reg.rldref_int() as u8) {
            Ok(member) => member,
            Err(_) => {
                return Err(reg.0);
            },
        };
        Ok(
            RldConfig {
                leadoff_status: reg.rld_stat(),
                leadoff_sense_enable: reg.rld_loff_sens(),
                buffer_power_enable: reg.pd_rld(),
                ref_source,
                measurement_enable: reg.rld_meas(),
                vref_4V_enable: reg.vref_4v(),
                ref_buffer_enable: reg.pd_refbuf(),
            },
        )
    }
}

impl vstd::std_specs::convert::TryFromSpecImpl<Config3Reg> for RldConfig {
    open spec fn obeys_try_from_spec() -> bool {
        true
    }

    open spec fn try_from_spec(reg: Config3Reg) -> Result<Self, u8> {
        let raw = reg.0 as int;
        match <RldRefSource as TryFromSpec<u8>>::try_from_spec(flag_number(bit_of(raw, 3))) {
            Ok(ref_source) => Ok(
                RldConfig {
                    leadoff_status: bit_of(raw, 0),
                    leadoff_sense_enable: bit_of(raw, 1),
                    buffer_power_enable: bit_of(raw, 2),
                    ref_source,
                    measurement_enable: bit_of(raw, 4),
                    vref_4V_enable: bit_of(raw, 5),
                    ref_buffer_enable: bit_of(raw, 7),
                },
            ),
            Err(_) => Err(reg.0),
        }
    }
}

/// Packing an RLD configuration and interpreting the byte gives the
/// configuration back, as long as it does not claim a lead-off status: the
/// device alone sets that bit, so a packed byte always reads as connected.
pub proof fn lemma_rld_config_round_trip(conf: RldConfig)
    requires
        !conf.leadoff_status,
    ensures
        RldConfig::try_from_spec(Config3Reg::from_spec(conf)) == Ok::<RldConfig, u8>(conf),
{
}

/// Various configurations
#[derive(Debug, Clone, Copy, PartialEq, Eq)]
pub struct MiscConfig {
    /// Lead-off comparator enable
    pub leadoff_comparator_enable: bool,
    /// Connects the WCT to the RLD
    pub wct_to_rld_enable: bool,
    /// Single-shot instead of continuous conversion
    pub single_shot_mode: bool,
    /// Respiration modulation frequency
    pub respiration_freq: ResperationFreq,
}

impl Default for MiscConfig {
    fn default() -> (value: Self)
        ensures
            value == (MiscConfig {
                leadoff_comparator_enable: false,
                wct_to_rld_enable: false,
                single_shot_mode: false,
                respiration_freq: ResperationFreq::KHz64,
            }),
    {
        MiscConfig {
            leadoff_comparator_enable: false,
            wct_to_rld_enable: false,
            single_shot_mode: false,
            respiration_freq: ResperationFreq::KHz64,
        }
    }
}

/// Respiration modulation frequency
#[derive(Debug, Clone, Copy, PartialEq, Eq, Structural)]
pub enum ResperationFreq {
    /// 64 kHz modulation clock
    KHz64,
    /// 32 kHz modulation clock
    KHz32,
    /// 16kHz square wave on GPIO3 and GPIO04.
    /// Output on GPIO4 is 180 degree out of phase with GPIO3.
    KHz16,
    /// 8kHz square wave on GPIO3 and GPIO04.
    /// Output on GPIO4 is 180 degree out of phase with GPIO3.
    KHz8,
    /// 4kHz square wave on GPIO3 and GPIO04.
    /// Output on GPIO4 is 180 degree out of phase with GPIO3.
    KHz4,
    /// 2kHz square wave on GPIO3 and GPIO04.
    /// Output on GPIO4 is 180 degree out of phase with GPIO3.
    KHz2,
    /// 1kHz square wave on GPIO3 and GPIO04.
    /// Output on GPIO4 is 180 degree out of phase with GPIO3.
    KHz1,
    /// 500Hz square wave on GPIO3 and GPIO04.
    /// Output on GPIO4 is 180 degree out of phase with GPIO3.
    Hz500,
}

impl ResperationFreq {
    /// The field value that selects this member.
    pub open spec fn spec_bits(self) -> u8 {
        match self {
            ResperationFreq::KHz64 => 0b000,
            ResperationFreq::KHz32 => 0b001,
            ResperationFreq::KHz16 => 0b010,
            ResperationFreq::KHz8 => 0b011,
            ResperationFreq::KHz4 => 0b100,
            ResperationFreq::KHz2 => 0b101,
            ResperationFreq::KHz1 => 0b110,
            ResperationFreq::Hz500 => 0b111,
        }
    }

    /// The field value that selects this member.
    #[verifier::when_used_as_spec(spec_bits)]
    pub fn bits(self) -> (raw: u8)
        ensures
            raw == self.spec_bits(),
            ResperationFreq::try_from_spec(raw) == Ok::<ResperationFreq, u8>(self),
    {
        match self {
            ResperationFreq::KHz64 => 0b000,
            ResperationFreq::KHz32 => 0b001,
            ResperationFreq::KHz16 => 0b010,
            ResperationFreq::KHz8 => 0b011,
            ResperationFreq::KHz4 => 0b100,
            ResperationFreq::KHz2 => 0b101,
            ResperationFreq::KHz1 => 0b110,
            ResperationFreq::Hz500 => 0b111,
        }
    }
}

impl TryFrom<u8> for ResperationFreq {
    type Error = u8;

    /// The member that a field value selects; a value that selects none
    /// comes back as the error.
    fn try_from(number: u8) -> (member: Result<Self, u8>) {
        match number {
            0b000 => Ok(ResperationFreq::KHz64),
            0b001 => Ok(ResperationFreq::KHz32),
            0b010 => Ok(ResperationFreq::KHz16),
            0b011 => Ok(ResperationFreq::KHz8),
            0b100 => Ok(ResperationFreq::KHz4),
            0b101 => Ok(ResperationFreq::KHz2),
            0b110 => Ok(ResperationFreq::KHz1),
            0b111 => Ok(ResperationFreq::Hz500),
            _ => Err(number),
        }
    }
}

impl vstd::std_specs::convert::TryFromSpecImpl<u8> for ResperationFreq {
    open spec fn obeys_try_from_spec() -> bool {
        true
    }

    open spec fn try_from_spec(number: u8) -> Result<Self, u8> {
        match number {
            0b000 => Ok(ResperationFreq::KHz64),
            0b001 => Ok(ResperationFreq::KHz32),
            0b010 => Ok(ResperationFreq::KHz16),
            0b011 => Ok(ResperationFreq::KHz8),
            0b100 => Ok(ResperationFreq::KHz4),
            0b101 => Ok(ResperationFreq::KHz2),
            0b110 => Ok(ResperationFreq::KHz1),
            0b111 => Ok(ResperationFreq::Hz500),
            _ => Err(number),
        }
    }
}

/// Configuration Register 4 (address 0x17)
#[derive(Debug, Clone, Copy, PartialEq, Eq)]
pub struct Config4Reg(pub u8);

impl Config4Reg {
    /// Lead-off comparator power-down
    ///
    /// This bit powers down the lead-off comparators.
    ///
    ///   - 0 = Lead-off comparators disabled
    ///   - 1 = Lead-off comparators enabled
    pub fn pd_loff_comp(&self) -> (value: bool)
        ensures
            value == bit_of(self.0 as int, 1),
    {
        bit(self.0, 1)
    }

    /// Sets bit 1, the field that [`Self::pd_loff_comp`] reads.
    pub fn set_pd_loff_comp(&mut self, value: bool)
        ensures
            final(self).0 == with_bit(old(self).0 as int, 1, value),
    {
        self.0 = set_bit(self.0, 1, value);
    }

    /// Connects the WCT to the RLD
    ///
    /// This bit connects WCT to RLD.
    ///
    ///   - 0 = WCT to RLD connection off
    ///   - 1 = WCT to RLD connection on
    pub fn wct_to_rld(&self) -> (value: bool)
        ensures
            value == bit_of(self.0 as int, 2),
    {
        bit(self.0, 2)
    }

    /// Sets bit 2, the field that [`Self::wct_to_rld`] reads.
    pub fn set_wct_to_rld(&mut self, value: bool)
        ensures
            final(self).0 == with_bit(old(self).0 as int, 2, value),
    {
        self.0 = set_bit(self.0, 2, value);
    }

    /// Single-shot conversion
    ///
    /// This bit sets the conversion mode.
    ///
    ///   - 0 = Continuous conversion mode
    ///   - 1 = Single-shot mode
    pub fn single_shot(&self) -> (value: bool)
        ensures
            value == bit_of(self.0 as int, 3),
    {
        bit(self.0, 3)
    }

    /// Sets bit 3, the field that [`Self::single_shot`] reads.
    pub fn set_single_shot(&mut self, value: bool)
        ensures
            final(self).0 == with_bit(old(self).0 as int, 3, value),
    {
        self.0 = set_bit(self.0, 3, value);
    }

    /// Respiration modulation frequency
    ///
    /// These bits control the respiration control frequency when `RESP_CTRL`[1:0] = 10 or
    /// `RESP_CTRL`[1:0]= 10
    ///
    ///   - 000 = 64 kHz modulation clock
    ///   - 001 = 32 kHz modulation clock
    ///   - 010 = 16kHz square wave on GPIO3 and GPIO04. Output on GPIO4 is 180 degree out of phase with GPIO3.
    ///   - 011 = 8kHz square wave on GPIO3 and GPIO04. Output on GPIO4 is 180 degree out of phase with GPIO3.
    ///   - 100 = 4kHz square wave on GPIO3 and GPIO04. Output on GPIO4 is 180 degree out of phase with GPIO3.
    ///   - 101 = 2kHz square wave on GPIO3 and GPIO04. Output on GPIO4 is 180 degree out of phase with GPIO3.
    ///   - 110 = 1kHz square wave on GPIO3 and GPIO04. Output on GPIO4 is 180 degree out of phase with GPIO3.
    ///   - 111 = 500Hz square wave on GPIO3 and GPIO04. Output on GPIO4 is 180 degree out of phase with GPIO3.
    ///
    /// Modes 000 and 001 are modulation frequencies in internal and external respiration
    /// modes. In internal respiration mode, the control signals appear at the `RESP_MODP` and
    /// `RESP_MODN` terminals. All other bit settings generate square waves as described above
    /// on GPIO4 and GPIO3.
    pub fn resp_freq(&self) -> (value: u8)
        ensures
            value == bits_of(self.0 as int, 7, 5),
    {
        bit_range(self.0, 7, 5)
    }

    /// Sets bits 7..=5, the field that [`Self::resp_freq`] reads.
    pub fn set_resp_freq(&mut self, value: u8)
        ensures
            final(self).0 == with_bits(old(self).0 as int, 7, 5, value as int),
    {
        self.0 = set_bit_range(self.0, 7, 5, value);
    }
}

impl From<MiscConfig> for Config4Reg {
    /// Packs the configuration into the register byte. Bits 0 and 4 stay
    /// clear.
    fn from(param: MiscConfig) -> (reg: Self) {
        let mut reg = Config4Reg(0);
        reg.set_pd_loff_comp(param.leadoff_comparator_enable);
        reg.set_wct_to_rld(param.wct_to_rld_enable);
        reg.set_single_shot(param.single_shot_mode);
        reg.set_resp_freq(param.respiration_freq.bits());
        reg
    }
}

impl vstd::std_specs::convert::FromSpecImpl<MiscConfig> for Config4Reg {
    open spec fn obeys_from_spec() -> bool {
        true
    }

    open spec fn from_spec(param: MiscConfig) -> Self {
        Config4Reg(
            (flag_value(1, param.leadoff_comparator_enable)
                + flag_value(2, param.wct_to_rld_enable)
                + flag_value(3, param.single_shot_mode)
                + field_value(5, param.respiration_freq.spec_bits() as int)) as u8,
        )
    }
}

impl TryFrom<Config4Reg> for MiscConfig {
    type Error = u8;

    /// Interprets the register byte: every byte has a meaning.
    fn try_from(reg: Config4Reg) -> (param: Result<Self, u8>)
        ensures
            param is Ok,
    {
        let respiration_freq = match ResperationFreq::try_from(reg.resp_freq()) {
            Ok(member) => member,
            Err(_) => {
                return Err(reg.0);
            },
        };
        Ok(
            MiscConfig {
                leadoff_comparator_enable: reg.pd_loff_comp(),
                wct_to_rld_enable: reg.wct_to_rld(),
                single_shot_mode: reg.single_shot(),
                respiration_freq,
            },
        )
    }
}

impl vstd::std_specs::convert::TryFromSpecImpl<Config4Reg> for MiscConfig {
    open spec fn obeys_try_from_spec() -> bool {
        true
    }

    open spec fn try_from_spec(reg: Config4Reg) -> Result<Self, u8> {
        let raw = reg.0 as int;
        match <ResperationFreq as TryFromSpec<u8>>::try_from_spec(bits_of(raw, 7, 5) as u8) {
            Ok(respiration_freq) => Ok(
                MiscConfig {
                    leadoff_comparator_enable: bit_of(raw, 1),
                    wct_to_rld_enable: bit_of(raw, 2),
                    single_shot_mode: bit_of(raw, 3),
                    respiration_freq,
                },
            ),
            Err(_) => Err(reg.0),
        }
    }
}

/// Packing a configuration and interpreting the byte gives the configuration
/// back.
pub proof fn lemma_misc_config_round_trip(param: MiscConfig)
    ensures
        MiscConfig::try_from_spec(Config4Reg::from_spec(param)) == Ok::<MiscConfig, u8>(param),
{
}

} // verus!
