use embedded_hal::blocking::spi::Write;
use embedded_hal::digital::v2::OutputPin;
use embedded_hal_mock::spi::{Mock as SpiMock, Transaction as SpiTransaction};

use ads129x::ads1298::chan::{Chan, ChannelGain, ChannelInput};
use ads129x::ads1298::conf::{
    Config, Mode, RldConfig, SampleRateLP, TestSignalAmp, TestSignalConfig, TestSignalFreq,
    TestSignalSource,
};
use ads129x::Ads129x;

struct MockNcs;

impl OutputPin for MockNcs {
    type Error = core::convert::Infallible;

    fn set_low(&mut self) -> Result<(), Self::Error> {
        Ok(())
    }

    fn set_high(&mut self) -> Result<(), Self::Error> {
        Ok(())
    }
}

#[test]
fn basic_test() {
    // Configure expectations
    let expectations = [
        // Stop data cont
        SpiTransaction::write(vec![0x11]),
        // Config1
        SpiTransaction::write(vec![0x41, 0x00, 0b0110_0100]),
        // Config2
        SpiTransaction::write(vec![0x42, 0x00, 0b0001_0101]),
        // Config3
        SpiTransaction::write(vec![0x43, 0x00, 0b1100_0000]),
        // CHNSET
        SpiTransaction::write(vec![0x45, 0x00, 0b0100_0000]),
        SpiTransaction::write(vec![0x46, 0x00, 0b0100_0000]),
        SpiTransaction::write(vec![0x47, 0x00, 0b0100_0000]),
        SpiTransaction::write(vec![0x48, 0x00, 0b0100_0000]),
        SpiTransaction::write(vec![0x49, 0x00, 0b0100_0000]),
        SpiTransaction::write(vec![0x4A, 0x00, 0b0100_0000]),
        SpiTransaction::write(vec![0x4B, 0x00, 0b0100_0000]),
        SpiTransaction::write(vec![0x4C, 0x00, 0b0100_0000]),
    ];

    let mut ncs = MockNcs;
    ncs.set_high().unwrap();

    let spi = SpiMock::new(&expectations);

    let mut ads1298 = Ads129x::new_ads1298(spi, ncs);
    let words = ads1298.set_command_mode();
    ads1298.spi().write(&words).unwrap();

    let config = Config {
        mode: Mode::LowPower(SampleRateLP::KSps1),
        osc_clock_output: true,
        daisy_chain: false,
    };
    let words = ads1298.set_config(config);
    ads1298.spi().write(&words).unwrap();

    let ts_config = TestSignalConfig {
        frequency: TestSignalFreq::PulsedAtFclk_div_2_20,
        amplitude: TestSignalAmp::Mode_x2,
        source: TestSignalSource::Internal,
        ..Default::default()
    };
    let words = ads1298.set_test_signal_config(ts_config);
    ads1298.spi().write(&words).unwrap();

    let rld_config = RldConfig {
        ref_buffer_enable: true,
        ..Default::default()
    };
    let words = ads1298.set_rld_config(rld_config);
    ads1298.spi().write(&words).unwrap();

    let chan = Chan::PowerUp {
        gain: ChannelGain::X4,
        input: ChannelInput::Normal,
    };
    let words = ads1298.set_chan_1(chan);
    ads1298.spi().write(&words).unwrap();
    let words = ads1298.set_chan_2(chan);
    ads1298.spi().write(&words).unwrap();
    let words = ads1298.set_chan_3(chan);
    ads1298.spi().write(&words).unwrap();
    let words = ads1298.set_chan_4(chan);
    ads1298.spi().write(&words).unwrap();
    let words = ads1298.set_chan_5(chan);
    ads1298.spi().write(&words).unwrap();
    let words = ads1298.set_chan_6(chan);
    ads1298.spi().write(&words).unwrap();
    let words = ads1298.set_chan_7(chan);
    ads1298.spi().write(&words).unwrap();
    let words = ads1298.set_chan_8(chan);
    ads1298.spi().write(&words).unwrap();

    // Finalize expectations
    let (mut spi, _) = ads1298.destroy();
    spi.done();
}

#[test]
fn ads1298_writes_are_the_expected_bytes() {
    let ads1298 = Ads129x::new_ads1298((), ());
    assert_eq!(ads1298.set_command_mode(), [0x11]);
    let config = Config {
        mode: Mode::LowPower(SampleRateLP::KSps1),
        osc_clock_output: true,
        daisy_chain: false,
    };
    assert_eq!(ads1298.set_config(config), [0x41, 0x00, 0b0110_0100]);
    let ts_config = TestSignalConfig {
        frequency: TestSignalFreq::PulsedAtFclk_div_2_20,
        amplitude: TestSignalAmp::Mode_x2,
        source: TestSignalSource::Internal,
        ..Default::default()
    };
    assert_eq!(ads1298.set_test_signal_config(ts_config), [0x42, 0x00, 0b0001_0101]);
    let rld_config = RldConfig {
        ref_buffer_enable: true,
        ..Default::default()
    };
    assert_eq!(ads1298.set_rld_config(rld_config), [0x43, 0x00, 0b1100_0000]);
    let chan = Chan::PowerUp {
        gain: ChannelGain::X4,
        input: ChannelInput::Normal,
    };
    assert_eq!(ads1298.set_chan_1(chan), [0x45, 0x00, 0b0100_0000]);
    assert_eq!(ads1298.set_chan_8(chan), [0x4C, 0x00, 0b0100_0000]);
}
