use embedded_hal::blocking::spi::Write;
use embedded_hal::digital::v2::OutputPin;
use embedded_hal_mock::spi::{Mock as SpiMock, Transaction as SpiTransaction};

use ads129x::ads1292::chan::{Chan, ChannelGain, ChannelInput};
use ads129x::ads1292::conf::{Config, MiscConfig, SampleRate, TestSignalFreq};
use ads129x::ads1292::resp::{Resp1, RespClock, RespPhase, RespPhase32kHz};
use ads129x::Ads129x;

struct MockPin;

impl OutputPin for MockPin {
    type Error = core::convert::Infallible;

    fn set_low(&mut self) -> Result<(), Self::Error> {
        Ok(())
    }

    fn set_high(&mut self) -> Result<(), Self::Error> {
        Ok(())
    }
}

#[test]
fn basic2_test() {
    // Configure expectations
    let expectations = [
        // Stop data cont
        SpiTransaction::write(vec![0x11]),
        // Config1 250Hz
        SpiTransaction::write(vec![0x41, 0x00, 0b0000_0001]),
        // Config2
        SpiTransaction::write(vec![0x42, 0x00, 0b1010_0011]),
        // Chan1
        SpiTransaction::write(vec![0x44, 0x00, 0b0001_0000]),
        // Chan2
        SpiTransaction::write(vec![0x45, 0x00, 0b0100_0000]),
        // Resp1
        SpiTransaction::write(vec![0x49, 0x00, 0b1101_1110]),
    ];

    let mut ncs = MockPin;
    ncs.set_high().unwrap();

    let spi = SpiMock::new(&expectations);

    let mut ads1292 = Ads129x::new_ads1292(spi, ncs);
    let words = ads1292.set_command_mode();
    ads1292.spi().write(&words).unwrap();

    // Basic setup
    let config = Config {
        sample_rate: SampleRate::Sps250,
        ..Default::default()
    };
    let words = ads1292.set_config(config);
    ads1292.spi().write(&words).unwrap();

    let misc = MiscConfig {
        test_signal_freq: TestSignalFreq::SquareWave_1Hz,
        test_signal_enable: true,
        ref_buffer_enable: true,
        ..Default::default()
    };
    let words = ads1292.set_misc_config(misc);
    ads1292.spi().write(&words).unwrap();

    // Channel setup
    let words = ads1292.set_chan_1(Chan::PowerUp {
        gain: ChannelGain::X1,
        input: ChannelInput::Normal,
    });
    ads1292.spi().write(&words).unwrap();
    let words = ads1292.set_chan_2(Chan::PowerUp {
        gain: ChannelGain::X4,
        input: ChannelInput::Normal,
    });
    ads1292.spi().write(&words).unwrap();

    // Resp
    let words = ads1292.set_resp(Resp1 {
        clock: RespClock::Internal,
        phase: RespPhase::RespPhase32kHz(RespPhase32kHz::Deg_78_75),
        modulation_enable: true,
        demodulation_enable: true,
    });
    ads1292.spi().write(&words).unwrap();

    // Finalize expectations
    let (mut spi, _) = ads1292.destroy();
    spi.done();
}

#[test]
fn ads1292_writes_are_the_expected_bytes() {
    let ads1292 = Ads129x::new_ads1292((), ());
    let config = Config {
        sample_rate: SampleRate::Sps250,
        ..Default::default()
    };
    assert_eq!(ads1292.set_config(config), [0x41, 0x00, 0b0000_0001]);
    let misc = MiscConfig {
        test_signal_freq: TestSignalFreq::SquareWave_1Hz,
        test_signal_enable: true,
        ref_buffer_enable: true,
        ..Default::default()
    };
    assert_eq!(ads1292.set_misc_config(misc), [0x42, 0x00, 0b1010_0011]);
    assert_eq!(
        ads1292.set_chan_1(Chan::PowerUp {
            gain: ChannelGain::X1,
            input: ChannelInput::Normal,
        }),
        [0x44, 0x00, 0b0001_0000]
    );
    assert_eq!(
        ads1292.set_resp(Resp1 {
            clock: RespClock::Internal,
            phase: RespPhase::RespPhase32kHz(RespPhase32kHz::Deg_78_75),
            modulation_enable: true,
            demodulation_enable: true,
        }),
        [0x49, 0x00, 0b1101_1110]
    );
}
