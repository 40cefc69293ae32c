use ads129x::ads1292;
use ads129x::ads1298;
use ads129x::ads1298::chan::{Chan, ChanSetReg, ChannelGain, ChannelInput};
use ads129x::ads1298::conf::{
    Config, Config1Reg, Config2Reg, Config3Reg, Config4Reg, MiscConfig, Mode, ResperationFreq,
    RldConfig, RldRefSource, SampleRateHR, SampleRateLP, TestSignalAmp, TestSignalConfig,
    TestSignalFreq, TestSignalSource, WctChoppingFreq,
};
use ads129x::ads1298::gpio::{Gpio, GpioMode, GpioReg};
use ads129x::ads1298::loff::{
    CompNegativeSide, CompPositiveSide, LeadOffCompThreshold, LeadOffControl, LeadOffControlReg,
    LeadOffDetectMode, LeadOffFlip, LeadOffFlipReg, LeadOffFreq, LeadOffMagnitude, LeadOffSense,
    LeadOffSenseReg,
};

#[test]
fn config_round_trips_for_every_rate_and_switch() {
    let rates_hr = [
        SampleRateHR::KSps32,
        SampleRateHR::KSps16,
        SampleRateHR::Sps8k,
        SampleRateHR::Sps4k,
        SampleRateHR::Sps2k,
        SampleRateHR::Sps1k,
        SampleRateHR::Sps500,
    ];
    let rates_lp = [
        SampleRateLP::KSps16,
        SampleRateLP::KSps8,
        SampleRateLP::KSps4,
        SampleRateLP::KSps2,
        SampleRateLP::KSps1,
        SampleRateLP::Sps500,
        SampleRateLP::Sps250,
    ];
    for osc in [false, true] {
        for daisy in [false, true] {
            for rate in rates_hr {
                let config = Config {
                    mode: Mode::HighResolution(rate),
                    osc_clock_output: osc,
                    daisy_chain: daisy,
                };
                assert_eq!(Config::try_from(Config1Reg::from(config)), Ok(config));
            }
            for rate in rates_lp {
                let config = Config {
                    mode: Mode::LowPower(rate),
                    osc_clock_output: osc,
                    daisy_chain: daisy,
                };
                assert_eq!(Config::try_from(Config1Reg::from(config)), Ok(config));
            }
        }
    }
}

#[test]
fn config_packs_each_field_at_its_place() {
    let config = Config {
        mode: Mode::HighResolution(SampleRateHR::Sps1k),
        osc_clock_output: false,
        daisy_chain: true,
    };
    assert_eq!(Config1Reg::from(config).0, 0b1000_0101);
    assert_eq!(Config1Reg::from(Config::default()).0, 0b0000_0110);
}

#[test]
fn config_with_a_rate_that_is_none_is_refused_with_its_byte() {
    assert_eq!(Config::try_from(Config1Reg(0b0000_0111)), Err(0b0000_0111));
    assert_eq!(Config::try_from(Config1Reg(0b1110_0111)), Err(0b1110_0111));
    assert_eq!(
        ads1292::conf::Config::try_from(ads1292::conf::Config1Reg(0x07)),
        Err(0x07)
    );
}

#[test]
fn every_byte_is_either_read_or_handed_back() {
    for raw in 0..=255u8 {
        match Config::try_from(Config1Reg(raw)) {
            Ok(_) => assert_ne!(raw & 0b111, 0b111),
            Err(e) => {
                assert_eq!(e, raw);
                assert_eq!(raw & 0b111, 0b111);
            }
        }
        match Chan::try_from(ChanSetReg(raw)) {
            Ok(_) => assert!(raw & 0x80 != 0 || (raw >> 4) & 0b111 != 0b111),
            Err(e) => assert_eq!(e, raw),
        }
        match ads1292::chan::Chan::try_from(ads1292::chan::ChanSetReg(raw)) {
            Ok(_) => assert!(raw & 0x80 != 0 || ((raw >> 4) & 0b111 != 0b111 && raw & 0x0F <= 9)),
            Err(e) => assert_eq!(e, raw),
        }
        assert!(TestSignalConfig::try_from(Config2Reg(raw)).is_ok());
        assert!(RldConfig::try_from(Config3Reg(raw)).is_ok());
        assert!(MiscConfig::try_from(Config4Reg(raw)).is_ok());
        assert!(LeadOffControl::try_from(LeadOffControlReg(raw)).is_ok());
        assert!(Gpio::try_from(GpioReg(raw)).is_ok());
    }
}

#[test]
fn reading_what_was_read_and_packed_again_changes_nothing() {
    for raw in 0..=255u8 {
        if let Ok(chan) = Chan::try_from(ChanSetReg(raw)) {
            assert_eq!(Chan::try_from(ChanSetReg::from(chan)), Ok(chan));
        }
        if let Ok(sense) = LeadOffSense::try_from(LeadOffSenseReg(raw)) {
            assert_eq!(LeadOffSenseReg::from(sense).0, raw);
        }
        if let Ok(flip) = LeadOffFlip::try_from(LeadOffFlipReg(raw)) {
            assert_eq!(LeadOffFlipReg::from(flip).0, raw);
        }
        if let Ok(gpio) = Gpio::try_from(GpioReg(raw)) {
            assert_eq!(GpioReg::from(gpio).0, raw);
        }
    }
}

#[test]
fn test_signal_config_round_trips() {
    let config = TestSignalConfig {
        frequency: TestSignalFreq::AtDC,
        amplitude: TestSignalAmp::Mode_x2,
        source: TestSignalSource::Internal,
        wct_chop: WctChoppingFreq::Const,
    };
    let reg = Config2Reg::from(config);
    assert_eq!(reg.0, 0b0011_0111);
    assert_eq!(TestSignalConfig::try_from(reg), Ok(config));
    assert_eq!(Config2Reg::from(TestSignalConfig::default()).0, 0x00);
}

#[test]
fn rld_config_forces_the_reserved_bit_and_drops_the_status() {
    assert_eq!(Config3Reg::from(RldConfig::default()).0, 0b0100_0000);
    let config = RldConfig {
        leadoff_status: false,
        leadoff_sense_enable: true,
        buffer_power_enable: true,
        ref_source: RldRefSource::Interanl,
        measurement_enable: true,
        vref_4V_enable: true,
        ref_buffer_enable: true,
    };
    let reg = Config3Reg::from(config);
    assert_eq!(reg.0, 0b1111_1110);
    assert_eq!(RldConfig::try_from(reg), Ok(config));
    let claimed = RldConfig {
        leadoff_status: true,
        ..config
    };
    assert_eq!(Config3Reg::from(claimed).0, 0b1111_1110);
    assert_eq!(RldConfig::try_from(Config3Reg(0b1111_1111)), Ok(claimed));
}

#[test]
fn misc_config_round_trips() {
    let config = MiscConfig {
        leadoff_comparator_enable: true,
        wct_to_rld_enable: false,
        single_shot_mode: true,
        respiration_freq: ResperationFreq::KHz2,
    };
    let reg = Config4Reg::from(config);
    assert_eq!(reg.0, 0b1010_1010);
    assert_eq!(MiscConfig::try_from(reg), Ok(config));
}

#[test]
fn chan_power_down_shorts_the_input() {
    assert_eq!(ChanSetReg::from(Chan::PowerDown).0, 0b1000_0001);
    assert_eq!(Chan::try_from(ChanSetReg(0b1000_0001)), Ok(Chan::PowerDown));
    assert_eq!(Chan::try_from(ChanSetReg(0b1111_1111)), Ok(Chan::PowerDown));
    assert_eq!(Chan::try_from(ChanSetReg(0b0111_0000)), Err(0b0111_0000));
    let chan = Chan::PowerUp {
        input: ChannelInput::TestSig,
        gain: ChannelGain::X12,
    };
    assert_eq!(ChanSetReg::from(chan).0, 0b0110_0101);
    assert_eq!(Chan::try_from(ChanSetReg(0b0110_0101)), Ok(chan));
    assert_eq!(ChanSetReg::from(Chan::default()).0, 0x00);
}

#[test]
fn leadoff_control_reads_the_threshold_from_its_own_bits() {
    let param = LeadOffControl {
        frequency: LeadOffFreq::DC,
        magnitude: LeadOffMagnitude::nA_18,
        detection_mode: LeadOffDetectMode::PullUpDown,
        comparator_threshold: LeadOffCompThreshold::PositiveSide(CompPositiveSide::Pct_80_0),
    };
    let reg = LeadOffControlReg::from(param);
    assert_eq!(reg.0, 0b1011_1011);
    assert_eq!(LeadOffControl::try_from(reg), Ok(param));
    let other = LeadOffControl {
        frequency: LeadOffFreq::Default,
        comparator_threshold: LeadOffCompThreshold::PositiveSide(CompPositiveSide::Pct_92_5),
        ..param
    };
    assert_eq!(LeadOffControl::try_from(LeadOffControlReg::from(other)), Ok(other));
}

#[test]
fn leadoff_control_reads_a_negative_threshold_as_positive() {
    let param = LeadOffControl {
        comparator_threshold: LeadOffCompThreshold::NegativeSide(CompNegativeSide::Pct_10_0),
        ..Default::default()
    };
    let reg = LeadOffControlReg::from(param);
    assert_eq!(reg.0, 0b0100_0000);
    assert_eq!(u8::from(param.comparator_threshold), 0b010);
    let read = LeadOffControl::try_from(reg).unwrap();
    assert_eq!(
        read.comparator_threshold,
        LeadOffCompThreshold::PositiveSide(CompPositiveSide::Pct_90_0)
    );
    assert_ne!(read, param);
}

#[test]
fn leadoff_sense_and_flip_take_one_bit_per_channel() {
    let sense = LeadOffSense {
        ch1_enable: true,
        ch4_enable: true,
        ch8_enable: true,
        ..Default::default()
    };
    assert_eq!(LeadOffSenseReg::from(sense).0, 0b1000_1001);
    assert_eq!(LeadOffSense::try_from(LeadOffSenseReg(0b1000_1001)), Ok(sense));
    let flip = LeadOffFlip {
        ch2_flip: true,
        ch7_flip: true,
        ..Default::default()
    };
    assert_eq!(LeadOffFlipReg::from(flip).0, 0b0100_0010);
    assert_eq!(LeadOffFlip::try_from(LeadOffFlipReg(0b0100_0010)), Ok(flip));
}

#[test]
fn gpio_all_output_is_a_cleared_byte() {
    let all_output = Gpio {
        mode: [GpioMode::Output; 4],
        data: [false; 4],
    };
    assert_eq!(GpioReg::from(all_output).0, 0x00);
    let device = ads129x::Ads129x::new_ads1294((), ());
    assert_eq!(device.set_gpio(all_output), [0x54, 0x00, 0x00]);
    assert_eq!(GpioReg::from(Gpio::default()).0, 0x0F);
    let mixed = Gpio {
        mode: [GpioMode::Input, GpioMode::Output, GpioMode::Output, GpioMode::Input],
        data: [false, true, true, false],
    };
    assert_eq!(GpioReg::from(mixed).0, 0b0110_1001);
    assert_eq!(Gpio::try_from(GpioReg(0b0110_1001)), Ok(mixed));
}

#[test]
fn enum_members_and_their_bits_agree() {
    for number in 0..=255u8 {
        match SampleRateHR::try_from(number) {
            Ok(member) => assert_eq!(member.bits(), number),
            Err(e) => {
                assert_eq!(e, number);
                assert!(number > 0b110);
            }
        }
        match ads1292::chan::ChannelInput::try_from(number) {
            Ok(member) => assert_eq!(member.bits(), number),
            Err(e) => {
                assert_eq!(e, number);
                assert!(number > 0b1001);
            }
        }
        match ads1292::resp::RespPhase32kHz::try_from(number) {
            Ok(member) => assert_eq!(member.bits(), number),
            Err(_) => assert!(number > 0b1111),
        }
    }
    assert_eq!(ads1292::ChopFrequency::FmodDiv2.bits(), 0b10);
    assert_eq!(ads1292::ChopFrequency::Unknown.bits(), 0b01);
    assert!(bool::from(TestSignalAmp::Mode_x2));
    assert!(!bool::from(TestSignalAmp::Mode_x1));
    assert!(bool::from(GpioMode::Input));
}

#[test]
fn register_fields_are_read_where_they_are_written() {
    let mut reg = Config1Reg(0xFF);
    reg.set_output_date_rate(0b010);
    assert_eq!(reg.0, 0b1111_1010);
    assert_eq!(reg.output_date_rate(), 0b010);
    reg.set_clock_enable(false);
    assert_eq!(reg.0, 0b1101_1010);
    assert!(!reg.clock_enable());
    assert!(reg.daisy_disable());
    assert!(reg.high_resolution());
    // a value wider than its field keeps its low bits only
    let mut reg = Config1Reg(0x00);
    reg.set_output_date_rate(0xFF);
    assert_eq!(reg.0, 0b0000_0111);
    let mut sel = ads1292::RLDSenseSelection(0);
    sel.set_chop(0b11);
    sel.set_rld1p(true);
    assert_eq!(sel.0, 0b1100_0001);
    assert_eq!(sel.chop(), 0b11);
    assert!(sel.rld1p());
    assert!(!sel.pdb_rld());
}

#[test]
fn register_addresses_stay_in_their_family() {
    assert_eq!(ads1292::Register::ID.addr(), 0x00);
    assert_eq!(ads1292::Register::GPIO.addr(), 0x0B);
    assert_eq!(ads1292::LAST_ADDRESS, 0x0B);
    assert_eq!(ads1298::Register::LOFF.addr(), 0x04);
    assert_eq!(ads1298::Register::CH8SET.addr(), 0x0C);
    assert_eq!(ads1298::Register::WCT2.addr(), 0x19);
    assert_eq!(ads1298::LAST_ADDRESS, 0x19);
}
