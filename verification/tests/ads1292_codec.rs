use ads129x::ads1292::chan::{Chan, ChanSetReg, ChannelGain, ChannelInput};
use ads129x::ads1292::conf::{
    Config, Config1Reg, Config2Reg, MiscConfig, Mode, SampleRate, TestSignalFreq,
};
use ads129x::ads1292::loff::{
    ClkDiv, CompNegativeSide, CompPositiveSide, LeadOffCompThreshold, LeadOffControl,
    LeadOffControlReg, LeadOffCurrentMagnitude, LeadOffFreq, LeadOffStatus, LeadOffStatusReg,
    LoffSense,
};
use ads129x::ads1292::resp::{
    Resp1, RespClock, RespControl1Reg, RespControl2Reg, RespPhase, RespPhase32kHz, RespPhase64kHz,
};
use ads129x::{Ads129x, Ads129xError};

#[test]
fn ads1292_config_round_trips() {
    for mode in [Mode::Continuous, Mode::SingleShot] {
        for sample_rate in [
            SampleRate::Sps125,
            SampleRate::Sps250,
            SampleRate::Sps500,
            SampleRate::KSps1,
            SampleRate::KSps2,
            SampleRate::KSps4,
            SampleRate::KSps8,
        ] {
            let config = Config { mode, sample_rate };
            assert_eq!(Config::try_from(Config1Reg::from(config)), Ok(config));
        }
    }
    let config = Config {
        mode: Mode::SingleShot,
        sample_rate: SampleRate::KSps8,
    };
    assert_eq!(Config1Reg::from(config).0, 0b1000_0110);
    assert_eq!(Config1Reg::from(Config::default()).0, 0b0000_0010);
    assert_eq!(SampleRate::default(), SampleRate::Sps500);
}

#[test]
fn ads1292_misc_config_always_sets_bit_seven() {
    assert_eq!(Config2Reg::from(MiscConfig::default()).0, 0x80);
    let misc = MiscConfig {
        test_signal_freq: TestSignalFreq::SquareWave_1Hz,
        test_signal_enable: true,
        osc_clock_output: true,
        vref_4V_enable: true,
        ref_buffer_enable: true,
        leadoff_comparator_enable: true,
    };
    let reg = Config2Reg::from(misc);
    assert_eq!(reg.0, 0b1111_1011);
    assert_eq!(MiscConfig::try_from(reg), Ok(misc));
    assert_eq!(MiscConfig::try_from(Config2Reg(0b0111_1011)), Ok(misc));
}

#[test]
fn ads1292_chan_knows_ten_inputs() {
    let chan = Chan::PowerUp {
        input: ChannelInput::Channel3,
        gain: ChannelGain::X8,
    };
    assert_eq!(ChanSetReg::from(chan).0, 0b0101_1001);
    assert_eq!(Chan::try_from(ChanSetReg(0b0101_1001)), Ok(chan));
    assert_eq!(Chan::try_from(ChanSetReg(0b0101_1010)), Err(0b0101_1010));
    assert_eq!(Chan::try_from(ChanSetReg(0b0111_0000)), Err(0b0111_0000));
    assert_eq!(ChanSetReg::from(Chan::PowerDown).0, 0b1000_0001);
    assert_eq!(Chan::try_from(ChanSetReg(0b1000_0001)), Ok(Chan::PowerDown));
}

#[test]
fn ads1292_leadoff_control_round_trips_on_the_positive_side() {
    let param = LeadOffControl {
        frequency: LeadOffFreq::AC,
        magnitude: LeadOffCurrentMagnitude::uA_6,
        comparator_threshold: LeadOffCompThreshold::PositiveSide(CompPositiveSide::Pct_70_0),
    };
    let reg = LeadOffControlReg::from(param);
    assert_eq!(reg.0, 0b1110_1001);
    assert_eq!(LeadOffControl::try_from(reg), Ok(param));
    let negative = LeadOffControl {
        comparator_threshold: LeadOffCompThreshold::NegativeSide(CompNegativeSide::Pct_30_0),
        ..param
    };
    assert_eq!(LeadOffControlReg::from(negative).0, 0b1110_1001);
    assert_eq!(LeadOffControl::try_from(LeadOffControlReg::from(negative)), Ok(param));
}

#[test]
fn ads1292_leadoff_status_writes_the_clock_divider_only() {
    let status = LeadOffStatus {
        ch1_positive_leadoff: true,
        ch2_negative_leadoff: true,
        rld_leadoff: true,
        clk_div: ClkDiv::Div16,
        ..Default::default()
    };
    assert_eq!(LeadOffStatusReg::from(status).0, 0b0100_0000);
    assert_eq!(LeadOffStatus::try_from(LeadOffStatusReg(0b0101_1001)), Ok(status));
    let quiet = LeadOffStatus {
        clk_div: ClkDiv::Div16,
        ..Default::default()
    };
    assert_eq!(LeadOffStatus::try_from(LeadOffStatusReg::from(quiet)), Ok(quiet));
}

#[test]
fn ads1292_loff_sense_bits() {
    let mut sense = LoffSense(0);
    sense.set_flip2(true);
    sense.set_loff1p(true);
    assert_eq!(sense.0, 0b0010_0001);
    assert!(sense.flip2());
    assert!(!sense.flip1());
    assert!(sense.loff1p());
}

#[test]
fn resp1_round_trips_up_to_the_clock_of_the_phase() {
    let param = Resp1 {
        clock: RespClock::External,
        phase: RespPhase::RespPhase32kHz(RespPhase32kHz::Deg_135),
        modulation_enable: false,
        demodulation_enable: true,
    };
    let reg = RespControl1Reg::from(param);
    assert_eq!(reg.0, 0b1011_0011);
    let read = Resp1::try_from(reg).unwrap();
    assert_eq!(read, param);
    assert_eq!(read.phase, RespPhase::RespPhase32kHz(RespPhase32kHz::Deg_135));

    let fast = Resp1 {
        phase: RespPhase::RespPhase64kHz(RespPhase64kHz::Deg_45),
        ..param
    };
    let read = Resp1::try_from(RespControl1Reg::from(fast)).unwrap();
    // equal by bits, though read as a phase at 32 kHz
    assert_eq!(read, fast);
    assert!(matches!(
        read.phase,
        RespPhase::RespPhase32kHz(RespPhase32kHz::Deg_22_5)
    ));
    assert_eq!(u8::from(fast.phase), 0b0010);
    assert_eq!(RespControl1Reg::from(Resp1::default()).0, 0b0000_0010);
}

#[test]
fn resp_control_2_bits() {
    let mut reg = RespControl2Reg(0);
    reg.set_calib_on(true);
    reg.set_resp_freq_64khz(true);
    assert_eq!(reg.0, 0b1000_0100);
    assert!(reg.calib_on());
    assert!(!reg.rldref_int());
}

#[test]
fn ads1292_read_requests_and_replies() {
    let device = Ads129x::new_ads1292((), ());
    assert_eq!(device.config_request(), [0x21, 0x00, 0xA5]);
    assert_eq!(device.misc_config_request(), [0x22, 0x00, 0xA5]);
    assert_eq!(device.leadoff_control_request(), [0x23, 0x00, 0xA5]);
    assert_eq!(device.chan_1_request(), [0x24, 0x00, 0xA5]);
    assert_eq!(device.chan_2_request(), [0x25, 0x00, 0xA5]);
    assert_eq!(device.leadoff_status_request(), [0x28, 0x00, 0xA5]);
    assert_eq!(device.resp_request(), [0x29, 0x00, 0xA5]);

    let config = device.config(Ok::<[u8; 3], ()>([0x00, 0x00, 0b1000_0001])).unwrap();
    assert_eq!(
        config,
        Config {
            mode: Mode::SingleShot,
            sample_rate: SampleRate::Sps250
        }
    );
    assert!(matches!(
        device.config(Ok::<[u8; 3], ()>([0x00, 0x00, 0x07])),
        Err(Ads129xError::ReadInterpret(0x07))
    ));
    assert!(matches!(
        device.config(Err::<[u8; 3], u16>(404)),
        Err(Ads129xError::Spi(404))
    ));
    assert!(matches!(
        device.chan_2(Ok::<[u8; 3], ()>([0xFF, 0xFF, 0x7F])),
        Err(Ads129xError::ReadInterpret(0x7F))
    ));
    assert_eq!(
        device.set_leadoff_status(LeadOffStatus::default()),
        [0x48, 0x00, 0x00]
    );
}
