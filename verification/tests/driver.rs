use ads129x::ads1298::chan::{Chan, ChannelGain, ChannelInput};
use ads129x::ads1298::conf::{Config, Mode, SampleRateLP};
use ads129x::command::Command;
use ads129x::common::id::{DevModel, IdReg, IdRegError};
use ads129x::data::{DataFrame, DataFrame92, DataStatusWord, DataStatusWord92};
use ads129x::spi::{BusAction, BusEvent, SpiDevice, Stage, Transaction};
use ads129x::{Ads129x, Ads129xError};

#[test]
fn commands_have_their_opcodes() {
    assert_eq!(Command::WAKEUP.opcode(), 0x02);
    assert_eq!(Command::STANDBY.opcode(), 0x04);
    assert_eq!(Command::RESET.opcode(), 0x06);
    assert_eq!(Command::START.opcode(), 0x08);
    assert_eq!(Command::STOP.opcode(), 0x0A);
    assert_eq!(Command::OFFSETCAL.opcode(), 0x1A);
    assert_eq!(Command::RDATAC.opcode(), 0x10);
    assert_eq!(Command::SDATAC.opcode(), 0x11);
    assert_eq!(Command::RDATA.opcode(), 0x12);
    assert_eq!(Command::RREG.opcode(), 0x20);
    assert_eq!(Command::WREG.opcode(), 0x40);
}

#[test]
fn register_commands_carry_the_address_in_the_low_bits() {
    for address in 0..32u8 {
        assert_eq!(Command::RREG.at(address), 0x20 | address);
        assert_eq!(Command::WREG.at(address), 0x40 | address);
        assert_eq!(Command::RREG.at(address), 0x20 + address);
        assert_eq!(Command::WREG.at(address), 0x40 + address);
    }
    assert_eq!(Command::WREG.at(0x17), 0x57);
    assert_eq!(Command::RREG.at(0x19), 0x39);
}

#[test]
fn mode_commands_are_one_byte() {
    let device = Ads129x::new_ads1296((), ());
    assert_eq!(device.wakeup_device(), [0x02]);
    assert_eq!(device.set_standby_mode(), [0x04]);
    assert_eq!(device.reset_device(), [0x06]);
    assert_eq!(device.start_conv(), [0x08]);
    assert_eq!(device.stop_conv(), [0x0A]);
    assert_eq!(device.set_continuous_mode(), [0x10]);
    assert_eq!(device.set_command_mode(), [0x11]);
}

#[test]
fn handle_gives_back_what_it_was_made_of() {
    let device = Ads129x::new_ads1292(7u8, "pin");
    assert_eq!(device.destroy(), (7u8, "pin"));
    let device = Ads129x::new_ads1294(1u8, 2u8);
    assert_eq!(device.destroy(), (1, 2));
    let device = Ads129x::new_ads1296(3u8, 4u8);
    assert_eq!(device.destroy(), (3, 4));
    let mut device = Ads129x::new_ads1298(5u8, 6u8);
    *device.spi() += 10;
    *device.ncs() += 20;
    assert_eq!(device.destroy(), (15, 26));
    let mut bus = SpiDevice::new(1u8, 2u8);
    *bus.spi() = 8;
    *bus.ncs() = 9;
    assert_eq!(bus.destroy(), (8, 9));
}

#[test]
fn identity_is_read_from_the_third_byte() {
    let device = Ads129x::new_ads1298((), ());
    assert_eq!(device.read_id_request(), [0x20, 0x00, 0xA5]);
    let model = device.read_id(Ok::<[u8; 3], ()>([0x00, 0x00, 0b1001_0010]));
    assert!(matches!(model, Ok(DevModel::Ads1298)));
    let model = device.read_id(Ok::<[u8; 3], ()>([0x00, 0x00, 0b1001_1010]));
    assert!(matches!(
        model,
        Err(Ads129xError::IdRegRead(IdRegError::ReservedFieldMismatch(0b1001_1010)))
    ));
    let model = device.read_id(Ok::<[u8; 3], ()>([0x00, 0x00, 0b1111_0010]));
    assert!(matches!(
        model,
        Err(Ads129xError::IdRegRead(IdRegError::Unsupported(0b1111_0010)))
    ));
    let model = device.read_id(Err::<[u8; 3], &str>("bus"));
    assert!(matches!(model, Err(Ads129xError::Spi("bus"))));
}

#[test]
fn every_model_has_its_identity_byte() {
    let table = [
        (0b1001_0000u8, DevModel::Ads1294),
        (0b1001_0001, DevModel::Ads1296),
        (0b1001_0010, DevModel::Ads1298),
        (0b1101_0000, DevModel::Ads1294R),
        (0b1101_0001, DevModel::Ads1296R),
        (0b1101_0010, DevModel::Ads1298R),
        (0b0101_0010, DevModel::Ads1291),
        (0b0101_0011, DevModel::Ads1292),
        (0b0111_0011, DevModel::Ads1292R),
    ];
    for (raw, model) in table {
        assert_eq!(DevModel::try_from(IdReg(raw)), Ok(model));
    }
    let mut named = 0;
    for raw in 0..=255u8 {
        let reg = IdReg(raw);
        match DevModel::try_from(reg) {
            Ok(_) => {
                named += 1;
                assert_eq!(reg.reserved(), 0b10);
            }
            Err(IdRegError::ReservedFieldMismatch(e)) => {
                assert_eq!(e, raw);
                assert_ne!((raw >> 3) & 0b11, 0b10);
            }
            Err(IdRegError::Unsupported(e)) => {
                assert_eq!(e, raw);
                assert_eq!((raw >> 3) & 0b11, 0b10);
            }
        }
    }
    assert_eq!(named, 9);
}

#[test]
fn a_wrong_reserved_field_is_never_looked_up() {
    // the codes of an ADS1298, with each wrong reserved pattern
    for reserved in [0b00u8, 0b01, 0b11] {
        let raw = 0b1000_0010 | (reserved << 3);
        assert_eq!(
            DevModel::try_from(IdReg(raw)),
            Err(IdRegError::ReservedFieldMismatch(raw))
        );
    }
    let reg = IdReg(0b1101_0001);
    assert_eq!(reg.channel_id(), 0b001);
    assert_eq!(reg.reserved(), 0b10);
    assert_eq!(reg.model_id(), 0b110);
}

#[test]
fn negative_sample_is_sign_extended() {
    let device = Ads129x::new_ads1294((), ());
    assert_eq!(device.frame_len(), 15);
    let wire: [u8; 15] = [
        0xC0, 0x00, 0x00, // status
        0xFF, 0xFF, 0xFE, // -2
        0x00, 0x00, 0x01, // 1
        0x7F, 0xFF, 0xFF, // largest
        0x80, 0x00, 0x00, // smallest
    ];
    let mut frame = DataFrame::<4>::new();
    let outcome = device.read_data(&mut frame, Ok::<&[u8], ()>(&wire));
    assert!(outcome.is_ok());
    assert_eq!(frame.status_word, [0xC0, 0x00, 0x00]);
    assert_eq!(frame.data, [-2, 1, 8_388_607, -8_388_608]);
}

#[test]
fn frame_of_eight_channels() {
    let device = Ads129x::new_ads1298((), ());
    assert_eq!(device.frame_len(), 27);
    let mut wire = vec![0xC1u8, 0x23, 0x45];
    for channel in 0..8u8 {
        wire.push(if channel % 2 == 0 { 0x00 } else { 0xFF });
        wire.push(channel);
        wire.push(0x10 + channel);
    }
    let mut frame = DataFrame::<8>::default();
    assert_eq!(frame.data, [0; 8]);
    let outcome = device.read_data(&mut frame, Ok::<&[u8], ()>(&wire));
    assert!(outcome.is_ok());
    assert_eq!(frame.data[0], 0x0000_0010);
    assert_eq!(frame.data[1], 0xFF_0111 - 0x100_0000);
    assert_eq!(frame.data[2], 0x00_0212);
    assert_eq!(frame.data[7], 0xFF_0717 - 0x100_0000);
    let status = frame.status_word();
    assert_eq!(status.0, 0xC1_2345);
    assert_eq!(status.sync(), 0b1100);
    assert_eq!(status.loff_statp(), 0x12);
    assert_eq!(status.loff_statn(), 0x34);
    assert_eq!(status.gpio(), 0x5);
}

#[test]
fn frame_out_of_sync_is_an_error_with_the_field() {
    let device = Ads129x::new_ads1294((), ());
    let mut wire = [0u8; 15];
    wire[0] = 0xA7;
    wire[5] = 0x09;
    let mut frame = DataFrame::<4>::new();
    let outcome = device.read_data(&mut frame, Ok::<&[u8], ()>(&wire));
    assert!(matches!(
        outcome,
        Err(Ads129xError::StatusWordMissmatch(0b1010))
    ));
    // what was read is in the frame, for the caller to look at
    assert_eq!(frame.status_word, [0xA7, 0x00, 0x00]);
    assert_eq!(frame.data, [9, 0, 0, 0]);
    for high in 0..16u8 {
        wire[0] = high << 4;
        let outcome = device.read_data(&mut frame, Ok::<&[u8], ()>(&wire));
        if high == 0b1100 {
            assert!(outcome.is_ok());
        } else {
            assert!(
                matches!(outcome, Err(Ads129xError::StatusWordMissmatch(sync)) if sync == high)
            );
        }
    }
}

#[test]
fn failed_frame_read_leaves_the_frame_alone() {
    let device = Ads129x::new_ads1294((), ());
    let mut frame = DataFrame::<4>::new();
    frame.status_word = [0xC0, 1, 2];
    frame.data = [5, 6, 7, 8];
    let outcome = device.read_data(&mut frame, Err::<&[u8], i32>(-3));
    assert!(matches!(outcome, Err(Ads129xError::Spi(-3))));
    assert_eq!(frame.status_word, [0xC0, 1, 2]);
    assert_eq!(frame.data, [5, 6, 7, 8]);
}

#[test]
fn two_channel_frame_and_status_word() {
    let mut frame = DataFrame92::new();
    assert_eq!(frame.status_word, [0, 0, 0]);
    assert_eq!(frame.data, [0, 0]);
    frame.status_word = [0xC5, 0x80, 0x00];
    let status: DataStatusWord92 = frame.status_word();
    assert_eq!(status.0, 0xC5_8000);
    assert_eq!(status.sync(), 0b1100);
    assert_eq!(status.loff_stat(), 0b0101);
    assert_eq!(status.gpio(), 0b10);
    let zero = DataFrame92::default();
    assert_eq!(zero.status_word().0, 0);
    assert_eq!(DataStatusWord(0xFFFF_FFFF).sync(), 0xF);
    assert_eq!(DataStatusWord(0xFFFF_FFFF).loff_statp(), 0xFF);
}

#[test]
fn transaction_takes_its_seven_steps_in_order() {
    for failed in [false, true] {
        let (mut transaction, mut action) = Transaction::begin();
        let mut steps = Vec::new();
        loop {
            steps.push(action);
            let event = match action {
                BusAction::Exchange if failed => BusEvent::Failed,
                BusAction::Finish { .. } => break,
                _ => BusEvent::Done,
            };
            let next = transaction.step(event);
            transaction = next.0;
            action = next.1;
        }
        assert_eq!(
            steps,
            vec![
                BusAction::Select,
                BusAction::Delay(40),
                BusAction::Exchange,
                BusAction::Delay(40),
                BusAction::Release,
                BusAction::Delay(20),
                BusAction::Finish { failed },
            ]
        );
        assert_eq!(transaction.stage, Stage::Finished);
        // a finished transaction stays finished
        assert_eq!(
            transaction.step(BusEvent::Failed),
            (transaction, BusAction::Finish { failed })
        );
    }
}

#[test]
fn only_the_exchange_can_fail_a_transaction() {
    let (mut transaction, mut action) = Transaction::begin();
    let mut released = false;
    loop {
        match action {
            BusAction::Release => released = true,
            BusAction::Finish { failed } => {
                assert!(!failed);
                assert!(released);
                break;
            }
            _ => {}
        }
        // every step but the exchange is reported as failed
        let event = if action == BusAction::Exchange {
            BusEvent::Done
        } else {
            BusEvent::Failed
        };
        let next = transaction.step(event);
        transaction = next.0;
        action = next.1;
    }
}

#[test]
fn ads1298_read_requests_and_replies() {
    let device = Ads129x::new_ads1298((), ());
    assert_eq!(device.config_request(), [0x21, 0x00, 0xA5]);
    assert_eq!(device.test_signal_config_request(), [0x22, 0x00, 0xA5]);
    assert_eq!(device.test_rld_config_request(), [0x23, 0x00, 0xA5]);
    assert_eq!(device.leadoff_control_request(), [0x24, 0x00, 0xA5]);
    assert_eq!(device.chan_1_request(), [0x25, 0x00, 0xA5]);
    assert_eq!(device.chan_8_request(), [0x2C, 0x00, 0xA5]);
    assert_eq!(device.leadoff_sense_positive_request(), [0x2F, 0x00, 0xA5]);
    assert_eq!(device.leadoff_sense_negative_request(), [0x30, 0x00, 0xA5]);
    assert_eq!(device.leadoff_flip_request(), [0x31, 0x00, 0xA5]);
    assert_eq!(device.gpio_request(), [0x34, 0x00, 0xA5]);
    assert_eq!(device.misc_config_request(), [0x37, 0x00, 0xA5]);

    let config = device.config(Ok::<[u8; 3], ()>([0x00, 0x00, 0b0110_0100])).unwrap();
    assert_eq!(
        config,
        Config {
            mode: Mode::LowPower(SampleRateLP::KSps1),
            osc_clock_output: true,
            daisy_chain: false,
        }
    );
    let chan = device.chan_3(Ok::<[u8; 3], ()>([0x12, 0x34, 0b0100_0000])).unwrap();
    assert_eq!(
        chan,
        Chan::PowerUp {
            gain: ChannelGain::X4,
            input: ChannelInput::Normal
        }
    );
    assert!(matches!(
        device.chan_3(Ok::<[u8; 3], ()>([0x00, 0x00, 0x70])),
        Err(Ads129xError::ReadInterpret(0x70))
    ));
    assert!(matches!(
        device.gpio(Err::<[u8; 3], u8>(3)),
        Err(Ads129xError::Spi(3))
    ));
    let error: Ads129xError<u8> = Ads129xError::from(9u8);
    assert!(matches!(error, Ads129xError::Spi(9)));
}
