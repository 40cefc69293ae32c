//! The four to eight channel family: ADS1294, ADS1296, ADS1298 and their R
//! variants.

pub mod chan;
pub mod conf;
pub mod gpio;
pub mod loff;

use crate::command::ADDRESS_SPACE;
use crate::{
    read_outcome, read_request, read_words, write_request, write_words, Ads1298Family, Ads129x,
    Ads129xError, Ads129xResult,
};
use vstd::prelude::*;
use vstd::std_specs::convert::{FromSpec, TryFromSpec};

verus! {

/// Register map description
#[allow(non_camel_case_types)]
#[derive(Debug, Clone, Copy, PartialEq, Eq, Structural)]
pub enum Register {
    /// ID Control Register (Factory-Programmed, Read-Only)
    ID,
    /// Configuration Register 1
    CONFIG1,
    /// Configuration Register 2
    CONFIG2,
    /// Configuration Register 3
    CONFIG3,
    /// Lead-Off Control Register
    LOFF,
    /// Channel 1 Settings
    CH1SET,
    /// Channel 2 Settings
    CH2SET,
    /// Channel 3 Settings
    CH3SET,
    /// Channel 4 Settings
    CH4SET,
    /// Channel 5 Settings
    CH5SET,
    /// Channel 6 Settings
    CH6SET,
    /// Channel 7 Settings
    CH7SET,
    /// Channel 8 Settings
    CH8SET,
    /// Right Leg Drive Positive Sense Selection
    RLD_SENSP,
    /// Right Leg Drive Negative Sense Selection
    RLD_SENSN,
    /// Lead-Off Positive Sense Selection
    LOFF_SENSP,
    /// Lead-Off Negative Sense Selection
    LOFF_SENSN,
    /// Lead-off Flip
    LOFF_FLIP,
    /// Lead-Off Positive Signal Status
    LOFF_STATP,
    /// Lead-Off Negative Signal Status
    LOFF_STATN,
    /// General-Purpose I/O Register
    GPIO,
    /// Pace Detect Register
    PACE,
    /// Respiration Control Register
    RESP,
    /// Configuration Register 4
    CONFIG4,
    /// Wilson Central Terminal and Augmented Lead Control Register 1
    WCT1,
    /// Wilson Central Terminal and Augmented Lead Control Register 2
    WCT2,
}

/// Highest register address of the family.
pub const LAST_ADDRESS: u8 = 0x19;

impl Register {
    /// The address of the register.
    pub open spec fn spec_addr(self) -> u8 {
        match self {
            Register::ID => 0x00,
            Register::CONFIG1 => 0x01,
            Register::CONFIG2 => 0x02,
            Register::CONFIG3 => 0x03,
            Register::LOFF => 0x04,
            Register::CH1SET => 0x05,
            Register::CH2SET => 0x06,
            Register::CH3SET => 0x07,
            Register::CH4SET => 0x08,
            Register::CH5SET => 0x09,
            Register::CH6SET => 0x0A,
            Register::CH7SET => 0x0B,
            Register::CH8SET => 0x0C,
            Register::RLD_SENSP => 0x0D,
            Register::RLD_SENSN => 0x0E,
            Register::LOFF_SENSP => 0x0F,
            Register::LOFF_SENSN => 0x10,
            Register::LOFF_FLIP => 0x11,
            Register::LOFF_STATP => 0x12,
            Register::LOFF_STATN => 0x13,
            Register::GPIO => 0x14,
            Register::PACE => 0x15,
            Register::RESP => 0x16,
            Register::CONFIG4 => 0x17,
            Register::WCT1 => 0x18,
            Register::WCT2 => 0x19,
        }
    }

    /// The address of the register. It lies in the register range of the
    /// family, and so in the five bits that a command byte has for it.
    #[verifier::when_used_as_spec(spec_addr)]
    pub fn addr(self) -> (address: u8)
        ensures
            address == self.spec_addr(),
            address <= LAST_ADDRESS,
            address < ADDRESS_SPACE,
    {
        match self {
            Register::ID => 0x00,
            Register::CONFIG1 => 0x01,
            Register::CONFIG2 => 0x02,
            Register::CONFIG3 => 0x03,
            Register::LOFF => 0x04,
            Register::CH1SET => 0x05,
            Register::CH2SET => 0x06,
            Register::CH3SET => 0x07,
            Register::CH4SET => 0x08,
            Register::CH5SET => 0x09,
            Register::CH6SET => 0x0A,
            Register::CH7SET => 0x0B,
            Register::CH8SET => 0x0C,
            Register::RLD_SENSP => 0x0D,
            Register::RLD_SENSN => 0x0E,
            Register::LOFF_SENSP => 0x0F,
            Register::LOFF_SENSN => 0x10,
            Register::LOFF_FLIP => 0x11,
            Register::LOFF_STATP => 0x12,
            Register::LOFF_STATN => 0x13,
            Register::GPIO => 0x14,
            Register::PACE => 0x15,
            Register::RESP => 0x16,
            Register::CONFIG4 => 0x17,
            Register::WCT1 => 0x18,
            Register::WCT2 => 0x19,
        }
    }
}

/// Register access of a device of this family. Each read comes in two
/// parts: the bytes to exchange, and the meaning of the reply.
impl<SPI, NCS, const CH: usize> Ads129x<SPI, NCS, Ads1298Family, CH> {
    /// Read register CONFIG1: the bytes of the transaction.
    pub fn config_request(&self) -> (words: [u8; 3])
        ensures
            words@ == read_words(Register::CONFIG1.spec_addr()),
            words[0] == 0x20 + Register::CONFIG1.spec_addr(),
    {
        read_request(Register::CONFIG1.addr())
    }

    /// Read register CONFIG1: the configuration that the reply to
    /// [`Self::config_request`] holds.
    pub fn config<E>(&self, reply: Result<[u8; 3], E>) -> (param: Ads129xResult<conf::Config, E>)
        ensures
            param == read_outcome(reply, |raw: u8| conf::Config::try_from_spec(conf::Config1Reg(raw))),
    {
        match reply {
            Err(e) => Err(Ads129xError::Spi(e)),
            Ok(words) => match conf::Config::try_from(conf::Config1Reg(words[2])) {
                Ok(param) => Ok(param),
                Err(raw) => Err(Ads129xError::ReadInterpret(raw)),
            },
        }
    }

    /// Write register CONFIG1: the bytes of the transaction.
    pub fn set_config(&self, param: conf::Config) -> (words: [u8; 3])
        ensures
            words@ == write_words(Register::CONFIG1.spec_addr(), conf::Config1Reg::from_spec(param).0),
            words[0] == 0x40 + Register::CONFIG1.spec_addr(),
    {
        write_request(Register::CONFIG1.addr(), conf::Config1Reg::from(param).0)
    }

    /// Read register CONFIG2: the bytes of the transaction.
    pub fn test_signal_config_request(&self) -> (words: [u8; 3])
        ensures
            words@ == read_words(Register::CONFIG2.spec_addr()),
            words[0] == 0x20 + Register::CONFIG2.spec_addr(),
    {
        read_request(Register::CONFIG2.addr())
    }

    /// Read register CONFIG2: the test signal configuration that the reply to
    /// [`Self::test_signal_config_request`] holds.
    pub fn test_signal_config<E>(&self, reply: Result<[u8; 3], E>) -> (param: Ads129xResult<conf::TestSignalConfig, E>)
        ensures
            param == read_outcome(reply, |raw: u8| conf::TestSignalConfig::try_from_spec(conf::Config2Reg(raw))),
    {
        match reply {
            Err(e) => Err(Ads129xError::Spi(e)),
            Ok(words) => match conf::TestSignalConfig::try_from(conf::Config2Reg(words[2])) {
                Ok(param) => Ok(param),
                Err(raw) => Err(Ads129xError::ReadInterpret(raw)),
            },
        }
    }

    /// Write register CONFIG2: the bytes of the transaction.
    pub fn set_test_signal_config(&self, param: conf::TestSignalConfig) -> (words: [u8; 3])
        ensures
            words@ == write_words(Register::CONFIG2.spec_addr(), conf::Config2Reg::from_spec(param).0),
            words[0] == 0x40 + Register::CONFIG2.spec_addr(),
    {
        write_request(Register::CONFIG2.addr(), conf::Config2Reg::from(param).0)
    }

    /// Read register CONFIG3: the bytes of the transaction.
    pub fn test_rld_config_request(&self) -> (words: [u8; 3])
        ensures
            words@ == read_words(Register::CONFIG3.spec_addr()),
            words[0] == 0x20 + Register::CONFIG3.spec_addr(),
    {
        read_request(Register::CONFIG3.addr())
    }

    /// Read register CONFIG3: the RLD configuration that the reply to
    /// [`Self::test_rld_config_request`] holds.
    pub fn test_rld_config<E>(&self, reply: Result<[u8; 3], E>) -> (param: Ads129xResult<conf::RldConfig, E>)
        ensures
            param == read_outcome(reply, |raw: u8| conf::RldConfig::try_from_spec(conf::Config3Reg(raw))),
    {
        match reply {
            Err(e) => Err(Ads129xError::Spi(e)),
            Ok(words) => match conf::RldConfig::try_from(conf::Config3Reg(words[2])) {
                Ok(param) => Ok(param),
                Err(raw) => Err(Ads129xError::ReadInterpret(raw)),
            },
        }
    }

    /// Write register CONFIG3: the bytes of the transaction.
    pub fn set_rld_config(&self, param: conf::RldConfig) -> (words: [u8; 3])
        ensures
            words@ == write_words(Register::CONFIG3.spec_addr(), conf::Config3Reg::from_spec(param).0),
            words[0] == 0x40 + Register::CONFIG3.spec_addr(),
    {
        write_request(Register::CONFIG3.addr(), conf::Config3Reg::from(param).0)
    }

    /// Read register LOFF: the bytes of the transaction.
    pub fn leadoff_control_request(&self) -> (words: [u8; 3])
        ensures
            words@ == read_words(Register::LOFF.spec_addr()),
            words[0] == 0x20 + Register::LOFF.spec_addr(),
    {
        read_request(Register::LOFF.addr())
    }

    /// Read register LOFF: the lead-off configuration that the reply to
    /// [`Self::leadoff_control_request`] holds.
    pub fn leadoff_control<E>(&self, reply: Result<[u8; 3], E>) -> (param: Ads129xResult<loff::LeadOffControl, E>)
        ensures
            param == read_outcome(reply, |raw: u8| loff::LeadOffControl::try_from_spec(loff::LeadOffControlReg(raw))),
    {
        match reply {
            Err(e) => Err(Ads129xError::Spi(e)),
            Ok(words) => match loff::LeadOffControl::try_from(loff::LeadOffControlReg(words[2])) {
                Ok(param) => Ok(param),
                Err(raw) => Err(Ads129xError::ReadInterpret(raw)),
            },
        }
    }

    /// Write register LOFF: the bytes of the transaction.
    pub fn set_leadoff_control(&self, param: loff::LeadOffControl) -> (words: [u8; 3])
        ensures
            words@ == write_words(Register::LOFF.spec_addr(), loff::LeadOffControlReg::from_spec(param).0),
            words[0] == 0x40 + Register::LOFF.spec_addr(),
    {
        write_request(Register::LOFF.addr(), loff::LeadOffControlReg::from(param).0)
    }

    /// Read register CH1SET: the bytes of the transaction.
    pub fn chan_1_request(&self) -> (words: [u8; 3])
        ensures
            words@ == read_words(Register::CH1SET.spec_addr()),
            words[0] == 0x20 + Register::CH1SET.spec_addr(),
    {
        read_request(Register::CH1SET.addr())
    }

    /// Read register CH1SET: the settings of channel 1 that the reply to
    /// [`Self::chan_1_request`] holds.
    pub fn chan_1<E>(&self, reply: Result<[u8; 3], E>) -> (param: Ads129xResult<chan::Chan, E>)
        ensures
            param == read_outcome(reply, |raw: u8| chan::Chan::try_from_spec(chan::ChanSetReg(raw))),
    {
        match reply {
            Err(e) => Err(Ads129xError::Spi(e)),
            Ok(words) => match chan::Chan::try_from(chan::ChanSetReg(words[2])) {
                Ok(param) => Ok(param),
                Err(raw) => Err(Ads129xError::ReadInterpret(raw)),
            },
        }
    }

    /// Write register CH1SET: the bytes of the transaction.
    pub fn set_chan_1(&self, param: chan::Chan) -> (words: [u8; 3])
        ensures
            words@ == write_words(Register::CH1SET.spec_addr(), chan::ChanSetReg::from_spec(param).0),
            words[0] == 0x40 + Register::CH1SET.spec_addr(),
    {
        write_request(Register::CH1SET.addr(), chan::ChanSetReg::from(param).0)
    }

    /// Read register CH2SET: the bytes of the transaction.
    pub fn chan_2_request(&self) -> (words: [u8; 3])
        ensures
            words@ == read_words(Register::CH2SET.spec_addr()),
            words[0] == 0x20 + Register::CH2SET.spec_addr(),
    {
        read_request(Register::CH2SET.addr())
    }

    /// Read register CH2SET: the settings of channel 2 that the reply to
    /// [`Self::chan_2_request`] holds.
    pub fn chan_2<E>(&self, reply: Result<[u8; 3], E>) -> (param: Ads129xResult<chan::Chan, E>)
        ensures
            param == read_outcome(reply, |raw: u8| chan::Chan::try_from_spec(chan::ChanSetReg(raw))),
    {
        match reply {
            Err(e) => Err(Ads129xError::Spi(e)),
            Ok(words) => match chan::Chan::try_from(chan::ChanSetReg(words[2])) {
                Ok(param) => Ok(param),
                Err(raw) => Err(Ads129xError::ReadInterpret(raw)),
            },
        }
    }

    /// Write register CH2SET: the bytes of the transaction.
    pub fn set_chan_2(&self, param: chan::Chan) -> (words: [u8; 3])
        ensures
            words@ == write_words(Register::CH2SET.spec_addr(), chan::ChanSetReg::from_spec(param).0),
            words[0] == 0x40 + Register::CH2SET.spec_addr(),
    {
        write_request(Register::CH2SET.addr(), chan::ChanSetReg::from(param).0)
    }

    /// Read register CH3SET: the bytes of the transaction.
    pub fn chan_3_request(&self) -> (words: [u8; 3])
        ensures
            words@ == read_words(Register::CH3SET.spec_addr()),
            words[0] == 0x20 + Register::CH3SET.spec_addr(),
    {
        read_request(Register::CH3SET.addr())
    }

    /// Read register CH3SET: the settings of channel 3 that the reply to
    /// [`Self::chan_3_request`] holds.
    pub fn chan_3<E>(&self, reply: Result<[u8; 3], E>) -> (param: Ads129xResult<chan::Chan, E>)
        ensures
            param == read_outcome(reply, |raw: u8| chan::Chan::try_from_spec(chan::ChanSetReg(raw))),
    {
        match reply {
            Err(e) => Err(Ads129xError::Spi(e)),
            Ok(words) => match chan::Chan::try_from(chan::ChanSetReg(words[2])) {
                Ok(param) => Ok(param),
                Err(raw) => Err(Ads129xError::ReadInterpret(raw)),
            },
        }
    }

    /// Write register CH3SET: the bytes of the transaction.
    pub fn set_chan_3(&self, param: chan::Chan) -> (words: [u8; 3])
        ensures
            words@ == write_words(Register::CH3SET.spec_addr(), chan::ChanSetReg::from_spec(param).0),
            words[0] == 0x40 + Register::CH3SET.spec_addr(),
    {
        write_request(Register::CH3SET.addr(), chan::ChanSetReg::from(param).0)
    }

    /// Read register CH4SET: the bytes of the transaction.
    pub fn chan_4_request(&self) -> (words: [u8; 3])
        ensures
            words@ == read_words(Register::CH4SET.spec_addr()),
            words[0] == 0x20 + Register::CH4SET.spec_addr(),
    {
        read_request(Register::CH4SET.addr())
    }

    /// Read register CH4SET: the settings of channel 4 that the reply to
    /// [`Self::chan_4_request`] holds.
    pub fn chan_4<E>(&self, reply: Result<[u8; 3], E>) -> (param: Ads129xResult<chan::Chan, E>)
        ensures
            param == read_outcome(reply, |raw: u8| chan::Chan::try_from_spec(chan::ChanSetReg(raw))),
    {
        match reply {
            Err(e) => Err(Ads129xError::Spi(e)),
            Ok(words) => match chan::Chan::try_from(chan::ChanSetReg(words[2])) {
                Ok(param) => Ok(param),
                Err(raw) => Err(Ads129xError::ReadInterpret(raw)),
            },
        }
    }

    /// Write register CH4SET: the bytes of the transaction.
    pub fn set_chan_4(&self, param: chan::Chan) -> (words: [u8; 3])
        ensures
            words@ == write_words(Register::CH4SET.spec_addr(), chan::ChanSetReg::from_spec(param).0),
            words[0] == 0x40 + Register::CH4SET.spec_addr(),
    {
        write_request(Register::CH4SET.addr(), chan::ChanSetReg::from(param).0)
    }

    /// Read register CH5SET: the bytes of the transaction.
    pub fn chan_5_request(&self) -> (words: [u8; 3])
        ensures
            words@ == read_words(Register::CH5SET.spec_addr()),
            words[0] == 0x20 + Register::CH5SET.spec_addr(),
    {
        read_request(Register::CH5SET.addr())
    }

    /// Read register CH5SET: the settings of channel 5 that the reply to
    /// [`Self::chan_5_request`] holds.
    pub fn chan_5<E>(&self, reply: Result<[u8; 3], E>) -> (param: Ads129xResult<chan::Chan, E>)
        ensures
            param == read_outcome(reply, |raw: u8| chan::Chan::try_from_spec(chan::ChanSetReg(raw))),
    {
        match reply {
            Err(e) => Err(Ads129xError::Spi(e)),
            Ok(words) => match chan::Chan::try_from(chan::ChanSetReg(words[2])) {
                Ok(param) => Ok(param),
                Err(raw) => Err(Ads129xError::ReadInterpret(raw)),
            },
        }
    }

    /// Write register CH5SET: the bytes of the transaction.
    pub fn set_chan_5(&self, param: chan::Chan) -> (words: [u8; 3])
        ensures
            words@ == write_words(Register::CH5SET.spec_addr(), chan::ChanSetReg::from_spec(param).0),
            words[0] == 0x40 + Register::CH5SET.spec_addr(),
    {
        write_request(Register::CH5SET.addr(), chan::ChanSetReg::from(param).0)
    }

    /// Read register CH6SET: the bytes of the transaction.
    pub fn chan_6_request(&self) -> (words: [u8; 3])
        ensures
            words@ == read_words(Register::CH6SET.spec_addr()),
            words[0] == 0x20 + Register::CH6SET.spec_addr(),
    {
        read_request(Register::CH6SET.addr())
    }

    /// Read register CH6SET: the settings of channel 6 that the reply to
    /// [`Self::chan_6_request`] holds.
    pub fn chan_6<E>(&self, reply: Result<[u8; 3], E>) -> (param: Ads129xResult<chan::Chan, E>)
        ensures
            param == read_outcome(reply, |raw: u8| chan::Chan::try_from_spec(chan::ChanSetReg(raw))),
    {
        match reply {
            Err(e) => Err(Ads129xError::Spi(e)),
            Ok(words) => match chan::Chan::try_from(chan::ChanSetReg(words[2])) {
                Ok(param) => Ok(param),
                Err(raw) => Err(Ads129xError::ReadInterpret(raw)),
            },
        }
    }

    /// Write register CH6SET: the bytes of the transaction.
    pub fn set_chan_6(&self, param: chan::Chan) -> (words: [u8; 3])
        ensures
            words@ == write_words(Register::CH6SET.spec_addr(), chan::ChanSetReg::from_spec(param).0),
            words[0] == 0x40 + Register::CH6SET.spec_addr(),
    {
        write_request(Register::CH6SET.addr(), chan::ChanSetReg::from(param).0)
    }

    /// Read register CH7SET: the bytes of the transaction.
    pub fn chan_7_request(&self) -> (words: [u8; 3])
        ensures
            words@ == read_words(Register::CH7SET.spec_addr()),
            words[0] == 0x20 + Register::CH7SET.spec_addr(),
    {
        read_request(Register::CH7SET.addr())
    }

    /// Read register CH7SET: the settings of channel 7 that the reply to
    /// [`Self::chan_7_request`] holds.
    pub fn chan_7<E>(&self, reply: Result<[u8; 3], E>) -> (param: Ads129xResult<chan::Chan, E>)
        ensures
            param == read_outcome(reply, |raw: u8| chan::Chan::try_from_spec(chan::ChanSetReg(raw))),
    {
        match reply {
            Err(e) => Err(Ads129xError::Spi(e)),
            Ok(words) => match chan::Chan::try_from(chan::ChanSetReg(words[2])) {
                Ok(param) => Ok(param),
                Err(raw) => Err(Ads129xError::ReadInterpret(raw)),
            },
        }
    }

    /// Write register CH7SET: the bytes of the transaction.
    pub fn set_chan_7(&self, param: chan::Chan) -> (words: [u8; 3])
        ensures
            words@ == write_words(Register::CH7SET.spec_addr(), chan::ChanSetReg::from_spec(param).0),
            words[0] == 0x40 + Register::CH7SET.spec_addr(),
    {
        write_request(Register::CH7SET.addr(), chan::ChanSetReg::from(param).0)
    }

    /// Read register CH8SET: the bytes of the transaction.
    pub fn chan_8_request(&self) -> (words: [u8; 3])
        ensures
            words@ == read_words(Register::CH8SET.spec_addr()),
            words[0] == 0x20 + Register::CH8SET.spec_addr(),
    {
        read_request(Register::CH8SET.addr())
    }

    /// Read register CH8SET: the settings of channel 8 that the reply to
    /// [`Self::chan_8_request`] holds.
    pub fn chan_8<E>(&self, reply: Result<[u8; 3], E>) -> (param: Ads129xResult<chan::Chan, E>)
        ensures
            param == read_outcome(reply, |raw: u8| chan::Chan::try_from_spec(chan::ChanSetReg(raw))),
    {
        match reply {
            Err(e) => Err(Ads129xError::Spi(e)),
            Ok(words) => match chan::Chan::try_from(chan::ChanSetReg(words[2])) {
                Ok(param) => Ok(param),
                Err(raw) => Err(Ads129xError::ReadInterpret(raw)),
            },
        }
    }

    /// Write register CH8SET: the bytes of the transaction.
    pub fn set_chan_8(&self, param: chan::Chan) -> (words: [u8; 3])
        ensures
            words@ == write_words(Register::CH8SET.spec_addr(), chan::ChanSetReg::from_spec(param).0),
            words[0] == 0x40 + Register::CH8SET.spec_addr(),
    {
        write_request(Register::CH8SET.addr(), chan::ChanSetReg::from(param).0)
    }

    /// Read register LOFF_SENSP: the bytes of the transaction.
    pub fn leadoff_sense_positive_request(&self) -> (words: [u8; 3])
        ensures
            words@ == read_words(Register::LOFF_SENSP.spec_addr()),
            words[0] == 0x20 + Register::LOFF_SENSP.spec_addr(),
    {
        read_request(Register::LOFF_SENSP.addr())
    }

    /// Read register LOFF_SENSP: the sense setup of the positive inputs that the reply to
    /// [`Self::leadoff_sense_positive_request`] holds.
    pub fn leadoff_sense_positive<E>(&self, reply: Result<[u8; 3], E>) -> (param: Ads129xResult<loff::LeadOffSense, E>)
        ensures
            param == read_outcome(reply, |raw: u8| loff::LeadOffSense::try_from_spec(loff::LeadOffSenseReg(raw))),
    {
        match reply {
            Err(e) => Err(Ads129xError::Spi(e)),
            Ok(words) => match loff::LeadOffSense::try_from(loff::LeadOffSenseReg(words[2])) {
                Ok(param) => Ok(param),
                Err(raw) => Err(Ads129xError::ReadInterpret(raw)),
            },
        }
    }

    /// Write register LOFF_SENSP: the bytes of the transaction.
    pub fn set_leadoff_sense_positive(&self, param: loff::LeadOffSense) -> (words: [u8; 3])
        ensures
            words@ == write_words(Register::LOFF_SENSP.spec_addr(), loff::LeadOffSenseReg::from_spec(param).0),
            words[0] == 0x40 + Register::LOFF_SENSP.spec_addr(),
    {
        write_request(Register::LOFF_SENSP.addr(), loff::LeadOffSenseReg::from(param).0)
    }

    /// Read register LOFF_SENSN: the bytes of the transaction.
    pub fn leadoff_sense_negative_request(&self) -> (words: [u8; 3])
        ensures
            words@ == read_words(Register::LOFF_SENSN.spec_addr()),
            words[0] == 0x20 + Register::LOFF_SENSN.spec_addr(),
    {
        read_request(Register::LOFF_SENSN.addr())
    }

    /// Read register LOFF_SENSN: the sense setup of the negative inputs that the reply to
    /// [`Self::leadoff_sense_negative_request`] holds.
    pub fn leadoff_sense_negative<E>(&self, reply: Result<[u8; 3], E>) -> (param: Ads129xResult<loff::LeadOffSense, E>)
        ensures
            param == read_outcome(reply, |raw: u8| loff::LeadOffSense::try_from_spec(loff::LeadOffSenseReg(raw))),
    {
        match reply {
            Err(e) => Err(Ads129xError::Spi(e)),
            Ok(words) => match loff::LeadOffSense::try_from(loff::LeadOffSenseReg(words[2])) {
                Ok(param) => Ok(param),
                Err(raw) => Err(Ads129xError::ReadInterpret(raw)),
            },
        }
    }

    /// Write register LOFF_SENSN: the bytes of the transaction.
    pub fn set_leadoff_sense_negative(&self, param: loff::LeadOffSense) -> (words: [u8; 3])
        ensures
            words@ == write_words(Register::LOFF_SENSN.spec_addr(), loff::LeadOffSenseReg::from_spec(param).0),
            words[0] == 0x40 + Register::LOFF_SENSN.spec_addr(),
    {
        write_request(Register::LOFF_SENSN.addr(), loff::LeadOffSenseReg::from(param).0)
    }

    /// Read register LOFF_FLIP: the bytes of the transaction.
    pub fn leadoff_flip_request(&self) -> (words: [u8; 3])
        ensures
            words@ == read_words(Register::LOFF_FLIP.spec_addr()),
            words[0] == 0x20 + Register::LOFF_FLIP.spec_addr(),
    {
        read_request(Register::LOFF_FLIP.addr())
    }

    /// Read register LOFF_FLIP: the polarity flips that the reply to
    /// [`Self::leadoff_flip_request`] holds.
    pub fn leadoff_flip<E>(&self, reply: Result<[u8; 3], E>) -> (param: Ads129xResult<loff::LeadOffFlip, E>)
        ensures
            param == read_outcome(reply, |raw: u8| loff::LeadOffFlip::try_from_spec(loff::LeadOffFlipReg(raw))),
    {
        match reply {
            Err(e) => Err(Ads129xError::Spi(e)),
            Ok(words) => match loff::LeadOffFlip::try_from(loff::LeadOffFlipReg(words[2])) {
                Ok(param) => Ok(param),
                Err(raw) => Err(Ads129xError::ReadInterpret(raw)),
            },
        }
    }

    /// Write register LOFF_FLIP: the bytes of the transaction.
    pub fn set_leadoff_flip(&self, param: loff::LeadOffFlip) -> (words: [u8; 3])
        ensures
            words@ == write_words(Register::LOFF_FLIP.spec_addr(), loff::LeadOffFlipReg::from_spec(param).0),
            words[0] == 0x40 + Register::LOFF_FLIP.spec_addr(),
    {
        write_request(Register::LOFF_FLIP.addr(), loff::LeadOffFlipReg::from(param).0)
    }

    /// Read register GPIO: the bytes of the transaction.
    pub fn gpio_request(&self) -> (words: [u8; 3])
        ensures
            words@ == read_words(Register::GPIO.spec_addr()),
            words[0] == 0x20 + Register::GPIO.spec_addr(),
    {
        read_request(Register::GPIO.addr())
    }

    /// Read register GPIO: the GPIO configuration that the reply to
    /// [`Self::gpio_request`] holds.
    pub fn gpio<E>(&self, reply: Result<[u8; 3], E>) -> (param: Ads129xResult<gpio::Gpio, E>)
        ensures
            param == read_outcome(reply, |raw: u8| gpio::Gpio::try_from_spec(gpio::GpioReg(raw))),
    {
        match reply {
            Err(e) => Err(Ads129xError::Spi(e)),
            Ok(words) => match gpio::Gpio::try_from(gpio::GpioReg(words[2])) {
                Ok(param) => Ok(param),
                Err(raw) => Err(Ads129xError::ReadInterpret(raw)),
            },
        }
    }

    /// Write register GPIO: the bytes of the transaction.
    pub fn set_gpio(&self, param: gpio::Gpio) -> (words: [u8; 3])
        ensures
            words@ == write_words(Register::GPIO.spec_addr(), gpio::GpioReg::from_spec(param).0),
            words[0] == 0x40 + Register::GPIO.spec_addr(),
    {
        write_request(Register::GPIO.addr(), gpio::GpioReg::from(param).0)
    }

    /// Read register CONFIG4: the bytes of the transaction.
    pub fn misc_config_request(&self) -> (words: [u8; 3])
        ensures
            words@ == read_words(Register::CONFIG4.spec_addr()),
            words[0] == 0x20 + Register::CONFIG4.spec_addr(),
    {
        read_request(Register::CONFIG4.addr())
    }

    /// Read register CONFIG4: the configuration that the reply to
    /// [`Self::misc_config_request`] holds.
    pub fn misc_config<E>(&self, reply: Result<[u8; 3], E>) -> (param: Ads129xResult<conf::MiscConfig, E>)
        ensures
            param == read_outcome(reply, |raw: u8| conf::MiscConfig::try_from_spec(conf::Config4Reg(raw))),
    {
        match reply {
            Err(e) => Err(Ads129xError::Spi(e)),
            Ok(words) => match conf::MiscConfig::try_from(conf::Config4Reg(words[2])) {
                Ok(param) => Ok(param),
                Err(raw) => Err(Ads129xError::ReadInterpret(raw)),
            },
        }
    }

    /// Write register CONFIG4: the bytes of the transaction.
    pub fn set_misc_config(&self, param: conf::MiscConfig) -> (words: [u8; 3])
        ensures
            words@ == write_words(Register::CONFIG4.spec_addr(), conf::Config4Reg::from_spec(param).0),
            words[0] == 0x40 + Register::CONFIG4.spec_addr(),
    {
        write_request(Register::CONFIG4.addr(), conf::Config4Reg::from(param).0)
    }
}

} // verus!
