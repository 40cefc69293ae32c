//! The one and two channel family: ADS1291, ADS1292, ADS1292R.

pub mod chan;
pub mod conf;
pub mod loff;
pub mod resp;

use crate::bits::{bit, bit_of, bit_range, bits_of, set_bit, set_bit_range, with_bit, with_bits};
use crate::command::ADDRESS_SPACE;
use crate::{
    read_outcome, read_request, read_words, write_request, write_words, Ads1292Family, Ads129x,
    Ads129xError, Ads129xResult,
};
use vstd::prelude::*;
use vstd::std_specs::convert::{FromSpec, TryFromSpec};

verus! {

/// Register map description
#[allow(non_camel_case_types)]
#[derive(Debug, Clone, Copy, PartialEq, Eq, Structural)]
pub enum Register {
    /// ID Control Register (Factory-Programmed, Read-Only)
    ID,
    /// Configuration Register 1
    CONFIG1,
    /// Configuration Register 2
    CONFIG2,
    /// Lead-Off Control Register
    LOFF,
    /// Channel 1 Settings
    CH1SET,
    /// Channel 2 Settings
    CH2SET,
    /// Right Leg Drive Sense Selection
    RLD_SENS,
    /// Lead-Off Sense Selection
    LOFF_SENS,
    /// Lead-Off Status
    LOFF_STAT,
    /// Respiration Control Register 1
    RESP1,
    /// Respiration Control Register 2
    RESP2,
    /// General-Purpose I/O Register
    GPIO,
}

/// Highest register address of the family.
pub const LAST_ADDRESS: u8 = 0x0B;

impl Register {
    /// The address of the register.
    pub open spec fn spec_addr(self) -> u8 {
        match self {
            Register::ID => 0x00,
            Register::CONFIG1 => 0x01,
            Register::CONFIG2 => 0x02,
            Register::LOFF => 0x03,
            Register::CH1SET => 0x04,
            Register::CH2SET => 0x05,
            Register::RLD_SENS => 0x06,
            Register::LOFF_SENS => 0x07,
            Register::LOFF_STAT => 0x08,
            Register::RESP1 => 0x09,
            Register::RESP2 => 0x0A,
            Register::GPIO => 0x0B,
        }
    }

    /// The address of the register. It lies in the register range of the
    /// family, and so in the five bits that a command byte has for it.
    #[verifier::when_used_as_spec(spec_addr)]
    pub fn addr(self) -> (address: u8)
        ensures
            address == self.spec_addr(),
            address <= LAST_ADDRESS,
            address < ADDRESS_SPACE,
    {
        match self {
            Register::ID => 0x00,
            Register::CONFIG1 => 0x01,
            Register::CONFIG2 => 0x02,
            Register::LOFF => 0x03,
            Register::CH1SET => 0x04,
            Register::CH2SET => 0x05,
            Register::RLD_SENS => 0x06,
            Register::LOFF_SENS => 0x07,
            Register::LOFF_STAT => 0x08,
            Register::RESP1 => 0x09,
            Register::RESP2 => 0x0A,
            Register::GPIO => 0x0B,
        }
    }
}

/// PGA chop frequency
#[derive(Debug, Clone, Copy, PartialEq, Eq, Structural)]
pub enum ChopFrequency {
    FmodDiv16,
    FmodDiv2,
    FmodDiv4,
    Unknown,
}

impl ChopFrequency {
    /// The field value that selects this member.
    pub open spec fn spec_bits(self) -> u8 {
        match self {
            ChopFrequency::FmodDiv16 => 0b00,
            ChopFrequency::FmodDiv2 => 0b10,
            ChopFrequency::FmodDiv4 => 0b11,
            ChopFrequency::Unknown => 0b01,
        }
    }

    /// The field value that selects this member.
    #[verifier::when_used_as_spec(spec_bits)]
    pub fn bits(self) -> (raw: u8)
        ensures
            raw == self.spec_bits(),
    {
        match self {
            ChopFrequency::FmodDiv16 => 0b00,
            ChopFrequency::FmodDiv2 => 0b10,
            ChopFrequency::FmodDiv4 => 0b11,
            ChopFrequency::Unknown => 0b01,
        }
    }
}

/// Right leg drive sense selection register (address 0x06)
///
/// Controls the selection of the positive and negative signals from each channel for right leg
/// drive derivation.
#[derive(Clone, Copy, PartialEq, Eq)]
pub struct RLDSenseSelection(pub u8);

impl RLDSenseSelection {
    /// Determines the PGA chop frequency.
    pub fn chop(&self) -> (value: u8)
        ensures
            value == bits_of(self.0 as int, 7, 6),
    {
        bit_range(self.0, 7, 6)
    }

    /// Sets bits 7..=6, the field that [`Self::chop`] reads.
    pub fn set_chop(&mut self, value: u8)
        ensures
            final(self).0 == with_bits(old(self).0 as int, 7, 6, value as int),
    {
        self.0 = set_bit_range(self.0, 7, 6, value);
    }

    /// Enable the RLD buffer power.
    pub fn pdb_rld(&self) -> (value: bool)
        ensures
            value == bit_of(self.0 as int, 5),
    {
        bit(self.0, 5)
    }

    /// Sets bit 5, the field that [`Self::pdb_rld`] reads.
    pub fn set_pbd_rld(&mut self, value: bool)
        ensures
            final(self).0 == with_bit(old(self).0 as int, 5, value),
    {
        self.0 = set_bit(self.0, 5, value);
    }

    /// Enable the RLD lead-off sense function.
    pub fn rld_loff_sense(&self) -> (value: bool)
        ensures
            value == bit_of(self.0 as int, 4),
    {
        bit(self.0, 4)
    }

    /// Sets bit 4, the field that [`Self::rld_loff_sense`] reads.
    pub fn set_rld_loff_sense(&mut self, value: bool)
        ensures
            final(self).0 == with_bit(old(self).0 as int, 4, value),
    {
        self.0 = set_bit(self.0, 4, value);
    }

    /// Controls the selection of negative inputs from channel 2 for right leg drive derivation.
    pub fn rld2n(&self) -> (value: bool)
        ensures
            value == bit_of(self.0 as int, 3),
    {
        bit(self.0, 3)
    }

    /// Sets bit 3, the field that [`Self::rld2n`] reads.
    pub fn set_rld2n(&mut self, value: bool)
        ensures
            final(self).0 == with_bit(old(self).0 as int, 3, value),
    {
        self.0 = set_bit(self.0, 3, value);
    }

    /// Controls the selection of positive inputs from channel 2 for right leg drive derivation.
    pub fn rld2p(&self) -> (value: bool)
        ensures
            value == bit_of(self.0 as int, 2),
    {
        bit(self.0, 2)
    }

    /// Sets bit 2, the field that [`Self::rld2p`] reads.
    pub fn set_rld2p(&mut self, value: bool)
        ensures
            final(self).0 == with_bit(old(self).0 as int, 2, value),
    {
        self.0 = set_bit(self.0, 2, value);
    }

    /// Controls the selection of negative inputs from channel 1 for right leg drive derivation.
    pub fn rld1n(&self) -> (value: bool)
        ensures
            value == bit_of(self.0 as int, 1),
    {
        bit(self.0, 1)
    }

    /// Sets bit 1, the field that [`Self::rld1n`] reads.
    pub fn set_rld1n(&mut self, value: bool)
        ensures
            final(self).0 == with_bit(old(self).0 as int, 1, value),
    {
        self.0 = set_bit(self.0, 1, value);
    }

    /// Controls the selection of positive inputs from channel 1 for right leg drive derivation.
    pub fn rld1p(&self) -> (value: bool)
        ensures
            value == bit_of(self.0 as int, 0),
    {
        bit(self.0, 0)
    }

    /// Sets bit 0, the field that [`Self::rld1p`] reads.
    pub fn set_rld1p(&mut self, value: bool)
        ensures
            final(self).0 == with_bit(old(self).0 as int, 0, value),
    {
        self.0 = set_bit(self.0, 0, value);
    }
}

/// Register access of a device of this family. Each read comes in two
/// parts: the bytes to exchange, and the meaning of the reply.
impl<SPI, NCS> Ads129x<SPI, NCS, Ads1292Family, 2> {
    /// Read register CONFIG1: the bytes of the transaction.
    pub fn config_request(&self) -> (words: [u8; 3])
        ensures
            words@ == read_words(Register::CONFIG1.spec_addr()),
            words[0] == 0x20 + Register::CONFIG1.spec_addr(),
    {
        read_request(Register::CONFIG1.addr())
    }

    /// Read register CONFIG1: the configuration that the reply to
    /// [`Self::config_request`] holds.
    pub fn config<E>(&self, reply: Result<[u8; 3], E>) -> (param: Ads129xResult<conf::Config, E>)
        ensures
            param == read_outcome(reply, |raw: u8| conf::Config::try_from_spec(conf::Config1Reg(raw))),
    {
        match reply {
            Err(e) => Err(Ads129xError::Spi(e)),
            Ok(words) => match conf::Config::try_from(conf::Config1Reg(words[2])) {
                Ok(param) => Ok(param),
                Err(raw) => Err(Ads129xError::ReadInterpret(raw)),
            },
        }
    }

    /// Write register CONFIG1: the bytes of the transaction.
    pub fn set_config(&self, param: conf::Config) -> (words: [u8; 3])
        ensures
            words@ == write_words(Register::CONFIG1.spec_addr(), conf::Config1Reg::from_spec(param).0),
            words[0] == 0x40 + Register::CONFIG1.spec_addr(),
    {
        write_request(Register::CONFIG1.addr(), conf::Config1Reg::from(param).0)
    }

    /// Read register CONFIG2: the bytes of the transaction.
    pub fn misc_config_request(&self) -> (words: [u8; 3])
        ensures
            words@ == read_words(Register::CONFIG2.spec_addr()),
            words[0] == 0x20 + Register::CONFIG2.spec_addr(),
    {
        read_request(Register::CONFIG2.addr())
    }

    /// Read register CONFIG2: the configuration that the reply to
    /// [`Self::misc_config_request`] holds.
    pub fn misc_config<E>(&self, reply: Result<[u8; 3], E>) -> (param: Ads129xResult<conf::MiscConfig, E>)
        ensures
            param == read_outcome(reply, |raw: u8| conf::MiscConfig::try_from_spec(conf::Config2Reg(raw))),
    {
        match reply {
            Err(e) => Err(Ads129xError::Spi(e)),
            Ok(words) => match conf::MiscConfig::try_from(conf::Config2Reg(words[2])) {
                Ok(param) => Ok(param),
                Err(raw) => Err(Ads129xError::ReadInterpret(raw)),
            },
        }
    }

    /// Write register CONFIG2: the bytes of the transaction.
    pub fn set_misc_config(&self, param: conf::MiscConfig) -> (words: [u8; 3])
        ensures
            words@ == write_words(Register::CONFIG2.spec_addr(), conf::Config2Reg::from_spec(param).0),
            words[0] == 0x40 + Register::CONFIG2.spec_addr(),
    {
        write_request(Register::CONFIG2.addr(), conf::Config2Reg::from(param).0)
    }

    /// Read register LOFF: the bytes of the transaction.
    pub fn leadoff_control_request(&self) -> (words: [u8; 3])
        ensures
            words@ == read_words(Register::LOFF.spec_addr()),
            words[0] == 0x20 + Register::LOFF.spec_addr(),
    {
        read_request(Register::LOFF.addr())
    }

    /// Read register LOFF: the lead-off configuration that the reply to
    /// [`Self::leadoff_control_request`] holds.
    pub fn leadoff_control<E>(&self, reply: Result<[u8; 3], E>) -> (param: Ads129xResult<loff::LeadOffControl, E>)
        ensures
            param == read_outcome(reply, |raw: u8| loff::LeadOffControl::try_from_spec(loff::LeadOffControlReg(raw))),
    {
        match reply {
            Err(e) => Err(Ads129xError::Spi(e)),
            Ok(words) => match loff::LeadOffControl::try_from(loff::LeadOffControlReg(words[2])) {
                Ok(param) => Ok(param),
                Err(raw) => Err(Ads129xError::ReadInterpret(raw)),
            },
        }
    }

    /// Write register LOFF: the bytes of the transaction.
    pub fn set_leadoff_control(&self, param: loff::LeadOffControl) -> (words: [u8; 3])
        ensures
            words@ == write_words(Register::LOFF.spec_addr(), loff::LeadOffControlReg::from_spec(param).0),
            words[0] == 0x40 + Register::LOFF.spec_addr(),
    {
        write_request(Register::LOFF.addr(), loff::LeadOffControlReg::from(param).0)
    }

    /// Read register CH1SET: the bytes of the transaction.
    pub fn chan_1_request(&self) -> (words: [u8; 3])
        ensures
            words@ == read_words(Register::CH1SET.spec_addr()),
            words[0] == 0x20 + Register::CH1SET.spec_addr(),
    {
        read_request(Register::CH1SET.addr())
    }

    /// Read register CH1SET: the settings of channel 1 that the reply to
    /// [`Self::chan_1_request`] holds.
    pub fn chan_1<E>(&self, reply: Result<[u8; 3], E>) -> (param: Ads129xResult<chan::Chan, E>)
        ensures
            param == read_outcome(reply, |raw: u8| chan::Chan::try_from_spec(chan::ChanSetReg(raw))),
    {
        match reply {
            Err(e) => Err(Ads129xError::Spi(e)),
            Ok(words) => match chan::Chan::try_from(chan::ChanSetReg(words[2])) {
                Ok(param) => Ok(param),
                Err(raw) => Err(Ads129xError::ReadInterpret(raw)),
            },
        }
    }

    /// Write register CH1SET: the bytes of the transaction.
    pub fn set_chan_1(&self, param: chan::Chan) -> (words: [u8; 3])
        ensures
            words@ == write_words(Register::CH1SET.spec_addr(), chan::ChanSetReg::from_spec(param).0),
            words[0] == 0x40 + Register::CH1SET.spec_addr(),
    {
        write_request(Register::CH1SET.addr(), chan::ChanSetReg::from(param).0)
    }

    /// Read register CH2SET: the bytes of the transaction.
    pub fn chan_2_request(&self) -> (words: [u8; 3])
        ensures
            words@ == read_words(Register::CH2SET.spec_addr()),
            words[0] == 0x20 + Register::CH2SET.spec_addr(),
    {
        read_request(Register::CH2SET.addr())
    }

    /// Read register CH2SET: the settings of channel 2 that the reply to
    /// [`Self::chan_2_request`] holds.
    pub fn chan_2<E>(&self, reply: Result<[u8; 3], E>) -> (param: Ads129xResult<chan::Chan, E>)
        ensures
            param == read_outcome(reply, |raw: u8| chan::Chan::try_from_spec(chan::ChanSetReg(raw))),
    {
        match reply {
            Err(e) => Err(Ads129xError::Spi(e)),
            Ok(words) => match chan::Chan::try_from(chan::ChanSetReg(words[2])) {
                Ok(param) => Ok(param),
                Err(raw) => Err(Ads129xError::ReadInterpret(raw)),
            },
        }
    }

    /// Write register CH2SET: the bytes of the transaction.
    pub fn set_chan_2(&self, param: chan::Chan) -> (words: [u8; 3])
        ensures
            words@ == write_words(Register::CH2SET.spec_addr(), chan::ChanSetReg::from_spec(param).0),
            words[0] == 0x40 + Register::CH2SET.spec_addr(),
    {
        write_request(Register::CH2SET.addr(), chan::ChanSetReg::from(param).0)
    }

    /// Read register LOFF_STAT: the bytes of the transaction.
    pub fn leadoff_status_request(&self) -> (words: [u8; 3])
        ensures
            words@ == read_words(Register::LOFF_STAT.spec_addr()),
            words[0] == 0x20 + Register::LOFF_STAT.spec_addr(),
    {
        read_request(Register::LOFF_STAT.addr())
    }

    /// Read register LOFF_STAT: the lead-off status that the reply to
    /// [`Self::leadoff_status_request`] holds.
    pub fn leadoff_status<E>(&self, reply: Result<[u8; 3], E>) -> (param: Ads129xResult<loff::LeadOffStatus, E>)
        ensures
            param == read_outcome(reply, |raw: u8| loff::LeadOffStatus::try_from_spec(loff::LeadOffStatusReg(raw))),
    {
        match reply {
            Err(e) => Err(Ads129xError::Spi(e)),
            Ok(words) => match loff::LeadOffStatus::try_from(loff::LeadOffStatusReg(words[2])) {
                Ok(param) => Ok(param),
                Err(raw) => Err(Ads129xError::ReadInterpret(raw)),
            },
        }
    }

    /// Write register LOFF_STAT: the bytes of the transaction.
    pub fn set_leadoff_status(&self, param: loff::LeadOffStatus) -> (words: [u8; 3])
        ensures
            words@ == write_words(Register::LOFF_STAT.spec_addr(), loff::LeadOffStatusReg::from_spec(param).0),
            words[0] == 0x40 + Register::LOFF_STAT.spec_addr(),
    {
        write_request(Register::LOFF_STAT.addr(), loff::LeadOffStatusReg::from(param).0)
    }

    /// Read register RESP1: the bytes of the transaction.
    pub fn resp_request(&self) -> (words: [u8; 3])
        ensures
            words@ == read_words(Register::RESP1.spec_addr()),
            words[0] == 0x20 + Register::RESP1.spec_addr(),
    {
        read_request(Register::RESP1.addr())
    }

    /// Read register RESP1: the respiration control that the reply to
    /// [`Self::resp_request`] holds.
    pub fn resp<E>(&self, reply: Result<[u8; 3], E>) -> (param: Ads129xResult<resp::Resp1, E>)
        ensures
            param == read_outcome(reply, |raw: u8| resp::Resp1::try_from_spec(resp::RespControl1Reg(raw))),
    {
        match reply {
            Err(e) => Err(Ads129xError::Spi(e)),
            Ok(words) => match resp::Resp1::try_from(resp::RespControl1Reg(words[2])) {
                Ok(param) => Ok(param),
                Err(raw) => Err(Ads129xError::ReadInterpret(raw)),
            },
        }
    }

    /// Write register RESP1: the bytes of the transaction.
    pub fn set_resp(&self, param: resp::Resp1) -> (words: [u8; 3])
        ensures
            words@ == write_words(Register::RESP1.spec_addr(), resp::RespControl1Reg::from_spec(param).0),
            words[0] == 0x40 + Register::RESP1.spec_addr(),
    {
        write_request(Register::RESP1.addr(), resp::RespControl1Reg::from(param).0)
    }
}

} // verus!
