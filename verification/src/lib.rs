//! Driver core for the ADS129x family of biopotential analog front ends.
//!
//! The core decides what goes over the serial bus and what the bytes that
//! come back mean. It does not touch the bus itself: the platform sends the
//! bytes that the core hands out, framed by the steps of a
//! [`spi::Transaction`], and hands the reply back in.

use core::marker::PhantomData;
use vstd::prelude::*;
use vstd::std_specs::convert::TryFromSpec;

pub mod ads1292;
pub mod ads1298;
pub mod bits;
pub mod command;
pub mod common;
pub mod data;
pub mod spi;

verus! {

/// Most channels that a device of either family has.
pub const MAX_CHANNELS: usize = 8;

/// Filler byte that is clocked out while a register is read back.
pub const READ_FILLER: u8 = 0xA5;

/// Byte that is clocked out while a frame is read.
pub const FRAME_FILLER: u8 = 0x00;

/// Tag of the one and two channel family: ADS1291, ADS1292, ADS1292R.
pub struct Ads1292Family;

/// Tag of the four to eight channel family: ADS1294, ADS1296, ADS1298 and
/// their R variants.
pub struct Ads1298Family;

#[derive(Debug)]
pub enum Ads129xError<E> {
    /// Identification register read problem (probably unsupported device)
    IdRegRead(common::id::IdRegError),
    /// Read bytes is invalid register value
    ReadInterpret(u8),
    /// Status word missmatch
    StatusWordMissmatch(u8),
    /// Spi transport error
    Spi(E),
}

pub type Ads129xResult<T, E> = Result<T, Ads129xError<E>>;

impl<E> From<E> for Ads129xError<E> {
    fn from(e: E) -> (error: Self) {
        Ads129xError::Spi(e)
    }
}

impl<E> vstd::std_specs::convert::FromSpecImpl<E> for Ads129xError<E> {
    open spec fn obeys_from_spec() -> bool {
        true
    }

    open spec fn from_spec(e: E) -> Self {
        Ads129xError::Spi(e)
    }
}

/// Handle of one device: it owns the bus resources and is bound, for good, to
/// one family and one channel count.
pub struct Ads129x<SPI, NCS, DEV, const CH: usize> {
    spi: spi::SpiDevice<SPI, NCS>,
    _d: PhantomData<DEV>,
}

/// The bytes of a transaction that reads one register: the read command at
/// the register's address, a count of zero further registers, and a filler
/// in whose place the register's byte comes back.
pub open spec fn read_words(address: u8) -> Seq<u8> {
    seq![command::Command::RREG.spec_opcode() | address, 0x00u8, READ_FILLER]
}

/// The bytes of a transaction that writes `value` to one register: the write
/// command at the register's address, a count of zero further registers, and
/// the byte.
pub open spec fn write_words(address: u8, value: u8) -> Seq<u8> {
    seq![command::Command::WREG.spec_opcode() | address, 0x00u8, value]
}

/// What the reply to a register read comes to: a transport failure is passed
/// on as it is; else the register's byte, the third of the reply, is
/// interpreted, and a byte that cannot be is the error.
pub open spec fn read_outcome<T, E>(
    reply: Result<[u8; 3], E>,
    interpret: spec_fn(u8) -> Result<T, u8>,
) -> Ads129xResult<T, E> {
    match reply {
        Err(e) => Err(Ads129xError::Spi(e)),
        Ok(words) => match interpret(words[2]) {
            Ok(value) => Ok(value),
            Err(raw) => Err(Ads129xError::ReadInterpret(raw)),
        },
    }
}

/// The bytes of a transaction that reads the register at `address`.
pub(crate) fn read_request(address: u8) -> (words: [u8; 3])
    requires
        address < command::ADDRESS_SPACE,
    ensures
        words@ == read_words(address),
        words[0] == 0x20 + address,
{
    [command::Command::RREG.at(address), 0x00, READ_FILLER]
}

/// The bytes of a transaction that writes `value` to the register at
/// `address`.
pub(crate) fn write_request(address: u8, value: u8) -> (words: [u8; 3])
    requires
        address < command::ADDRESS_SPACE,
    ensures
        words@ == write_words(address, value),
        words[0] == 0x40 + address,
{
    [command::Command::WREG.at(address), 0x00, value]
}

impl<SPI, NCS, DEV, const CH: usize> Ads129x<SPI, NCS, DEV, CH> {
    #[verifier::type_invariant]
    spec fn channels_fit(self) -> bool {
        CH <= MAX_CHANNELS
    }

    /// The bus resources that the handle owns.
    pub closed spec fn resources(self) -> (SPI, NCS) {
        (self.spi.peripheral(), self.spi.select_pin())
    }
}

impl<SPI, NCS> Ads129x<SPI, NCS, Ads1292Family, 2> {
    /// Create ADS1292/ADS1292R device instance
    pub fn new_ads1292(spi: SPI, ncs: NCS) -> (device: Self)
        ensures
            device.resources() == (spi, ncs),
    {
        Self { spi: spi::SpiDevice::new(spi, ncs), _d: PhantomData }
    }
}

impl<SPI, NCS> Ads129x<SPI, NCS, Ads1298Family, 4> {
    /// Create ADS1294/ADS1294R device instance
    pub fn new_ads1294(spi: SPI, ncs: NCS) -> (device: Self)
        ensures
            device.resources() == (spi, ncs),
    {
        Self { spi: spi::SpiDevice::new(spi, ncs), _d: PhantomData }
    }
}

impl<SPI, NCS> Ads129x<SPI, NCS, Ads1298Family, 6> {
    /// Create ADS1296/ADS1296R device instance
    pub fn new_ads1296(spi: SPI, ncs: NCS) -> (device: Self)
        ensures
            device.resources() == (spi, ncs),
    {
        Self { spi: spi::SpiDevice::new(spi, ncs), _d: PhantomData }
    }
}

impl<SPI, NCS> Ads129x<SPI, NCS, Ads1298Family, 8> {
    /// Create ADS1298/ADS1298R device instance
    pub fn new_ads1298(spi: SPI, ncs: NCS) -> (device: Self)
        ensures
            device.resources() == (spi, ncs),
    {
        Self { spi: spi::SpiDevice::new(spi, ncs), _d: PhantomData }
    }
}

impl<SPI, NCS, DEV, const CH: usize> Ads129x<SPI, NCS, DEV, CH> {
    /// Spi command WAKEUP
    pub fn wakeup_device(&self) -> (words: [u8; 1])
        ensures
            words@ == seq![0x02u8],
    {
        [command::Command::WAKEUP.opcode()]
    }

    /// Spi command STANDBY
    pub fn set_standby_mode(&self) -> (words: [u8; 1])
        ensures
            words@ == seq![0x04u8],
    {
        [command::Command::STANDBY.opcode()]
    }

    /// Spi command RESET
    pub fn reset_device(&self) -> (words: [u8; 1])
        ensures
            words@ == seq![0x06u8],
    {
        [command::Command::RESET.opcode()]
    }

    /// Spi command START
    pub fn start_conv(&self) -> (words: [u8; 1])
        ensures
            words@ == seq![0x08u8],
    {
        [command::Command::START.opcode()]
    }

    /// Spi command STOP
    pub fn stop_conv(&self) -> (words: [u8; 1])
        ensures
            words@ == seq![0x0Au8],
    {
        [command::Command::STOP.opcode()]
    }

    /// Spi command RDATAC
    pub fn set_continuous_mode(&self) -> (words: [u8; 1])
        ensures
            words@ == seq![0x10u8],
    {
        [command::Command::RDATAC.opcode()]
    }

    /// Spi command SDATAC
    pub fn set_command_mode(&self) -> (words: [u8; 1])
        ensures
            words@ == seq![0x11u8],
    {
        [command::Command::SDATAC.opcode()]
    }

    /// The bytes of the transaction that reads the identification register.
    pub fn read_id_request(&self) -> (words: [u8; 3])
        ensures
            words@ == read_words(0x00),
            words@ == seq![0x20u8, 0x00u8, READ_FILLER],
    {
        read_request(0x00)
    }

    /// Names the device from the reply to [`Self::read_id_request`].
    ///
    /// A transport failure is passed on. Else the third byte of the reply is
    /// the identification register, and what it says of the device, or why it
    /// says nothing, is the outcome.
    pub fn read_id<E>(&self, reply: Result<[u8; 3], E>) -> (model: Ads129xResult<
        common::id::DevModel,
        E,
    >)
        ensures
            model == (match reply {
                Err(e) => Err(Ads129xError::Spi(e)),
                Ok(words) => match common::id::DevModel::try_from_spec(common::id::IdReg(words[2])) {
                    Ok(found) => Ok(found),
                    Err(e) => Err(Ads129xError::IdRegRead(e)),
                },
            }),
    {
        match reply {
            Err(e) => Err(Ads129xError::Spi(e)),
            Ok(words) => match common::id::DevModel::try_from(common::id::IdReg(words[2])) {
                Ok(found) => Ok(found),
                Err(e) => Err(Ads129xError::IdRegRead(e)),
            },
        }
    }

    /// The peripheral, for the platform to exchange bytes on.
    pub fn spi(&mut self) -> (spi: &mut SPI)
        ensures
            *spi == old(self).resources().0,
            final(self).resources() == (*final(spi), old(self).resources().1),
    {
        proof {
            use_type_invariant(&*self);
        }
        self.spi.spi()
    }

    /// The chip-select pin, for the platform to drive.
    pub fn ncs(&mut self) -> (ncs: &mut NCS)
        ensures
            *ncs == old(self).resources().1,
            final(self).resources() == (old(self).resources().0, *final(ncs)),
    {
        proof {
            use_type_invariant(&*self);
        }
        self.spi.ncs()
    }

    /// Give the bus resources back.
    pub fn destroy(self) -> (parts: (SPI, NCS))
        ensures
            parts == self.resources(),
    {
        self.spi.destroy()
    }
}

impl<SPI, NCS, const CH: usize> Ads129x<SPI, NCS, Ads1298Family, CH> {
    /// Number of bytes in one frame: the status word and one sample per
    /// channel.
    pub fn frame_len(&self) -> (len: usize)
        ensures
            len == 3 + 3 * CH,
    {
        proof {
            use_type_invariant(self);
        }
        data::WORD_BYTES + data::WORD_BYTES * CH
    }

    /// Read data samples from ADC
    ///
    /// `reply` is what came back while a whole frame of fillers was clocked
    /// out with the device selected. A transport failure is passed on and
    /// leaves `data_frame` as it was. Else the frame is overwritten with the
    /// status word and the samples of the reply, sign extended, and then the
    /// status word is validated: unless its synchronization field holds its
    /// pattern, the samples are not to be trusted and the outcome is the
    /// error that carries the field.
    pub fn read_data<E>(&self, data_frame: &mut data::DataFrame<CH>, reply: Result<&[u8], E>) -> (outcome:
        Ads129xResult<(), E>)
        requires
            reply matches Ok(wire) ==> wire@.len() == 3 + 3 * CH,
        ensures
            match reply {
                Err(e) => outcome == Err::<(), Ads129xError<E>>(Ads129xError::Spi(e))
                    && *final(data_frame) == *old(data_frame),
                Ok(wire) => final(data_frame).holds(wire@) && outcome == (if wire@[0] / 16
                    == data::SYNC_PATTERN {
                    Ok::<(), Ads129xError<E>>(())
                } else {
                    Err(Ads129xError::StatusWordMissmatch((wire@[0] / 16) as u8))
                }),
            },
    {
        let wire = match reply {
            Err(e) => {
                return Err(Ads129xError::Spi(e));
            },
            Ok(wire) => wire,
        };
        // Read status word
        let mut idx: usize = 0;
        while idx < 3
            invariant
                wire.len() == 3 + 3 * CH,
                idx <= 3,
                forall|j: int| 0 <= j < idx ==> data_frame.status_word[j] == wire@[j],
            decreases 3 - idx,
        {
            data_frame.status_word[idx] = wire[idx];
            idx += 1;
        }
        assert(data_frame.status_word@ =~= wire@.subrange(0, 3));
        // Read channels data, i24 big endian byte order
        let mut idx: usize = 0;
        while idx < CH
            invariant
                wire.len() == 3 + 3 * CH,
                idx <= CH,
                data_frame.status_word@ == wire@.subrange(0, 3),
                forall|j: int|
                    0 <= j < idx ==> #[trigger] data_frame.data[j] == data::sample_value(
                        wire@[3 + 3 * j],
                        wire@[3 + 3 * j + 1],
                        wire@[3 + 3 * j + 2],
                    ),
            decreases CH - idx,
        {
            let at = 3 + 3 * idx;
            data_frame.data[idx] = data::sample(wire[at], wire[at + 1], wire[at + 2]);
            idx += 1;
        }
        // Validate status word
        let status_word = data_frame.status_word();
        let sync = status_word.sync();
        if sync != data::SYNC_PATTERN {
            return Err(Ads129xError::StatusWordMissmatch(sync));
        }
        Ok(())
    }
}

} // verus!
