//! General-purpose I/O register.

use crate::bits::{
    bit, bit_of, flag_number, flags_byte, lemma_flags_byte, lemma_flags_set, set_bit, with_bit,
};
use vstd::prelude::*;
use vstd::std_specs::convert::{FromSpec, TryFromSpec};

verus! {

/// GPIO configuration
#[derive(Debug, Clone, Copy, PartialEq, Eq)]
pub struct Gpio {
    pub mode: [GpioMode; 4],
    pub data: [bool; 4],
}

impl Default for Gpio {
    fn default() -> (value: Self)
        ensures
            forall|i: int| 0 <= i < 4 ==> value.mode[i] == GpioMode::Input,
            forall|i: int| 0 <= i < 4 ==> value.data[i] == false,
    {
        Gpio {
            mode: [GpioMode::Input, GpioMode::Input, GpioMode::Input, GpioMode::Input],
            data: [false, false, false, false],
        }
    }
}

/// Direction of a GPIO pin
#[derive(Debug, Clone, Copy, PartialEq, Eq, Structural)]
pub enum GpioMode {
    Output,
    Input,
}

impl GpioMode {
    /// The field value that selects this member.
    pub open spec fn spec_bits(self) -> u8 {
        match self {
            GpioMode::Output => 0b0,
            GpioMode::Input => 0b1,
        }
    }

    /// The field value that selects this member.
    #[verifier::when_used_as_spec(spec_bits)]
    pub fn bits(self) -> (raw: u8)
        ensures
            raw == self.spec_bits(),
            GpioMode::try_from_spec(raw) == Ok::<GpioMode, u8>(self),
    {
        match self {
            GpioMode::Output => 0b0,
            GpioMode::Input => 0b1,
        }
    }
}

impl TryFrom<u8> for GpioMode {
    type Error = u8;

    /// The member that a field value selects; a value that selects none
    /// comes back as the error.
    fn try_from(number: u8) -> (member: Result<Self, u8>) {
        match number {
            0b0 => Ok(GpioMode::Output),
            0b1 => Ok(GpioMode::Input),
            _ => Err(number),
        }
    }
}

impl vstd::std_specs::convert::TryFromSpecImpl<u8> for GpioMode {
    open spec fn obeys_try_from_spec() -> bool {
        true
    }

    open spec fn try_from_spec(number: u8) -> Result<Self, u8> {
        match number {
            0b0 => Ok(GpioMode::Output),
            0b1 => Ok(GpioMode::Input),
            _ => Err(number),
        }
    }
}

impl From<GpioMode> for bool {
    /// Whether the member is the one that sets its bit.
    fn from(v: GpioMode) -> (flag: bool) {
        if v.bits() == 0x00 {
            false
        } else {
            true
        }
    }
}

impl vstd::std_specs::convert::FromSpecImpl<GpioMode> for bool {
    open spec fn obeys_from_spec() -> bool {
        true
    }

    open spec fn from_spec(v: GpioMode) -> bool {
        v.spec_bits() != 0x00
    }
}

/// GPIO: General-Purpose I/O Register (address 0x14)
///
/// The general-purpose I/O register controls the action of the three GPIO pins.
/// When `RESP_CTRL`[1:0] is in mode 01 and 11, the GPIO2, GPIO3, and GPIO4 pins are not
/// available for use.
#[derive(Debug, Clone, Copy, PartialEq, Eq)]
pub struct GpioReg(pub u8);

impl GpioReg {
    /// GPIO control (corresponding GPIOD)
    ///
    /// These bits determine if the corresponding GPIOD pin is an input or output.
    ///
    ///   - 0 = Output
    ///   - 1 = Input
    pub fn gpioc1(&self) -> (value: bool)
        ensures
            value == bit_of(self.0 as int, 0),
    {
        bit(self.0, 0)
    }

    /// Sets bit 0, the field that [`Self::gpioc1`] reads.
    pub fn set_gpioc1(&mut self, value: bool)
        ensures
            final(self).0 == with_bit(old(self).0 as int, 0, value),
    {
        self.0 = set_bit(self.0, 0, value);
    }

    /// Bit 1.
    pub fn gpioc2(&self) -> (value: bool)
        ensures
            value == bit_of(self.0 as int, 1),
    {
        bit(self.0, 1)
    }

    /// Sets bit 1, the field that [`Self::gpioc2`] reads.
    pub fn set_gpioc2(&mut self, value: bool)
        ensures
            final(self).0 == with_bit(old(self).0 as int, 1, value),
    {
        self.0 = set_bit(self.0, 1, value);
    }

    /// Bit 2.
    pub fn gpioc3(&self) -> (value: bool)
        ensures
            value == bit_of(self.0 as int, 2),
    {
        bit(self.0, 2)
    }

    /// Sets bit 2, the field that [`Self::gpioc3`] reads.
    pub fn set_gpioc3(&mut self, value: bool)
        ensures
            final(self).0 == with_bit(old(self).0 as int, 2, value),
    {
        self.0 = set_bit(self.0, 2, value);
    }

    /// Bit 3.
    pub fn gpioc4(&self) -> (value: bool)
        ensures
            value == bit_of(self.0 as int, 3),
    {
        bit(self.0, 3)
    }

    /// Sets bit 3, the field that [`Self::gpioc4`] reads.
    pub fn set_gpioc4(&mut self, value: bool)
        ensures
            final(self).0 == with_bit(old(self).0 as int, 3, value),
    {
        self.0 = set_bit(self.0, 3, value);
    }

    /// GPIO data
    ///
    /// These bits are used to read and write data to the GPIO ports. When reading the
    /// register, the data returned correspond to the state of the GPIO external pins, whether they are
    /// programmed as inputs or as outputs. As outputs, a write to the GPIOD sets the output value. As
    /// inputs, a write to the GPIOD has no effect. GPIO is not available in certain respiration modes.
    pub fn gpiod1(&self) -> (value: bool)
        ensures
            value == bit_of(self.0 as int, 4),
    {
        bit(self.0, 4)
    }

    /// Sets bit 4, the field that [`Self::gpiod1`] reads.
    pub fn set_gpiod1(&mut self, value: bool)
        ensures
            final(self).0 == with_bit(old(self).0 as int, 4, value),
    {
        self.0 = set_bit(self.0, 4, value);
    }

    /// Bit 5.
    pub fn gpiod2(&self) -> (value: bool)
        ensures
            value == bit_of(self.0 as int, 5),
    {
        bit(self.0, 5)
    }

    /// Sets bit 5, the field that [`Self::gpiod2`] reads.
    pub fn set_gpiod2(&mut self, value: bool)
        ensures
            final(self).0 == with_bit(old(self).0 as int, 5, value),
    {
        self.0 = set_bit(self.0, 5, value);
    }

    /// Bit 6.
    pub fn gpiod3(&self) -> (value: bool)
        ensures
            value == bit_of(self.0 as int, 6),
    {
        bit(self.0, 6)
    }

    /// Sets bit 6, the field that [`Self::gpiod3`] reads.
    pub fn set_gpiod3(&mut self, value: bool)
        ensures
            final(self).0 == with_bit(old(self).0 as int, 6, value),
    {
        self.0 = set_bit(self.0, 6, value);
    }

    /// Bit 7.
    pub fn gpiod4(&self) -> (value: bool)
        ensures
            value == bit_of(self.0 as int, 7),
    {
        bit(self.0, 7)
    }

    /// Sets bit 7, the field that [`Self::gpiod4`] reads.
    pub fn set_gpiod4(&mut self, value: bool)
        ensures
            final(self).0 == with_bit(old(self).0 as int, 7, value),
    {
        self.0 = set_bit(self.0, 7, value);
    }
}

impl From<Gpio> for GpioReg {
    /// Packs the GPIO configuration into the register byte: the directions
    /// in bits 0 to 3, the data in bits 4 to 7, pin 1 lowest.
    fn from(param: Gpio) -> (reg: Self) {
        let mut reg = GpioReg(0);
        let mode1 = bool::from(param.mode[0]);
        let mode2 = bool::from(param.mode[1]);
        let mode3 = bool::from(param.mode[2]);
        let mode4 = bool::from(param.mode[3]);
        reg.set_gpioc1(mode1);
        reg.set_gpioc2(mode2);
        reg.set_gpioc3(mode3);
        reg.set_gpioc4(mode4);

        reg.set_gpiod1(param.data[0]);
        reg.set_gpiod2(param.data[1]);
        reg.set_gpiod3(param.data[2]);
        reg.set_gpiod4(param.data[3]);
        proof {
            lemma_flags_set(
                mode1,
                mode2,
                mode3,
                mode4,
                param.data[0],
                param.data[1],
                param.data[2],
                param.data[3],
            );
        }
        reg
    }
}

impl vstd::std_specs::convert::FromSpecImpl<Gpio> for GpioReg {
    open spec fn obeys_from_spec() -> bool {
        true
    }

    open spec fn from_spec(param: Gpio) -> Self {
        GpioReg(
            flags_byte(
                param.mode[0].spec_bits() != 0,
                param.mode[1].spec_bits() != 0,
                param.mode[2].spec_bits() != 0,
                param.mode[3].spec_bits() != 0,
                param.data[0],
                param.data[1],
                param.data[2],
                param.data[3],
            ) as u8,
        )
    }
}

impl TryFrom<GpioReg> for Gpio {
    type Error = u8;

    /// Interprets the register byte: every byte has a meaning.
    fn try_from(reg: GpioReg) -> (param: Result<Self, u8>)
        ensures
            param is Ok,
    {
        let mode1 = match GpioMode::try_from(reg.gpioc1() as u8) {
            Ok(member) => member,
            Err(_) => {
                return Err(reg.0);
            },
        };
        let mode2 = match GpioMode::try_from(reg.gpioc2() as u8) {
            Ok(member) => member,
            Err(_) => {
                return Err(reg.0);
            },
        };
        let mode3 = match GpioMode::try_from(reg.gpioc3() as u8) {
            Ok(member) => member,
            Err(_) => {
                return Err(reg.0);
            },
        };
        let mode4 = match GpioMode::try_from(reg.gpioc4() as u8) {
            Ok(member) => member,
            Err(_) => {
                return Err(reg.0);
            },
        };
        Ok(
            Gpio {
                mode: [mode1, mode2, mode3, mode4],
                data: [reg.gpiod1(), reg.gpiod2(), reg.gpiod3(), reg.gpiod4()],
            },
        )
    }
}

impl vstd::std_specs::convert::TryFromSpecImpl<GpioReg> for Gpio {
    open spec fn obeys_try_from_spec() -> bool {
        true
    }

    open spec fn try_from_spec(reg: GpioReg) -> Result<Self, u8> {
        let raw = reg.0 as int;
        match (
            <GpioMode as TryFromSpec<u8>>::try_from_spec(flag_number(bit_of(raw, 0))),
            <GpioMode as TryFromSpec<u8>>::try_from_spec(flag_number(bit_of(raw, 1))),
            <GpioMode as TryFromSpec<u8>>::try_from_spec(flag_number(bit_of(raw, 2))),
            <GpioMode as TryFromSpec<u8>>::try_from_spec(flag_number(bit_of(raw, 3))),
        ) {
            (Ok(mode1), Ok(mode2), Ok(mode3), Ok(mode4)) => Ok(
                Gpio {
                    mode: [mode1, mode2, mode3, mode4],
                    data: [bit_of(raw, 4), bit_of(raw, 5), bit_of(raw, 6), bit_of(raw, 7)],
                },
            ),
            _ => Err(reg.0),
        }
    }
}

/// Packing a GPIO configuration and interpreting the byte gives the
/// configuration back.
pub proof fn lemma_gpio_round_trip(param: Gpio)
    ensures
        Gpio::try_from_spec(GpioReg::from_spec(param)) == Ok::<Gpio, u8>(param),
{
    lemma_flags_byte(
        param.mode[0].spec_bits() != 0,
        param.mode[1].spec_bits() != 0,
        param.mode[2].spec_bits() != 0,
        param.mode[3].spec_bits() != 0,
        param.data[0],
        param.data[1],
        param.data[2],
        param.data[3],
    );
    let read = Gpio::try_from_spec(GpioReg::from_spec(param))->Ok_0;
    assert(read.mode@ =~= param.mode@);
    assert(read.data@ =~= param.data@);
    assert(read.mode == param.mode);
    assert(read.data == param.data);
}

} // verus!
