//! Commands of the serial interface.
//!
//! Every command is one opcode byte. The two register commands carry the
//! address of the first register in the low five bits of that byte.

use vstd::prelude::*;

verus! {

/// Number of register addresses that fit into a command byte.
pub const ADDRESS_SPACE: u8 = 32;

/// SPI commands
///
/// Table 13 on page 35 of the data sheet.
#[allow(non_camel_case_types)]
#[derive(Debug, Clone, Copy, PartialEq, Eq, Structural)]
pub enum Command {
    /// Wake-up from standby mode
    WAKEUP,
    /// Enter standy mode
    STANDBY,
    /// Reset the device
    RESET,
    /// Start or restart (synchronize) conversions
    START,
    /// Stop conversion
    STOP,
    /// Channel offset calibration
    OFFSETCAL,
    /// Enable Read Data Continuous Mode (default @ powerup)
    ///
    /// During this mode RREG commands are ignored.
    RDATAC,
    /// Stop Read Data Continuously Mode
    SDATAC,
    /// Read data by command; supports multiple read back
    RDATA,
    /// Read registers starting at an address
    RREG,
    /// Write registers starting at an address
    WREG,
}

impl Command {
    /// The opcode byte of the command.
    pub open spec fn spec_opcode(self) -> u8 {
        match self {
            Command::WAKEUP => 0x02,
            Command::STANDBY => 0x04,
            Command::RESET => 0x06,
            Command::START => 0x08,
            Command::STOP => 0x0A,
            Command::OFFSETCAL => 0x1A,
            Command::RDATAC => 0x10,
            Command::SDATAC => 0x11,
            Command::RDATA => 0x12,
            Command::RREG => 0x20,
            Command::WREG => 0x40,
        }
    }

    /// Whether the command names the register it starts at.
    pub open spec fn takes_address(self) -> bool {
        self == Command::RREG || self == Command::WREG
    }

    /// The opcode byte of the command.
    #[verifier::when_used_as_spec(spec_opcode)]
    pub fn opcode(self) -> (byte: u8)
        ensures
            byte == self.spec_opcode(),
    {
        match self {
            Command::WAKEUP => 0x02,
            Command::STANDBY => 0x04,
            Command::RESET => 0x06,
            Command::START => 0x08,
            Command::STOP => 0x0A,
            Command::OFFSETCAL => 0x1A,
            Command::RDATAC => 0x10,
            Command::SDATAC => 0x11,
            Command::RDATA => 0x12,
            Command::RREG => 0x20,
            Command::WREG => 0x40,
        }
    }

    /// The command byte of a register command that starts at `address`: the
    /// opcode with the address in its low five bits.
    ///
    /// For the two register commands the address bits of the opcode are
    /// clear, so the byte is also the sum of the two.
    pub fn at(self, address: u8) -> (byte: u8)
        requires
            address < ADDRESS_SPACE,
        ensures
            byte == self.opcode() | address,
            self.takes_address() ==> byte == self.opcode() + address,
    {
        let opcode = self.opcode();
        proof {
            if self.takes_address() {
                lemma_address_bits(opcode, address);
            }
        }
        opcode | address
    }
}

/// Below an opcode whose low five bits are clear, an address is added by
/// or-ing it in.
pub proof fn lemma_address_bits(opcode: u8, address: u8)
    requires
        address < ADDRESS_SPACE,
        opcode == 0x20 || opcode == 0x40,
    ensures
        opcode | address == opcode + address,
{
    assert(opcode | address == opcode + address) by (bit_vector)
        requires
            address < 32,
            opcode == 0x20 || opcode == 0x40,
    ;
}

} // verus!
