//! Acquisition frames.
//!
//! During acquisition the device sends, per conversion, a 24-bit status word
//! followed by one 24-bit sample per channel, each most significant byte
//! first. A sample is a two's complement number and is kept sign-extended to
//! 32 bits.

use crate::bits::{bits_of, word_bit_range};
use vstd::prelude::*;

verus! {

/// Bytes that a status word, and each sample, takes on the wire.
pub const WORD_BYTES: usize = 3;

/// What the synchronization field of every intact status word holds.
pub const SYNC_PATTERN: u8 = 0b1100;

/// The number that three bytes stand for, most significant byte first.
pub open spec fn word_value(b0: u8, b1: u8, b2: u8) -> int {
    b0 * 0x1_0000 + b1 * 0x100 + b2
}

/// The sample that three bytes stand for, most significant byte first: their
/// 24-bit number, read as two's complement.
pub open spec fn sample_value(b0: u8, b1: u8, b2: u8) -> int {
    if word_value(b0, b1, b2) >= 0x80_0000 {
        word_value(b0, b1, b2) - 0x100_0000
    } else {
        word_value(b0, b1, b2)
    }
}

/// Assembles three bytes, most significant first, into a 24-bit word.
fn assemble(b0: u8, b1: u8, b2: u8) -> (word: u32)
    ensures
        word == word_value(b0, b1, b2),
{
    let word = (b0 as u32) << 16 | (b1 as u32) << 8 | (b2 as u32);
    assert(word == b0 * 0x1_0000 + b1 * 0x100 + b2) by (bit_vector)
        requires
            word == (b0 as u32) << 16 | (b1 as u32) << 8 | (b2 as u32),
    ;
    word
}

/// Assembles the three bytes of a sample, most significant first, and
/// extends the sign of the 24-bit number to 32 bits.
pub(crate) fn sample(b0: u8, b1: u8, b2: u8) -> (value: i32)
    ensures
        value == sample_value(b0, b1, b2),
{
    let word: i32 = (b0 as i32) << 16 | (b1 as i32) << 8 | (b2 as i32);
    // Sign extend i24 -> i32
    let value: i32 = word << 8 >> 8;
    assert(value == if b0 >= 0x80 {
        b0 * 0x1_0000 + b1 * 0x100 + b2 - 0x100_0000
    } else {
        b0 * 0x1_0000 + b1 * 0x100 + b2
    }) by (bit_vector)
        requires
            word == (b0 as i32) << 16 | (b1 as i32) << 8 | (b2 as i32),
            value == word << 8 >> 8,
    ;
    value
}

/// Status word of the two-channel family.
#[derive(Debug, Clone, Copy, PartialEq, Eq)]
pub struct DataStatusWord92(pub u32);

impl DataStatusWord92 {
    /// Synchronization field, bits 23..=20.
    pub fn sync(&self) -> (value: u8)
        ensures
            value == bits_of(self.0 as int, 23, 20),
    {
        word_bit_range(self.0, 23, 20)
    }

    /// Lead-off status, bits 19..=16.
    pub fn loff_stat(&self) -> (value: u8)
        ensures
            value == bits_of(self.0 as int, 19, 16),
    {
        word_bit_range(self.0, 19, 16)
    }

    /// State of the GPIO pins, bits 15..=14.
    pub fn gpio(&self) -> (value: u8)
        ensures
            value == bits_of(self.0 as int, 15, 14),
    {
        word_bit_range(self.0, 15, 14)
    }
}

/// One frame of the two-channel family.
#[derive(Debug, Clone, Copy)]
pub struct DataFrame92 {
    pub status_word: [u8; 3],
    pub data: [i32; 2],
}

impl DataFrame92 {
    /// A frame of zeros.
    pub fn new() -> (frame: Self)
        ensures
            frame.status_word@ == seq![0u8, 0u8, 0u8],
            frame.data@ == seq![0i32, 0i32],
    {
        DataFrame92 { status_word: [0, 0, 0], data: [0, 0] }
    }

    /// The status word of the frame, its first byte in bits 23..=16.
    pub fn status_word(&self) -> (word: DataStatusWord92)
        ensures
            word.0 == word_value(self.status_word[0], self.status_word[1], self.status_word[2]),
    {
        // Big-endian-ish
        DataStatusWord92(assemble(self.status_word[0], self.status_word[1], self.status_word[2]))
    }
}

impl Default for DataFrame92 {
    fn default() -> (frame: Self)
        ensures
            frame.status_word@ == seq![0u8, 0u8, 0u8],
            frame.data@ == seq![0i32, 0i32],
    {
        DataFrame92::new()
    }
}

/// Status word of the four to eight channel family.
#[derive(Debug, Clone, Copy, PartialEq, Eq)]
pub struct DataStatusWord(pub u32);

impl DataStatusWord {
    /// Synchronization field, bits 23..=20.
    pub fn sync(&self) -> (value: u8)
        ensures
            value == bits_of(self.0 as int, 23, 20),
    {
        word_bit_range(self.0, 23, 20)
    }

    /// Lead-off status of the positive inputs, bits 19..=12.
    pub fn loff_statp(&self) -> (value: u8)
        ensures
            value == bits_of(self.0 as int, 19, 12),
    {
        word_bit_range(self.0, 19, 12)
    }

    /// Lead-off status of the negative inputs, bits 11..=4.
    pub fn loff_statn(&self) -> (value: u8)
        ensures
            value == bits_of(self.0 as int, 11, 4),
    {
        word_bit_range(self.0, 11, 4)
    }

    /// State of the GPIO pins, bits 3..=0.
    pub fn gpio(&self) -> (value: u8)
        ensures
            value == bits_of(self.0 as int, 3, 0),
    {
        word_bit_range(self.0, 3, 0)
    }
}

/// One frame of a device with `CH` channels.
#[derive(Debug, Clone, Copy)]
pub struct DataFrame<const CH: usize> {
    pub status_word: [u8; 3],
    pub data: [i32; CH],
}

impl<const CH: usize> DataFrame<CH> {
    /// Whether the frame is what the bytes `wire` stand for: the status word
    /// is their first three, and sample `i` is the `i`-th group of three
    /// after that.
    pub open spec fn holds(self, wire: Seq<u8>) -> bool {
        &&& self.status_word@ == wire.subrange(0, 3)
        &&& forall|i: int|
            0 <= i < CH ==> #[trigger] self.data[i] == sample_value(
                wire[3 + 3 * i],
                wire[3 + 3 * i + 1],
                wire[3 + 3 * i + 2],
            )
    }

    /// A frame of zeros.
    pub fn new() -> (frame: Self)
        ensures
            frame.status_word@ == seq![0u8, 0u8, 0u8],
            forall|i: int| 0 <= i < CH ==> frame.data[i] == 0,
    {
        DataFrame { status_word: [0; 3], data: [0; CH] }
    }

    /// The status word of the frame, its first byte in bits 23..=16.
    pub fn status_word(&self) -> (word: DataStatusWord)
        ensures
            word.0 == word_value(self.status_word[0], self.status_word[1], self.status_word[2]),
    {
        // Big-endian-ish
        DataStatusWord(assemble(self.status_word[0], self.status_word[1], self.status_word[2]))
    }
}

impl<const CH: usize> Default for DataFrame<CH> {
    fn default() -> (frame: Self)
        ensures
            frame.status_word@ == seq![0u8, 0u8, 0u8],
            forall|i: int| 0 <= i < CH ==> frame.data[i] == 0,
    {
        DataFrame::new()
    }
}

} // verus!
