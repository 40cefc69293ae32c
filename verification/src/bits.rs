//! Bit fields of register bytes and status words.
//!
//! A field is a run of adjacent bits, named by the positions of its most and
//! least significant bit. The spec functions here say what a field
//! holds as a number; the executable functions read and write fields through
//! the `bitfield` crate.

use bitfield::{Bit, BitRange};
use vstd::prelude::*;

verus! {

/// Two to the power `k`, for `0 <= k < 32`.
///
/// Written as a table, so that for a literal `k` the power is a literal too
/// and the arithmetic around it stays linear.
#[verifier::inline]
pub open spec fn pow2(k: int) -> int {
    if k == 0 {
        1
    } else if k == 1 {
        2
    } else if k == 2 {
        4
    } else if k == 3 {
        8
    } else if k == 4 {
        0x10
    } else if k == 5 {
        0x20
    } else if k == 6 {
        0x40
    } else if k == 7 {
        0x80
    } else if k == 8 {
        0x100
    } else if k == 9 {
        0x200
    } else if k == 10 {
        0x400
    } else if k == 11 {
        0x800
    } else if k == 12 {
        0x1000
    } else if k == 13 {
        0x2000
    } else if k == 14 {
        0x4000
    } else if k == 15 {
        0x8000
    } else if k == 16 {
        0x10000
    } else if k == 17 {
        0x20000
    } else if k == 18 {
        0x40000
    } else if k == 19 {
        0x80000
    } else if k == 20 {
        0x100000
    } else if k == 21 {
        0x200000
    } else if k == 22 {
        0x400000
    } else if k == 23 {
        0x800000
    } else if k == 24 {
        0x1000000
    } else if k == 25 {
        0x2000000
    } else if k == 26 {
        0x4000000
    } else if k == 27 {
        0x8000000
    } else if k == 28 {
        0x10000000
    } else if k == 29 {
        0x20000000
    } else if k == 30 {
        0x40000000
    } else if k == 31 {
        0x80000000
    } else {
        0
    }
}

/// The number held in bits `lsb..=msb` of `raw`.
pub open spec fn bits_of(raw: int, msb: int, lsb: int) -> int {
    (raw / pow2(lsb)) % pow2(msb - lsb + 1)
}

/// Whether bit `bit` of `raw` is set.
pub open spec fn bit_of(raw: int, bit: int) -> bool {
    bits_of(raw, bit, bit) != 0
}

/// `raw` with bits `lsb..=msb` replaced by the low `msb - lsb + 1` bits of
/// `value`; every other bit is kept.
pub open spec fn with_bits(raw: int, msb: int, lsb: int, value: int) -> int {
    raw - bits_of(raw, msb, lsb) * pow2(lsb) + (value % pow2(msb - lsb + 1)) * pow2(lsb)
}

/// `raw` with bit `bit` set or cleared; every other bit is kept.
pub open spec fn with_bit(raw: int, bit: int, value: bool) -> int {
    with_bits(raw, bit, bit, if value { 1 } else { 0 })
}

/// The number that has `value` in the bits from `lsb` upwards and nothing
/// else.
pub open spec fn field_value(lsb: int, value: int) -> int {
    value * pow2(lsb)
}

/// The number that has bit `bit` set if `value` holds, and nothing else.
pub open spec fn flag_value(bit: int, value: bool) -> int {
    if value {
        pow2(bit)
    } else {
        0
    }
}

/// The number that a single bit reads as: one if it is set, else zero.
pub open spec fn flag_number(value: bool) -> u8 {
    if value {
        1
    } else {
        0
    }
}

/// The byte that has the eight flags as its bits, `b0` lowest.
pub open spec fn flags_byte(
    b0: bool,
    b1: bool,
    b2: bool,
    b3: bool,
    b4: bool,
    b5: bool,
    b6: bool,
    b7: bool,
) -> int {
    flag_value(0, b0) + flag_value(1, b1) + flag_value(2, b2) + flag_value(3, b3) + flag_value(
        4,
        b4,
    ) + flag_value(5, b5) + flag_value(6, b6) + flag_value(7, b7)
}

/// A byte that is put together from eight flags has those flags as its bits.
pub proof fn lemma_flags_byte(
    b0: bool,
    b1: bool,
    b2: bool,
    b3: bool,
    b4: bool,
    b5: bool,
    b6: bool,
    b7: bool,
)
    ensures
        0 <= flags_byte(b0, b1, b2, b3, b4, b5, b6, b7) < 256,
        bit_of(flags_byte(b0, b1, b2, b3, b4, b5, b6, b7), 0) == b0,
        bit_of(flags_byte(b0, b1, b2, b3, b4, b5, b6, b7), 1) == b1,
        bit_of(flags_byte(b0, b1, b2, b3, b4, b5, b6, b7), 2) == b2,
        bit_of(flags_byte(b0, b1, b2, b3, b4, b5, b6, b7), 3) == b3,
        bit_of(flags_byte(b0, b1, b2, b3, b4, b5, b6, b7), 4) == b4,
        bit_of(flags_byte(b0, b1, b2, b3, b4, b5, b6, b7), 5) == b5,
        bit_of(flags_byte(b0, b1, b2, b3, b4, b5, b6, b7), 6) == b6,
        bit_of(flags_byte(b0, b1, b2, b3, b4, b5, b6, b7), 7) == b7,
{
    let x0: u8 = flag_number(b0);
    let x1: u8 = flag_number(b1);
    let x2: u8 = flag_number(b2);
    let x3: u8 = flag_number(b3);
    let x4: u8 = flag_number(b4);
    let x5: u8 = flag_number(b5);
    let x6: u8 = flag_number(b6);
    let x7: u8 = flag_number(b7);
    assert({
        let raw = x0 + 2 * x1 + 4 * x2 + 8 * x3 + 16 * x4 + 32 * x5 + 64 * x6 + 128 * x7;
        &&& raw < 256
        &&& raw % 2 == x0
        &&& (raw / 2) % 2 == x1
        &&& (raw / 4) % 2 == x2
        &&& (raw / 8) % 2 == x3
        &&& (raw / 16) % 2 == x4
        &&& (raw / 32) % 2 == x5
        &&& (raw / 64) % 2 == x6
        &&& (raw / 128) % 2 == x7
    }) by (bit_vector)
        requires
            x0 <= 1,
            x1 <= 1,
            x2 <= 1,
            x3 <= 1,
            x4 <= 1,
            x5 <= 1,
            x6 <= 1,
            x7 <= 1,
    ;
    assert(flag_value(0, b0) == x0);
    assert(flag_value(1, b1) == 2 * x1);
    assert(flag_value(2, b2) == 4 * x2);
    assert(flag_value(3, b3) == 8 * x3);
    assert(flag_value(4, b4) == 16 * x4);
    assert(flag_value(5, b5) == 32 * x5);
    assert(flag_value(6, b6) == 64 * x6);
    assert(flag_value(7, b7) == 128 * x7);
}

/// Setting the bits of a cleared byte one after the other, lowest first, puts
/// the byte together from the eight flags.
pub proof fn lemma_flags_set(
    b0: bool,
    b1: bool,
    b2: bool,
    b3: bool,
    b4: bool,
    b5: bool,
    b6: bool,
    b7: bool,
)
    ensures
        with_bit(
            with_bit(
                with_bit(
                    with_bit(
                        with_bit(with_bit(with_bit(with_bit(0, 0, b0), 1, b1), 2, b2), 3, b3),
                        4,
                        b4,
                    ),
                    5,
                    b5,
                ),
                6,
                b6,
            ),
            7,
            b7,
        ) == flags_byte(b0, b1, b2, b3, b4, b5, b6, b7),
{
    let r0 = with_bit(0, 0, b0);
    assert(r0 == flag_value(0, b0) && 0 <= r0 < 2);
    let r1 = with_bit(r0, 1, b1);
    assert(r1 == r0 + flag_value(1, b1) && 0 <= r1 < 4);
    let r2 = with_bit(r1, 2, b2);
    assert(r2 == r1 + flag_value(2, b2) && 0 <= r2 < 8);
    let r3 = with_bit(r2, 3, b3);
    assert(r3 == r2 + flag_value(3, b3) && 0 <= r3 < 16);
    let r4 = with_bit(r3, 4, b4);
    assert(r4 == r3 + flag_value(4, b4) && 0 <= r4 < 32);
    let r5 = with_bit(r4, 5, b5);
    assert(r5 == r4 + flag_value(5, b5) && 0 <= r5 < 64);
    let r6 = with_bit(r5, 6, b6);
    assert(r6 == r5 + flag_value(6, b6) && 0 <= r6 < 128);
    let r7 = with_bit(r6, 7, b7);
    assert(r7 == r6 + flag_value(7, b7) && 0 <= r7 < 256);
}

/// Reads a field of a byte with `bitfield::BitRange::<u8>::bit_range` on `u8`.
///
/// Trusted: the result is the number held in bits `lsb..=msb`. The crate
/// computes its shift amounts from `7 - msb` and `msb - lsb`, so the positions
/// must be in order and inside the byte.
#[verifier::external_body]
pub(crate) fn bit_range(raw: u8, msb: usize, lsb: usize) -> (value: u8)
    requires
        lsb <= msb < 8,
    ensures
        value == bits_of(raw as int, msb as int, lsb as int),
{
    BitRange::<u8>::bit_range(&raw, msb, lsb)
}

/// Writes a field of a byte with `bitfield::BitRange::<u8>::set_bit_range` on
/// `u8`.
///
/// Trusted: bits `lsb..=msb` of the result hold the low bits of `value`, and
/// the other bits are those of `raw`.
#[verifier::external_body]
pub(crate) fn set_bit_range(raw: u8, msb: usize, lsb: usize, value: u8) -> (updated: u8)
    requires
        lsb <= msb < 8,
    ensures
        updated == with_bits(raw as int, msb as int, lsb as int, value as int),
{
    let mut updated = raw;
    BitRange::<u8>::set_bit_range(&mut updated, msb, lsb, value);
    updated
}

/// Reads one bit of a byte with `bitfield::Bit::bit` on `u8`.
///
/// Trusted: the result says whether bit `index` is set.
#[verifier::external_body]
pub(crate) fn bit(raw: u8, index: usize) -> (value: bool)
    requires
        index < 8,
    ensures
        value == bit_of(raw as int, index as int),
{
    Bit::bit(&raw, index)
}

/// Writes one bit of a byte with `bitfield::Bit::set_bit` on `u8`.
///
/// Trusted: bit `index` of the result is `value`, and the other bits are those
/// of `raw`.
#[verifier::external_body]
pub(crate) fn set_bit(raw: u8, index: usize, value: bool) -> (updated: u8)
    requires
        index < 8,
    ensures
        updated == with_bit(raw as int, index as int, value),
{
    let mut updated = raw;
    Bit::set_bit(&mut updated, index, value);
    updated
}

/// Reads a field of at most eight bits out of a 32-bit word with
/// `bitfield::BitRange::<u8>::bit_range` on `u32`.
///
/// Trusted: the result is the number held in bits `lsb..=msb`. The crate
/// narrows the shifted word to a byte and then shifts by `8 - (msb - lsb + 1)`,
/// so the field must not be wider than the byte it is returned in.
#[verifier::external_body]
pub(crate) fn word_bit_range(word: u32, msb: usize, lsb: usize) -> (value: u8)
    requires
        lsb <= msb < 32,
        msb - lsb < 8,
    ensures
        value == bits_of(word as int, msb as int, lsb as int),
{
    BitRange::<u8>::bit_range(&word, msb, lsb)
}

} // verus!
