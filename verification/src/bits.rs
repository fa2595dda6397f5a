//! Bit-level access to integers, through the `bit_field` crate.
//!
//! Each `BitField` method that the library uses on a given integer type is
//! reached through one wrapper below, whose contract restates what the
//! crate's source computes: `get_bit` tests `x & (1 << bit)`, `set_bit` ors
//! or clears that mask, `get_bits` shifts the high bits away and then the
//! low ones, and `set_bits` clears the range with a mask before oring in
//! the shifted value. Each wrapper's `requires` is the crate's own
//! assertions, so that no call can panic.
use bit_field::BitField;
use vstd::prelude::*;

verus! {

/// The value of bit `bit` of `x`.
pub open spec fn bit_of_u8(x: u8, bit: usize) -> bool {
    x & (1u8 << bit) != 0
}

/// `x` with bit `bit` set to `value`.
pub open spec fn with_bit_u8(x: u8, bit: usize, value: bool) -> u8 {
    if value {
        x | (1u8 << bit)
    } else {
        x & !(1u8 << bit)
    }
}

/// The bits `lo..hi` of `x`, shifted down to bit 0.
pub open spec fn bits_of_u8(x: u8, lo: usize, hi: usize) -> u8 {
    if lo == hi {
        0
    } else {
        ((x << ((8 - hi) as usize)) >> ((8 - hi) as usize)) >> lo
    }
}

/// `x` with the bits `lo..hi` replaced by the low bits of `value`.
pub open spec fn with_bits_u8(x: u8, lo: usize, hi: usize, value: u8) -> u8 {
    if lo == hi {
        x
    } else {
        (x & !((((!0u8) << ((8 - hi) as usize)) >> ((8 - hi) as usize)) >> lo << lo)) | (value << lo)
    }
}

/// `BitField::get_bit` on `u8`: whether bit `bit` of `x` is set.
#[verifier::external_body]
pub(crate) fn get_bit_u8(x: u8, bit: usize) -> (r: bool)
    requires
        bit < 8,
    ensures
        r == bit_of_u8(x, bit),
{
    x.get_bit(bit)
}

/// `BitField::set_bit` on `u8`: `x` with bit `bit` set to `value`.
#[verifier::external_body]
pub(crate) fn set_bit_u8(x: u8, bit: usize, value: bool) -> (r: u8)
    requires
        bit < 8,
    ensures
        r == with_bit_u8(x, bit, value),
{
    let mut y = x;
    y.set_bit(bit, value);
    y
}

/// `BitField::get_bits` on `u8` with the range `lo..hi`.
#[verifier::external_body]
pub(crate) fn get_bits_u8(x: u8, lo: usize, hi: usize) -> (r: u8)
    requires
        lo < 8,
        hi <= 8,
        lo <= hi,
    ensures
        r == bits_of_u8(x, lo, hi),
{
    x.get_bits(lo..hi)
}

/// `BitField::set_bits` on `u8` with the range `lo..hi`; `value` must fit in
/// `hi - lo` bits, as the crate asserts.
#[verifier::external_body]
pub(crate) fn set_bits_u8(x: u8, lo: usize, hi: usize, value: u8) -> (r: u8)
    requires
        lo < hi,
        hi <= 8,
        value >> ((hi - lo) as usize) == 0,
    ensures
        r == with_bits_u8(x, lo, hi, value),
{
    let mut y = x;
    y.set_bits(lo..hi, value);
    y
}

/// The value of bit `bit` of `x`.
pub open spec fn bit_of_u16(x: u16, bit: usize) -> bool {
    x & (1u16 << bit) != 0
}

/// `x` with bit `bit` set to `value`.
pub open spec fn with_bit_u16(x: u16, bit: usize, value: bool) -> u16 {
    if value {
        x | (1u16 << bit)
    } else {
        x & !(1u16 << bit)
    }
}

/// The bits `lo..hi` of `x`, shifted down to bit 0.
pub open spec fn bits_of_u16(x: u16, lo: usize, hi: usize) -> u16 {
    if lo == hi {
        0
    } else {
        ((x << ((16 - hi) as usize)) >> ((16 - hi) as usize)) >> lo
    }
}

/// `x` with the bits `lo..hi` replaced by the low bits of `value`.
pub open spec fn with_bits_u16(x: u16, lo: usize, hi: usize, value: u16) -> u16 {
    if lo == hi {
        x
    } else {
        (x & !((((!0u16) << ((16 - hi) as usize)) >> ((16 - hi) as usize)) >> lo << lo)) | (value << lo)
    }
}

/// `BitField::get_bit` on `u16`: whether bit `bit` of `x` is set.
#[verifier::external_body]
pub(crate) fn get_bit_u16(x: u16, bit: usize) -> (r: bool)
    requires
        bit < 16,
    ensures
        r == bit_of_u16(x, bit),
{
    x.get_bit(bit)
}

/// `BitField::set_bit` on `u16`: `x` with bit `bit` set to `value`.
#[verifier::external_body]
pub(crate) fn set_bit_u16(x: u16, bit: usize, value: bool) -> (r: u16)
    requires
        bit < 16,
    ensures
        r == with_bit_u16(x, bit, value),
{
    let mut y = x;
    y.set_bit(bit, value);
    y
}

/// `BitField::get_bits` on `u16` with the range `lo..hi`.
#[verifier::external_body]
pub(crate) fn get_bits_u16(x: u16, lo: usize, hi: usize) -> (r: u16)
    requires
        lo < 16,
        hi <= 16,
        lo <= hi,
    ensures
        r == bits_of_u16(x, lo, hi),
{
    x.get_bits(lo..hi)
}

/// `BitField::set_bits` on `u16` with the range `lo..hi`; `value` must fit in
/// `hi - lo` bits, as the crate asserts.
#[verifier::external_body]
pub(crate) fn set_bits_u16(x: u16, lo: usize, hi: usize, value: u16) -> (r: u16)
    requires
        lo < hi,
        hi <= 16,
        value >> ((hi - lo) as usize) == 0,
    ensures
        r == with_bits_u16(x, lo, hi, value),
{
    let mut y = x;
    y.set_bits(lo..hi, value);
    y
}

/// The value of bit `bit` of `x`.
pub open spec fn bit_of_u32(x: u32, bit: usize) -> bool {
    x & (1u32 << bit) != 0
}

/// `x` with bit `bit` set to `value`.
pub open spec fn with_bit_u32(x: u32, bit: usize, value: bool) -> u32 {
    if value {
        x | (1u32 << bit)
    } else {
        x & !(1u32 << bit)
    }
}

/// The bits `lo..hi` of `x`, shifted down to bit 0.
pub open spec fn bits_of_u32(x: u32, lo: usize, hi: usize) -> u32 {
    if lo == hi {
        0
    } else {
        ((x << ((32 - hi) as usize)) >> ((32 - hi) as usize)) >> lo
    }
}

/// `x` with the bits `lo..hi` replaced by the low bits of `value`.
pub open spec fn with_bits_u32(x: u32, lo: usize, hi: usize, value: u32) -> u32 {
    if lo == hi {
        x
    } else {
        (x & !((((!0u32) << ((32 - hi) as usize)) >> ((32 - hi) as usize)) >> lo << lo)) | (value << lo)
    }
}

/// `BitField::get_bit` on `u32`: whether bit `bit` of `x` is set.
#[verifier::external_body]
pub(crate) fn get_bit_u32(x: u32, bit: usize) -> (r: bool)
    requires
        bit < 32,
    ensures
        r == bit_of_u32(x, bit),
{
    x.get_bit(bit)
}

/// `BitField::set_bit` on `u32`: `x` with bit `bit` set to `value`.
#[verifier::external_body]
pub(crate) fn set_bit_u32(x: u32, bit: usize, value: bool) -> (r: u32)
    requires
        bit < 32,
    ensures
        r == with_bit_u32(x, bit, value),
{
    let mut y = x;
    y.set_bit(bit, value);
    y
}

/// `BitField::get_bits` on `u32` with the range `lo..hi`.
#[verifier::external_body]
pub(crate) fn get_bits_u32(x: u32, lo: usize, hi: usize) -> (r: u32)
    requires
        lo < 32,
        hi <= 32,
        lo <= hi,
    ensures
        r == bits_of_u32(x, lo, hi),
{
    x.get_bits(lo..hi)
}

/// `BitField::set_bits` on `u32` with the range `lo..hi`; `value` must fit in
/// `hi - lo` bits, as the crate asserts.
#[verifier::external_body]
pub(crate) fn set_bits_u32(x: u32, lo: usize, hi: usize, value: u32) -> (r: u32)
    requires
        lo < hi,
        hi <= 32,
        value >> ((hi - lo) as usize) == 0,
    ensures
        r == with_bits_u32(x, lo, hi, value),
{
    let mut y = x;
    y.set_bits(lo..hi, value);
    y
}
/// Writing a bit then reading it gives back the value written.
pub proof fn lemma_u8_bit_roundtrip(x: u8, bit: usize, value: bool)
    by (bit_vector)
    requires
        bit < 8,
    ensures
        bit_of_u8(with_bit_u8(x, bit, value), bit) == value,
{
}

/// Writing one bit leaves every other bit as it was.
pub proof fn lemma_u8_bit_frame(x: u8, bit: usize, value: bool, other: usize)
    by (bit_vector)
    requires
        bit < 8,
        other < 8,
        bit != other,
    ensures
        bit_of_u8(with_bit_u8(x, bit, value), other) == bit_of_u8(x, other),
{
}

/// Writing a bit of a 32-bit word then reading it gives back the value
/// written, and leaves every other bit as it was.
pub proof fn lemma_u32_bit_write(x: u32, bit: usize, value: bool, other: usize)
    by (bit_vector)
    requires
        bit < 32,
        other < 32,
    ensures
        bit_of_u32(with_bit_u32(x, bit, value), bit) == value,
        other != bit ==> bit_of_u32(with_bit_u32(x, bit, value), other) == bit_of_u32(x, other),
{
}

/// Writing a range of bits then reading that range gives back the value written.
pub proof fn lemma_u8_bits_roundtrip(x: u8, lo: usize, hi: usize, value: u8)
    by (bit_vector)
    requires
        lo < hi,
        hi <= 8,
        value >> ((hi - lo) as usize) == 0,
    ensures
        bits_of_u8(with_bits_u8(x, lo, hi, value), lo, hi) == value,
{
}

/// Writing the bits `lo..hi` of a byte leaves the bits `lo2..hi2` as they
/// were when the two ranges do not meet.
pub proof fn lemma_u8_bits_frame(x: u8, lo: usize, hi: usize, value: u8, lo2: usize, hi2: usize)
    by (bit_vector)
    requires
        lo < hi <= 8,
        lo2 < hi2 <= 8,
        hi <= lo2 || hi2 <= lo,
        value >> ((hi - lo) as usize) == 0,
    ensures
        bits_of_u8(with_bits_u8(x, lo, hi, value), lo2, hi2) == bits_of_u8(x, lo2, hi2),
{
}

/// Writing one bit of a byte leaves a field of bits that does not hold it
/// as it was.
pub proof fn lemma_u8_bit_bits_frame(x: u8, bit: usize, value: bool, lo: usize, hi: usize)
    by (bit_vector)
    requires
        bit < 8,
        lo < hi <= 8,
        bit < lo || hi <= bit,
    ensures
        bits_of_u8(with_bit_u8(x, bit, value), lo, hi) == bits_of_u8(x, lo, hi),
{
}

/// Writing the bits `lo..hi` of a byte leaves each bit outside them as it
/// was.
pub proof fn lemma_u8_bits_bit_frame(x: u8, lo: usize, hi: usize, value: u8, bit: usize)
    by (bit_vector)
    requires
        lo < hi <= 8,
        bit < 8,
        bit < lo || hi <= bit,
        value >> ((hi - lo) as usize) == 0,
    ensures
        bit_of_u8(with_bits_u8(x, lo, hi, value), bit) == bit_of_u8(x, bit),
{
}

/// A byte below `2^n` fits in `n` bits.
pub proof fn lemma_u8_fits(v: u8)
    by (bit_vector)
    ensures
        v < 2 ==> v >> 1usize == 0,
        v < 4 ==> v >> 2usize == 0,
        v < 8 ==> v >> 3usize == 0,
        v < 16 ==> v >> 4usize == 0,
        v < 32 ==> v >> 5usize == 0,
{
}

/// A 16-bit word below `2^n` fits in `n` bits.
pub proof fn lemma_u16_fits(v: u16)
    by (bit_vector)
    ensures
        v < 32 ==> v >> 5usize == 0,
{
}

/// A 32-bit word below `2^n` fits in `n` bits.
pub proof fn lemma_u32_fits(v: u32)
    by (bit_vector)
    ensures
        v < 0x40_0000 ==> v >> 22usize == 0,
{
}

/// The bytes the library builds bit by bit from constants.
pub proof fn lemma_u8_constants(code: u8)
    by (bit_vector)
    ensures
        with_bit_u8(0, 7, true) == 0x80,
        with_bit_u8(0, 3, true) == 0b1000,
        with_bit_u8(0, 2, true) == 0b100,
        with_bit_u8(0b10000, 0, true) == 0b10001,
        bit_of_u8(0b10001, 0),
        with_bits_u8(with_bits_u8(0, 0, 3, 0), 5, 8, 1) == 0x20,
        with_bits_u8(0b1000, 0, 2, 0b10) == 0b1010,
        with_bits_u8(0b1000, 0, 2, 0b11) == 0b1011,
        code <= 15 ==> with_bits_u8(with_bits_u8(with_bit_u8(0x80, 4, false), 5, 7, 0), 0, 4, code)
            == 0x80 | code,
{
}

/// The two bytes of a 16-bit word, and the word of two bytes.
pub proof fn lemma_u16_halves(mask: u16, low: u8, high: u8)
    by (bit_vector)
    ensures
        bits_of_u16(mask, 0, 8) as u8 == mask as u8,
        bits_of_u16(mask, 8, 16) as u8 == (mask >> 8u16) as u8,
        ((mask >> 8u16) as u8 as u16) << 8u16 | (mask as u8 as u16) == mask,
        ((high as u16) << 8u16 | low as u16) as u8 == low,
        (((high as u16) << 8u16 | low as u16) >> 8u16) as u8 == high,
{
}

/// The two halves of a 32-bit word put back together give the word.
pub proof fn lemma_u32_halves(x: u32)
    by (bit_vector)
    ensures
        (((x >> 16u32) as u16 as u32) << 16u32) | (x as u16 as u32) == x,
{
}

/// The fields of 32-bit registers the library reads fit their widths.
pub proof fn lemma_u32_field_ranges(x: u32)
    by (bit_vector)
    ensures
        bits_of_u32(x, 8, 13) < 32,
        bits_of_u32(x, 0, 22) < 0x40_0000,
{
}

/// Writing a bit twice leaves the second value.
pub proof fn lemma_u8_bit_overwrite(x: u8, bit: usize, a: bool, b: bool)
    by (bit_vector)
    requires
        bit < 8,
    ensures
        with_bit_u8(with_bit_u8(x, bit, a), bit, b) == with_bit_u8(x, bit, b),
{
}

/// Writing a range of bits of a 16-bit word then reading that range gives
/// back the value written.
pub proof fn lemma_u16_bits_roundtrip(x: u16, lo: usize, hi: usize, value: u16)
    by (bit_vector)
    requires
        lo < hi,
        hi <= 16,
        value >> ((hi - lo) as usize) == 0,
    ensures
        bits_of_u16(with_bits_u16(x, lo, hi, value), lo, hi) == value,
{
}

/// Writing a range of bits of a 32-bit word then reading that range gives
/// back the value written.
pub proof fn lemma_u32_bits_roundtrip(x: u32, lo: usize, hi: usize, value: u32)
    by (bit_vector)
    requires
        lo < hi,
        hi <= 32,
        value >> ((hi - lo) as usize) == 0,
    ensures
        bits_of_u32(with_bits_u32(x, lo, hi, value), lo, hi) == value,
{
}

/// A 16-bit word is its low byte plus 256 times its high byte, and the
/// word of two bytes gives them back.
pub proof fn lemma_u16_bytes(w: u16, lo: u8, hi: u8)
    by (bit_vector)
    ensures
        (w as u8) as u16 + ((w >> 8u16) as u8) as u16 * 256 == w,
        ((lo as u16 + hi as u16 * 256) as u16) as u8 == lo,
        (((lo as u16 + hi as u16 * 256) as u16) >> 8u16) as u8 == hi,
{
}

/// The two low bytes of a 32-bit word below 65536 put back together give
/// the word.
pub proof fn lemma_u32_low_bytes(d: u32)
    by (bit_vector)
    ensures
        d <= 0xffff ==> bits_of_u32(d, 0, 8) + bits_of_u32(d, 8, 16) * 256 == d,
{
}

} // verus!
