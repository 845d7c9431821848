//! Bit-range access to a 64-bit instruction word.
//!
//! A range is written `lo..hi`: bit `lo` is its least significant bit and
//! bit `hi` is the first bit past it.

use vstd::prelude::*;

verus! {

/// `lo..hi` is a non-empty range inside a 64-bit word.
pub open spec fn range_ok(lo: u32, hi: u32) -> bool {
    lo < hi && hi <= 64
}

/// The word whose low `bits` bits are set and no others.
pub open spec fn mask_for_bits(bits: u32) -> u64
    recommends
        1 <= bits <= 64,
{
    0xffff_ffff_ffff_ffffu64 >> ((64 - bits) as u64)
}

/// `val` can be stored in a field of `bits` bits without loss.
pub open spec fn fits_bits(val: u64, bits: u32) -> bool
    recommends
        1 <= bits <= 64,
{
    val <= mask_for_bits(bits)
}

/// `val` fits in the range `lo..hi`.
pub open spec fn fits(val: u64, lo: u32, hi: u32) -> bool
    recommends
        range_ok(lo, hi),
{
    fits_bits(val, (hi - lo) as u32)
}

/// The signed value `val` fits in the range `lo..hi` as two's complement.
pub open spec fn fits_signed(val: i64, lo: u32, hi: u32) -> bool
    recommends
        range_ok(lo, hi),
{
    -(mask_for_bits((hi - lo) as u32) / 2) - 1 <= val <= mask_for_bits((hi - lo) as u32) / 2
}

/// The bits `lo..hi` of `word`, as a number.
pub open spec fn field(word: u64, lo: u32, hi: u32) -> u64
    recommends
        range_ok(lo, hi),
{
    (word >> (lo as u64)) & mask_for_bits((hi - lo) as u32)
}

/// `word` with the bits `lo..hi` replaced by the low bits of `val`.
pub open spec fn with_field(word: u64, lo: u32, hi: u32, val: u64) -> u64
    recommends
        range_ok(lo, hi),
{
    (word & !(mask_for_bits((hi - lo) as u32) << (lo as u64))) | ((val & mask_for_bits(
        (hi - lo) as u32,
    )) << (lo as u64))
}

/// `word` with bit `bit` set to `val`.
pub open spec fn with_bit(word: u64, bit: u32, val: bool) -> u64
    recommends
        bit < 64,
{
    with_field(
        word,
        bit,
        (bit + 1) as u32,
        if val {
            1
        } else {
            0
        },
    )
}

/// The two's complement image of `val` cut to the width of `lo..hi`.
pub open spec fn signed_bits(val: i64, lo: u32, hi: u32) -> u64
    recommends
        range_ok(lo, hi),
{
    (val as u64) & mask_for_bits((hi - lo) as u32)
}

/// The 64-bit word made of a low and a high 32-bit word.
pub open spec fn join_words(lo: u32, hi: u32) -> u64 {
    (lo as u64) | ((hi as u64) << 32)
}

/// The masks of the field widths that the encoders use.
pub proof fn lemma_mask_values()
    ensures
        mask_for_bits(1) == 0x1,
        mask_for_bits(2) == 0x3,
        mask_for_bits(3) == 0x7,
        mask_for_bits(4) == 0xf,
        mask_for_bits(5) == 0x1f,
        mask_for_bits(6) == 0x3f,
        mask_for_bits(7) == 0x7f,
        mask_for_bits(8) == 0xff,
        mask_for_bits(10) == 0x3ff,
        mask_for_bits(13) == 0x1fff,
        mask_for_bits(14) == 0x3fff,
        mask_for_bits(16) == 0xffff,
        mask_for_bits(19) == 0x7ffff,
        mask_for_bits(20) == 0xfffff,
        mask_for_bits(21) == 0x1fffff,
        mask_for_bits(22) == 0x3fffff,
        mask_for_bits(24) == 0xffffff,
        mask_for_bits(32) == 0xffffffff,
        mask_for_bits(64) == 0xffff_ffff_ffff_ffff,
{
    assert(mask_for_bits(1) == 0x1 && mask_for_bits(2) == 0x3 && mask_for_bits(3) == 0x7
        && mask_for_bits(4) == 0xf && mask_for_bits(5) == 0x1f && mask_for_bits(6) == 0x3f
        && mask_for_bits(7) == 0x7f && mask_for_bits(8) == 0xff && mask_for_bits(10) == 0x3ff
        && mask_for_bits(13) == 0x1fff && mask_for_bits(14) == 0x3fff && mask_for_bits(16)
        == 0xffff && mask_for_bits(19) == 0x7ffff && mask_for_bits(20) == 0xfffff
        && mask_for_bits(21) == 0x1fffff && mask_for_bits(22) == 0x3fffff && mask_for_bits(24)
        == 0xffffff && mask_for_bits(32) == 0xffffffff && mask_for_bits(64)
        == 0xffff_ffff_ffff_ffff) by (bit_vector);
}

/// Reading a field that was just written gives back what was written.
pub proof fn lemma_field_of_with_field(word: u64, lo: u32, hi: u32, val: u64)
    requires
        range_ok(lo, hi),
        fits(val, lo, hi),
    ensures
        field(with_field(word, lo, hi, val), lo, hi) == val,
{
    assert(field(with_field(word, lo, hi, val), lo, hi) == val) by (bit_vector)
        requires
            range_ok(lo, hi),
            fits(val, lo, hi),
    ;
}

/// Writing a field leaves every range that does not overlap it as it was.
pub proof fn lemma_field_disjoint(word: u64, lo: u32, hi: u32, val: u64, lo2: u32, hi2: u32)
    requires
        range_ok(lo, hi),
        range_ok(lo2, hi2),
        hi2 <= lo || hi <= lo2,
    ensures
        field(with_field(word, lo, hi, val), lo2, hi2) == field(word, lo2, hi2),
{
    assert(field(with_field(word, lo, hi, val), lo2, hi2) == field(word, lo2, hi2))
        by (bit_vector)
        requires
            range_ok(lo, hi),
            range_ok(lo2, hi2),
            hi2 <= lo || hi <= lo2,
    ;
}

/// Writes to ranges that do not overlap can be made in either order.
pub proof fn lemma_with_field_commutes(
    word: u64,
    lo: u32,
    hi: u32,
    val: u64,
    lo2: u32,
    hi2: u32,
    val2: u64,
)
    requires
        range_ok(lo, hi),
        range_ok(lo2, hi2),
        hi2 <= lo || hi <= lo2,
    ensures
        with_field(with_field(word, lo, hi, val), lo2, hi2, val2) == with_field(
            with_field(word, lo2, hi2, val2),
            lo,
            hi,
            val,
        ),
{
    assert(with_field(with_field(word, lo, hi, val), lo2, hi2, val2) == with_field(
        with_field(word, lo2, hi2, val2),
        lo,
        hi,
        val,
    )) by (bit_vector)
        requires
            range_ok(lo, hi),
            range_ok(lo2, hi2),
            hi2 <= lo || hi <= lo2,
    ;
}

/// A later write to a range replaces an earlier one.
pub proof fn lemma_with_field_overwrites(word: u64, lo: u32, hi: u32, val: u64, val2: u64)
    requires
        range_ok(lo, hi),
    ensures
        with_field(with_field(word, lo, hi, val), lo, hi, val2) == with_field(word, lo, hi, val2),
{
    assert(with_field(with_field(word, lo, hi, val), lo, hi, val2) == with_field(
        word,
        lo,
        hi,
        val2,
    )) by (bit_vector)
        requires
            range_ok(lo, hi),
    ;
}

/// The mask of `bits` low bits.
pub fn u64_mask_for_bits(bits: u32) -> (m: u64)
    requires
        1 <= bits <= 64,
    ensures
        m == mask_for_bits(bits),
{
    let s: u32 = 64 - bits;
    0xffff_ffff_ffff_ffffu64 >> (s as u64)
}

/// Reads the bits `lo..hi` of `word`.
pub fn get_bit_range_u64(word: u64, lo: u32, hi: u32) -> (val: u64)
    requires
        range_ok(lo, hi),
    ensures
        val == field(word, lo, hi),
        fits(val, lo, hi),
{
    let mask: u64 = u64_mask_for_bits(hi - lo);
    let val: u64 = (word >> (lo as u64)) & mask;
    assert(val <= mask) by (bit_vector)
        requires
            val == (word >> (lo as u64)) & mask,
    ;
    val
}

/// Replaces the bits `lo..hi` of `word` by the low bits of `val`; bits of
/// `val` past the width of the range are dropped.
pub fn set_bit_range_u64(word: u64, lo: u32, hi: u32, val: u64) -> (res: u64)
    requires
        range_ok(lo, hi),
    ensures
        res == with_field(word, lo, hi, val),
{
    let mask: u64 = u64_mask_for_bits(hi - lo);
    (word & !(mask << (lo as u64))) | ((val & mask) << (lo as u64))
}

/// Whether `val` fits in `lo..hi`.
pub fn check_fits(val: u64, lo: u32, hi: u32) -> (ok: bool)
    requires
        range_ok(lo, hi),
    ensures
        ok == fits(val, lo, hi),
{
    val <= u64_mask_for_bits(hi - lo)
}

/// Whether the signed `val` fits in `lo..hi` as two's complement.
pub fn check_fits_signed(val: i64, lo: u32, hi: u32) -> (ok: bool)
    requires
        range_ok(lo, hi),
    ensures
        ok == fits_signed(val, lo, hi),
{
    let half: u64 = u64_mask_for_bits(hi - lo) / 2;
    assert(half <= 0x7fff_ffff_ffff_ffff);
    let h: i64 = half as i64;
    -h - 1 <= val && val <= h
}

/// Replaces the bits `lo..hi` of `word` by `val`, which fits there.
pub fn set_field_u64(word: u64, lo: u32, hi: u32, val: u64) -> (res: u64)
    requires
        range_ok(lo, hi),
        fits(val, lo, hi),
    ensures
        res == with_field(word, lo, hi, val),
        field(res, lo, hi) == val,
{
    proof {
        lemma_field_of_with_field(word, lo, hi, val);
    }
    set_bit_range_u64(word, lo, hi, val)
}

/// Joins two 32-bit words, the low one first.
pub fn words_to_u64(words: [u32; 2]) -> (w: u64)
    ensures
        w == join_words(words[0], words[1]),
{
    (words[0] as u64) | ((words[1] as u64) << 32)
}

/// Splits a 64-bit word into its low and high 32-bit words.
pub fn u64_to_words(w: u64) -> (words: [u32; 2])
    ensures
        words[0] == (w & 0xffff_ffff) as u32,
        words[1] == (w >> 32) as u32,
        join_words(words[0], words[1]) == w,
{
    let lo: u64 = w & 0xffff_ffff;
    let hi: u64 = w >> 32;
    assert(lo <= 0xffff_ffff && hi <= 0xffff_ffff && (lo | (hi << 32)) == w) by (bit_vector)
        requires
            lo == w & 0xffff_ffff,
            hi == w >> 32,
    ;
    [lo as u32, hi as u32]
}

} // verus!
