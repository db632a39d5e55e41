//! Masked sub-range accessors over unsigned backing integers.
//!
//! An IEEE-numbered bitfield declares, inside an N-bit backing integer, a set
//! of disjoint bit ranges `[lo, hi]`. Reading such a range yields
//! `(value >> lo) & mask` where `mask` has the low `hi - lo + 1` bits set;
//! writing it replaces exactly those bits and leaves every other bit,
//! including reserved ranges, unchanged. The functions here implement that
//! contract once per backing width; the field structures build their
//! accessors on top of them.

use vstd::prelude::*;

verus! {

/// The bits of `x` in the range selected by `m << lo`, shifted down to bit 0.
pub open spec fn get_bits8(x: u8, lo: u8, m: u8) -> u8 {
    (x >> lo) & m
}

/// `x` with the bits selected by `m << lo` replaced by the low bits of `v`.
pub open spec fn set_bits8(x: u8, lo: u8, m: u8, v: u8) -> u8 {
    (x & !(m << lo)) | ((v & m) << lo)
}

/// Whether bit `lo` of `x` is set.
pub open spec fn get_bit8(x: u8, lo: u8) -> bool {
    (x >> lo) & 1 == 1
}

/// `x` with bit `lo` set to `b` and every other bit unchanged.
pub open spec fn set_bit8(x: u8, lo: u8, b: bool) -> u8 {
    if b {
        x | (1u8 << lo)
    } else {
        x & !(1u8 << lo)
    }
}

pub fn read_bits_u8(x: u8, lo: u8, m: u8) -> (r: u8)
    requires
        lo < 8,
    ensures
        r == get_bits8(x, lo, m),
{
    (x >> lo) & m
}

pub fn write_bits_u8(x: u8, lo: u8, m: u8, v: u8) -> (r: u8)
    requires
        lo < 8,
    ensures
        r == set_bits8(x, lo, m, v),
{
    (x & !(m << lo)) | ((v & m) << lo)
}

pub fn read_bit_u8(x: u8, lo: u8) -> (b: bool)
    requires
        lo < 8,
    ensures
        b == get_bit8(x, lo),
{
    (x >> lo) & 1 == 1
}

pub fn write_bit_u8(x: u8, lo: u8, b: bool) -> (r: u8)
    requires
        lo < 8,
    ensures
        r == set_bit8(x, lo, b),
{
    if b {
        x | (1u8 << lo)
    } else {
        x & !(1u8 << lo)
    }
}

/// Writing back the sub-range just read leaves the backing integer unchanged,
/// for every mask `m` that fits above `lo` without losing bits.
pub proof fn lemma_set_get_noop8(x: u8, lo: u8, m: u8)
    requires
        lo < 8,
        ((m << lo) >> lo) == m,
    ensures
        set_bits8(x, lo, m, get_bits8(x, lo, m)) == x,
{
    assert((x & !(m << lo)) | ((((x >> lo) & m) & m) << lo) == x) by (bit_vector)
        requires
            lo < 8,
            ((m << lo) >> lo) == m,
    ;
}

/// Reading a sub-range right after writing it yields the written value,
/// truncated to the mask.
pub proof fn lemma_get_set8(x: u8, lo: u8, m: u8, v: u8)
    requires
        lo < 8,
        ((m << lo) >> lo) == m,
    ensures
        get_bits8(set_bits8(x, lo, m, v), lo, m) == v & m,
{
    assert((((x & !(m << lo)) | ((v & m) << lo)) >> lo) & m == v & m) by (bit_vector)
        requires
            lo < 8,
            ((m << lo) >> lo) == m,
    ;
}

/// Writing back the bit just read leaves the backing integer unchanged.
pub proof fn lemma_set_get_bit_noop8(x: u8, lo: u8)
    requires
        lo < 8,
    ensures
        set_bit8(x, lo, get_bit8(x, lo)) == x,
{
    assert(if (x >> lo) & 1 == 1 {
        x | (1u8 << lo) == x
    } else {
        x & !(1u8 << lo) == x
    }) by (bit_vector)
        requires
            lo < 8,
    ;
}

/// The bits of `x` in the range selected by `m << lo`, shifted down to bit 0.
pub open spec fn get_bits16(x: u16, lo: u16, m: u16) -> u16 {
    (x >> lo) & m
}

/// `x` with the bits selected by `m << lo` replaced by the low bits of `v`.
pub open spec fn set_bits16(x: u16, lo: u16, m: u16, v: u16) -> u16 {
    (x & !(m << lo)) | ((v & m) << lo)
}

/// Whether bit `lo` of `x` is set.
pub open spec fn get_bit16(x: u16, lo: u16) -> bool {
    (x >> lo) & 1 == 1
}

/// `x` with bit `lo` set to `b` and every other bit unchanged.
pub open spec fn set_bit16(x: u16, lo: u16, b: bool) -> u16 {
    if b {
        x | (1u16 << lo)
    } else {
        x & !(1u16 << lo)
    }
}

pub fn read_bits_u16(x: u16, lo: u16, m: u16) -> (r: u16)
    requires
        lo < 16,
    ensures
        r == get_bits16(x, lo, m),
{
    (x >> lo) & m
}

pub fn write_bits_u16(x: u16, lo: u16, m: u16, v: u16) -> (r: u16)
    requires
        lo < 16,
    ensures
        r == set_bits16(x, lo, m, v),
{
    (x & !(m << lo)) | ((v & m) << lo)
}

pub fn read_bit_u16(x: u16, lo: u16) -> (b: bool)
    requires
        lo < 16,
    ensures
        b == get_bit16(x, lo),
{
    (x >> lo) & 1 == 1
}

pub fn write_bit_u16(x: u16, lo: u16, b: bool) -> (r: u16)
    requires
        lo < 16,
    ensures
        r == set_bit16(x, lo, b),
{
    if b {
        x | (1u16 << lo)
    } else {
        x & !(1u16 << lo)
    }
}

/// Writing back the sub-range just read leaves the backing integer unchanged,
/// for every mask `m` that fits above `lo` without losing bits.
pub proof fn lemma_set_get_noop16(x: u16, lo: u16, m: u16)
    requires
        lo < 16,
        ((m << lo) >> lo) == m,
    ensures
        set_bits16(x, lo, m, get_bits16(x, lo, m)) == x,
{
    assert((x & !(m << lo)) | ((((x >> lo) & m) & m) << lo) == x) by (bit_vector)
        requires
            lo < 16,
            ((m << lo) >> lo) == m,
    ;
}

/// Reading a sub-range right after writing it yields the written value,
/// truncated to the mask.
pub proof fn lemma_get_set16(x: u16, lo: u16, m: u16, v: u16)
    requires
        lo < 16,
        ((m << lo) >> lo) == m,
    ensures
        get_bits16(set_bits16(x, lo, m, v), lo, m) == v & m,
{
    assert((((x & !(m << lo)) | ((v & m) << lo)) >> lo) & m == v & m) by (bit_vector)
        requires
            lo < 16,
            ((m << lo) >> lo) == m,
    ;
}

/// Writing back the bit just read leaves the backing integer unchanged.
pub proof fn lemma_set_get_bit_noop16(x: u16, lo: u16)
    requires
        lo < 16,
    ensures
        set_bit16(x, lo, get_bit16(x, lo)) == x,
{
    assert(if (x >> lo) & 1 == 1 {
        x | (1u16 << lo) == x
    } else {
        x & !(1u16 << lo) == x
    }) by (bit_vector)
        requires
            lo < 16,
    ;
}

/// The bits of `x` in the range selected by `m << lo`, shifted down to bit 0.
pub open spec fn get_bits32(x: u32, lo: u32, m: u32) -> u32 {
    (x >> lo) & m
}

/// `x` with the bits selected by `m << lo` replaced by the low bits of `v`.
pub open spec fn set_bits32(x: u32, lo: u32, m: u32, v: u32) -> u32 {
    (x & !(m << lo)) | ((v & m) << lo)
}

/// Whether bit `lo` of `x` is set.
pub open spec fn get_bit32(x: u32, lo: u32) -> bool {
    (x >> lo) & 1 == 1
}

/// `x` with bit `lo` set to `b` and every other bit unchanged.
pub open spec fn set_bit32(x: u32, lo: u32, b: bool) -> u32 {
    if b {
        x | (1u32 << lo)
    } else {
        x & !(1u32 << lo)
    }
}

pub fn read_bits_u32(x: u32, lo: u32, m: u32) -> (r: u32)
    requires
        lo < 32,
    ensures
        r == get_bits32(x, lo, m),
{
    (x >> lo) & m
}

pub fn write_bits_u32(x: u32, lo: u32, m: u32, v: u32) -> (r: u32)
    requires
        lo < 32,
    ensures
        r == set_bits32(x, lo, m, v),
{
    (x & !(m << lo)) | ((v & m) << lo)
}

pub fn read_bit_u32(x: u32, lo: u32) -> (b: bool)
    requires
        lo < 32,
    ensures
        b == get_bit32(x, lo),
{
    (x >> lo) & 1 == 1
}

pub fn write_bit_u32(x: u32, lo: u32, b: bool) -> (r: u32)
    requires
        lo < 32,
    ensures
        r == set_bit32(x, lo, b),
{
    if b {
        x | (1u32 << lo)
    } else {
        x & !(1u32 << lo)
    }
}

/// Writing back the sub-range just read leaves the backing integer unchanged,
/// for every mask `m` that fits above `lo` without losing bits.
pub proof fn lemma_set_get_noop32(x: u32, lo: u32, m: u32)
    requires
        lo < 32,
        ((m << lo) >> lo) == m,
    ensures
        set_bits32(x, lo, m, get_bits32(x, lo, m)) == x,
{
    assert((x & !(m << lo)) | ((((x >> lo) & m) & m) << lo) == x) by (bit_vector)
        requires
            lo < 32,
            ((m << lo) >> lo) == m,
    ;
}

/// Reading a sub-range right after writing it yields the written value,
/// truncated to the mask.
pub proof fn lemma_get_set32(x: u32, lo: u32, m: u32, v: u32)
    requires
        lo < 32,
        ((m << lo) >> lo) == m,
    ensures
        get_bits32(set_bits32(x, lo, m, v), lo, m) == v & m,
{
    assert((((x & !(m << lo)) | ((v & m) << lo)) >> lo) & m == v & m) by (bit_vector)
        requires
            lo < 32,
            ((m << lo) >> lo) == m,
    ;
}

/// Writing back the bit just read leaves the backing integer unchanged.
pub proof fn lemma_set_get_bit_noop32(x: u32, lo: u32)
    requires
        lo < 32,
    ensures
        set_bit32(x, lo, get_bit32(x, lo)) == x,
{
    assert(if (x >> lo) & 1 == 1 {
        x | (1u32 << lo) == x
    } else {
        x & !(1u32 << lo) == x
    }) by (bit_vector)
        requires
            lo < 32,
    ;
}

/// The bits of `x` in the range selected by `m << lo`, shifted down to bit 0.
pub open spec fn get_bits64(x: u64, lo: u64, m: u64) -> u64 {
    (x >> lo) & m
}

/// `x` with the bits selected by `m << lo` replaced by the low bits of `v`.
pub open spec fn set_bits64(x: u64, lo: u64, m: u64, v: u64) -> u64 {
    (x & !(m << lo)) | ((v & m) << lo)
}

/// Whether bit `lo` of `x` is set.
pub open spec fn get_bit64(x: u64, lo: u64) -> bool {
    (x >> lo) & 1 == 1
}

/// `x` with bit `lo` set to `b` and every other bit unchanged.
pub open spec fn set_bit64(x: u64, lo: u64, b: bool) -> u64 {
    if b {
        x | (1u64 << lo)
    } else {
        x & !(1u64 << lo)
    }
}

pub fn read_bits_u64(x: u64, lo: u64, m: u64) -> (r: u64)
    requires
        lo < 64,
    ensures
        r == get_bits64(x, lo, m),
{
    (x >> lo) & m
}

pub fn write_bits_u64(x: u64, lo: u64, m: u64, v: u64) -> (r: u64)
    requires
        lo < 64,
    ensures
        r == set_bits64(x, lo, m, v),
{
    (x & !(m << lo)) | ((v & m) << lo)
}

pub fn read_bit_u64(x: u64, lo: u64) -> (b: bool)
    requires
        lo < 64,
    ensures
        b == get_bit64(x, lo),
{
    (x >> lo) & 1 == 1
}

pub fn write_bit_u64(x: u64, lo: u64, b: bool) -> (r: u64)
    requires
        lo < 64,
    ensures
        r == set_bit64(x, lo, b),
{
    if b {
        x | (1u64 << lo)
    } else {
        x & !(1u64 << lo)
    }
}

/// Writing back the sub-range just read leaves the backing integer unchanged,
/// for every mask `m` that fits above `lo` without losing bits.
pub proof fn lemma_set_get_noop64(x: u64, lo: u64, m: u64)
    requires
        lo < 64,
        ((m << lo) >> lo) == m,
    ensures
        set_bits64(x, lo, m, get_bits64(x, lo, m)) == x,
{
    assert((x & !(m << lo)) | ((((x >> lo) & m) & m) << lo) == x) by (bit_vector)
        requires
            lo < 64,
            ((m << lo) >> lo) == m,
    ;
}

/// Reading a sub-range right after writing it yields the written value,
/// truncated to the mask.
pub proof fn lemma_get_set64(x: u64, lo: u64, m: u64, v: u64)
    requires
        lo < 64,
        ((m << lo) >> lo) == m,
    ensures
        get_bits64(set_bits64(x, lo, m, v), lo, m) == v & m,
{
    assert((((x & !(m << lo)) | ((v & m) << lo)) >> lo) & m == v & m) by (bit_vector)
        requires
            lo < 64,
            ((m << lo) >> lo) == m,
    ;
}

/// Writing back the bit just read leaves the backing integer unchanged.
pub proof fn lemma_set_get_bit_noop64(x: u64, lo: u64)
    requires
        lo < 64,
    ensures
        set_bit64(x, lo, get_bit64(x, lo)) == x,
{
    assert(if (x >> lo) & 1 == 1 {
        x | (1u64 << lo) == x
    } else {
        x & !(1u64 << lo) == x
    }) by (bit_vector)
        requires
            lo < 64,
    ;
}

/// The bits of `x` in the range selected by `m << lo`, shifted down to bit 0.
pub open spec fn get_bits128(x: u128, lo: u128, m: u128) -> u128 {
    (x >> lo) & m
}

/// `x` with the bits selected by `m << lo` replaced by the low bits of `v`.
pub open spec fn set_bits128(x: u128, lo: u128, m: u128, v: u128) -> u128 {
    (x & !(m << lo)) | ((v & m) << lo)
}

/// Whether bit `lo` of `x` is set.
pub open spec fn get_bit128(x: u128, lo: u128) -> bool {
    (x >> lo) & 1 == 1
}

/// `x` with bit `lo` set to `b` and every other bit unchanged.
pub open spec fn set_bit128(x: u128, lo: u128, b: bool) -> u128 {
    if b {
        x | (1u128 << lo)
    } else {
        x & !(1u128 << lo)
    }
}

pub fn read_bits_u128(x: u128, lo: u128, m: u128) -> (r: u128)
    requires
        lo < 128,
    ensures
        r == get_bits128(x, lo, m),
{
    (x >> lo) & m
}

pub fn write_bits_u128(x: u128, lo: u128, m: u128, v: u128) -> (r: u128)
    requires
        lo < 128,
    ensures
        r == set_bits128(x, lo, m, v),
{
    (x & !(m << lo)) | ((v & m) << lo)
}

pub fn read_bit_u128(x: u128, lo: u128) -> (b: bool)
    requires
        lo < 128,
    ensures
        b == get_bit128(x, lo),
{
    (x >> lo) & 1 == 1
}

pub fn write_bit_u128(x: u128, lo: u128, b: bool) -> (r: u128)
    requires
        lo < 128,
    ensures
        r == set_bit128(x, lo, b),
{
    if b {
        x | (1u128 << lo)
    } else {
        x & !(1u128 << lo)
    }
}

/// Writing back the sub-range just read leaves the backing integer unchanged,
/// for every mask `m` that fits above `lo` without losing bits.
#[verifier::rlimit(100)]
pub proof fn lemma_set_get_noop128(x: u128, lo: u128, m: u128)
    requires
        lo < 128,
        ((m << lo) >> lo) == m,
    ensures
        set_bits128(x, lo, m, get_bits128(x, lo, m)) == x,
{
    assert((x & !(m << lo)) | ((((x >> lo) & m) & m) << lo) == x) by (bit_vector)
        requires
            lo < 128,
            ((m << lo) >> lo) == m,
    ;
}

/// Reading a sub-range right after writing it yields the written value,
/// truncated to the mask.
#[verifier::rlimit(100)]
pub proof fn lemma_get_set128(x: u128, lo: u128, m: u128, v: u128)
    requires
        lo < 128,
        ((m << lo) >> lo) == m,
    ensures
        get_bits128(set_bits128(x, lo, m, v), lo, m) == v & m,
{
    assert((((x & !(m << lo)) | ((v & m) << lo)) >> lo) & m == v & m) by (bit_vector)
        requires
            lo < 128,
            ((m << lo) >> lo) == m,
    ;
}

/// Writing back the bit just read leaves the backing integer unchanged.
pub proof fn lemma_set_get_bit_noop128(x: u128, lo: u128)
    requires
        lo < 128,
    ensures
        set_bit128(x, lo, get_bit128(x, lo)) == x,
{
    assert(if (x >> lo) & 1 == 1 {
        x | (1u128 << lo) == x
    } else {
        x & !(1u128 << lo) == x
    }) by (bit_vector)
        requires
            lo < 128,
    ;
}
} // verus!
