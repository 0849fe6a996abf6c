//! Single-bit and bit-range operations on 64-bit registers, together with
//! the even-parity fold used to validate DCF77 frames.

use vstd::prelude::*;

verus! {

/// True iff bit `i` of `bits` is set.
pub open spec fn bit_get(bits: u64, i: u64) -> bool {
    (bits >> i) & 1 == 1
}

/// `bits` with bit `i` forced to `value`.
pub open spec fn bit_set(bits: u64, i: u64, value: bool) -> u64 {
    if value {
        bits | (1u64 << i)
    } else {
        bits & !(1u64 << i)
    }
}

/// The bit range `[lo, hi)` of `bits`, shifted down to the low end.
pub open spec fn bit_range(bits: u64, lo: u64, hi: u64) -> u64 {
    (bits >> lo) & (((1u64 << ((hi - lo) as u64)) - 1) as u64)
}

/// Even-parity fold: the XOR of bits `lo ..= hi` of `bits`.
pub open spec fn parity_fold(bits: u64, lo: u64, hi: u64) -> bool
    decreases hi,
{
    if hi < lo {
        false
    } else if hi == lo {
        bit_get(bits, lo)
    } else {
        parity_fold(bits, lo, (hi - 1) as u64) ^ bit_get(bits, hi)
    }
}

/// Read one bit.
pub fn get_bit64(bits: u64, i: u64) -> (r: bool)
    requires
        i < 64,
    ensures
        r == bit_get(bits, i),
{
    (bits >> i) & 1 == 1
}

/// Write one bit.
pub fn set_bit64(bits: u64, i: u64, value: bool) -> (r: u64)
    requires
        i < 64,
    ensures
        r == bit_set(bits, i, value),
{
    if value {
        bits | (1u64 << i)
    } else {
        bits & !(1u64 << i)
    }
}

/// Read the bit range `[lo, hi)`.
pub fn get_bits64(bits: u64, lo: u64, hi: u64) -> (r: u64)
    requires
        lo < hi,
        hi <= 63,
    ensures
        r == bit_range(bits, lo, hi),
{
    let width = hi - lo;
    assert((1u64 << width) >= 1) by (bit_vector)
        requires
            width < 64,
    ;
    (bits >> lo) & ((1u64 << width) - 1)
}

/// A bit range is bounded by the mask of its width.
pub proof fn lemma_bit_range_bound(bits: u64, lo: u64, hi: u64)
    requires
        lo < hi,
        hi <= 63,
    ensures
        bit_range(bits, lo, hi) < (1u64 << ((hi - lo) as u64)),
{
    let w = (hi - lo) as u64;
    assert((bits >> lo) & (((1u64 << w) - 1) as u64) < (1u64 << w)) by (bit_vector)
        requires
            0 < w < 64,
    ;
}

/// The mask of the low `n` bits.
pub open spec fn low_mask(n: u64) -> u64 {
    (((1u64 << n) - 1) as u64)
}

/// Writing bit `i` of a register that holds the low `i` bits of `f`
/// extends the agreement to the low `i + 1` bits.
pub proof fn lemma_set_extends_prefix(f: u64, i: u64)
    requires
        i < 59,
    ensures
        bit_set(f & low_mask(i), i, bit_get(f, i)) == f & low_mask((i + 1) as u64),
{
    assert(bit_set(f & low_mask(i), i, bit_get(f, i)) == f & low_mask((i + 1) as u64))
        by (bit_vector)
        requires
            i < 59,
    ;
}

/// A register with no bits above bit 58 passes unchanged through the
/// 59-bit mask.
pub proof fn lemma_low_mask_noop(f: u64)
    requires
        f < (1u64 << 59),
    ensures
        f & low_mask(59) == f,
{
    assert(f < (1u64 << 59) ==> f & low_mask(59) == f) by (bit_vector);
}

/// Fold the even parity of bits `lo ..= hi`.
pub fn parity64(bits: u64, lo: u64, hi: u64) -> (r: bool)
    requires
        lo <= hi,
        hi < 64,
    ensures
        r == parity_fold(bits, lo, hi),
{
    let mut acc = false;
    let mut i = lo;
    while i <= hi
        invariant
            lo <= i <= hi + 1,
            hi < 64,
            acc == if i == lo {
                false
            } else {
                parity_fold(bits, lo, (i - 1) as u64)
            },
        decreases hi + 1 - i,
    {
        acc = acc ^ get_bit64(bits, i);
        i = i + 1;
    }
    acc
}

/// XOR-ing a single bit into a register flips the parity of exactly the
/// ranges that contain that bit.
pub proof fn lemma_parity_xor_bit(bits: u64, i: u64, lo: u64, hi: u64)
    requires
        i < 64,
        hi < 64,
    ensures
        parity_fold(bits ^ (1u64 << i), lo, hi) == if lo <= i <= hi {
            !parity_fold(bits, lo, hi)
        } else {
            parity_fold(bits, lo, hi)
        },
    decreases hi,
{
    assert(forall|j: u64|
        j < 64 && i < 64 ==> bit_get(bits ^ (1u64 << i), j) == if j == i {
            !bit_get(bits, j)
        } else {
            bit_get(bits, j)
        }) by (bit_vector);
    if hi < lo {
    } else if hi == lo {
    } else {
        lemma_parity_xor_bit(bits, i, lo, (hi - 1) as u64);
    }
}

} // verus!
