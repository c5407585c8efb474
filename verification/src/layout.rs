//! Channel layouts: a 64-bit bitmask naming which speaker positions are
//! present. The number of set bits is the channel count the layout implies.

use vstd::arithmetic::power2::{lemma2_to64, lemma2_to64_rest, lemma_pow2_unfold, pow2};
use vstd::prelude::*;

verus! {

/// How many bits are set in `b`.
pub open spec fn count_ones(b: u64) -> nat
    decreases b,
{
    if b == 0 {
        0
    } else {
        (b % 2) as nat + count_ones(b / 2)
    }
}

/// A value below `pow2(k)` has at most `k` set bits.
proof fn lemma_count_ones_below_pow2(b: u64, k: nat)
    requires
        b < pow2(k),
    ensures
        count_ones(b) <= k,
    decreases k,
{
    if b == 0 {
    } else {
        if k == 0 {
            assert(pow2(0) == 1) by {
                lemma2_to64();
            }
        } else {
            assert(pow2(k) == 2 * pow2((k - 1) as nat)) by {
                lemma_pow2_unfold(k);
            }
            lemma_count_ones_below_pow2(b / 2, (k - 1) as nat);
        }
    }
}

/// A 64-bit mask has at most 64 set bits.
pub proof fn lemma_count_ones_le_64(b: u64)
    ensures
        count_ones(b) <= 64,
{
    assert(pow2(64) == 0x10000000000000000) by {
        lemma2_to64_rest();
    }
    lemma_count_ones_below_pow2(b, 64);
}

/// The bits of a layout mask, read as an unsigned 64-bit value. The mask
/// travels through the interface as a signed integer; its bit pattern is what
/// names the speaker positions.
pub open spec fn spec_layout_bits(v: i64) -> u64 {
    if v >= 0 {
        v as u64
    } else {
        (v + 0x10000000000000000) as u64
    }
}

/// Reads a signed layout mask as its unsigned bit pattern.
pub fn layout_bits(v: i64) -> (r: u64)
    ensures
        r == spec_layout_bits(v),
{
    if v >= 0 {
        v as u64
    } else {
        ((v as i128) + 0x10000000000000000i128) as u64
    }
}

/// Counts the set bits of a layout mask: the channel count the mask implies.
pub fn ones(bits: u64) -> (n: u16)
    ensures
        n as nat == count_ones(bits),
        n <= 64,
{
    proof {
        lemma_count_ones_le_64(bits);
    }
    let mut b: u64 = bits;
    let mut n: u16 = 0;
    while b != 0
        invariant
            n as nat + count_ones(b) == count_ones(bits),
            count_ones(b) <= 64 - n as nat,
        decreases b,
    {
        proof {
            lemma_count_ones_le_64(b / 2);
        }
        if b % 2 == 1 {
            n = n + 1;
        }
        b = b / 2;
    }
    n
}

} // verus!
