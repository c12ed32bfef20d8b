//! The checksum engine: a one-byte value that makes a table image sum to
//! zero modulo 256.

use vstd::prelude::*;
use vstd::arithmetic::div_mod::lemma_add_mod_noop;
use vstd::arithmetic::div_mod::lemma_fundamental_div_mod;
use vstd::arithmetic::div_mod::lemma_mod_bound;
use vstd::arithmetic::div_mod::lemma_mod_multiples_basic;
use vstd::arithmetic::div_mod::lemma_mod_self_0;
use vstd::arithmetic::div_mod::lemma_small_mod;

verus! {

/// Byte sum of a buffer, as an unbounded integer.
pub open spec fn spec_sum(s: Seq<u8>) -> int
    decreases s.len(),
{
    if s.len() == 0 {
        0
    } else {
        spec_sum(s.drop_last()) + s.last()
    }
}

/// The checksum of a buffer: the byte that brings its sum to 0 modulo 256,
/// computed as (0x100 - (sum mod 256)) mod 256.
pub open spec fn spec_checksum8(s: Seq<u8>) -> u8 {
    ((256 - (spec_sum(s) % 256)) % 256) as u8
}

pub proof fn lemma_sum_nonneg(s: Seq<u8>)
    ensures
        spec_sum(s) >= 0,
    decreases s.len(),
{
    if s.len() > 0 {
        lemma_sum_nonneg(s.drop_last());
    }
}

/// Changing one byte of a buffer changes its sum by the difference of the
/// new byte and the old one.
pub proof fn lemma_sum_update(s: Seq<u8>, i: int, v: u8)
    requires
        0 <= i < s.len(),
    ensures
        spec_sum(s.update(i, v)) == spec_sum(s) - s[i] + v,
    decreases s.len(),
{
    if i == s.len() - 1 {
        assert(s.update(i, v).drop_last() =~= s.drop_last());
    } else {
        assert(s.update(i, v).drop_last() =~= s.drop_last().update(i, v));
        lemma_sum_update(s.drop_last(), i, v);
    }
}

/// Adding the checksum byte to a buffer's sum always lands on a multiple
/// of 256.
pub proof fn lemma_checksum8_cancels(s: Seq<u8>)
    ensures
        (spec_sum(s) + spec_checksum8(s)) % 256 == 0,
{
    let sum = spec_sum(s);
    lemma_sum_nonneg(s);
    lemma_mod_bound(sum, 256);
    let m = sum % 256;
    if m == 0 {
        lemma_mod_self_0(256);
        assert(spec_checksum8(s) == 0);
        assert((sum + 0) % 256 == 0);
    } else {
        lemma_small_mod((256 - m) as nat, 256);
        assert(spec_checksum8(s) == 256 - m);
        lemma_fundamental_div_mod(sum, 256);
        assert(sum + (256 - m) == (sum / 256 + 1) * 256);
        lemma_mod_multiples_basic(sum / 256 + 1, 256);
    }
}

/// Writing the checksum of a zero-checksum image into its checksum byte
/// yields an image whose full byte sum is 0 modulo 256.
pub proof fn lemma_checksummed_sums_zero(s: Seq<u8>, i: int)
    requires
        0 <= i < s.len(),
        s[i] == 0,
    ensures
        spec_sum(s.update(i, spec_checksum8(s))) % 256 == 0,
{
    lemma_sum_update(s, i, spec_checksum8(s));
    lemma_checksum8_cancels(s);
}

/// Byte sum of a buffer, reduced modulo 256.
fn sum_mod(buf: &Vec<u8>) -> (r: u32)
    ensures
        r as int == spec_sum(buf@) % 256,
        r < 256,
{
    let mut acc: u32 = 0;
    let mut i: usize = 0;
    proof {
        assert(buf@.subrange(0, 0) =~= Seq::<u8>::empty());
        lemma_small_mod(0, 256);
    }
    while i < buf.len()
        invariant
            i <= buf@.len(),
            acc < 256,
            acc as int == spec_sum(buf@.subrange(0, i as int)) % 256,
        decreases buf@.len() - i,
    {
        let b = buf[i];
        proof {
            let pre = buf@.subrange(0, i as int);
            let post = buf@.subrange(0, i as int + 1);
            assert(post.drop_last() =~= pre);
            assert(post.last() == buf@[i as int]);
            lemma_sum_nonneg(pre);
            lemma_small_mod(b as nat, 256);
            lemma_add_mod_noop(spec_sum(pre), b as int, 256);
        }
        acc = (acc + b as u32) % 256;
        i = i + 1;
    }
    proof {
        assert(buf@.subrange(0, buf@.len() as int) =~= buf@);
    }
    acc
}

/// The value that, added to the buffer's byte sum, reaches 0 modulo 256.
///
/// A table is checksummed by summing its image with the checksum field
/// still zero, storing the returned byte in that field, and (if desired)
/// re-summing: the full image then sums to exactly 0 modulo 256.
pub fn checksum8(buf: &Vec<u8>) -> (r: u8)
    ensures
        r == spec_checksum8(buf@),
        (spec_sum(buf@) + r) % 256 == 0,
{
    let s = sum_mod(buf);
    let r = ((0x100 - s) % 0x100) as u8;
    proof {
        lemma_checksum8_cancels(buf@);
    }
    r
}

/// The verification pass over a finished image: does the whole buffer,
/// checksum byte included, sum to 0 modulo 256?
pub fn image_sum_is_zero(buf: &Vec<u8>) -> (r: bool)
    ensures
        r == (spec_sum(buf@) % 256 == 0),
{
    let s = sum_mod(buf);
    s == 0
}

} // verus!
