//! The bytecode patcher: a per-byte sliding scan that rewrites every
//! four-byte window holding a known little-endian placeholder with a
//! runtime-computed value, never changing the buffer's length.

use vstd::prelude::*;
use vstd::bytes::*;

verus! {

/// The four bytes at `i` replaced by the little-endian encoding of `v`.
pub open spec fn spec_write_window(s: Seq<u8>, i: int, v: u32) -> Seq<u8>
    recommends
        0 <= i,
        i + 4 <= s.len(),
{
    let b = spec_u32_to_le_bytes(v);
    s.update(i, b[0]).update(i + 1, b[1]).update(i + 2, b[2]).update(i + 3, b[3])
}

/// The scan from position `i` on: wherever the window equals the
/// little-endian encoding of `old_val`, it is overwritten with the
/// encoding of `new_val`, and the window advances one byte whether or
/// not it matched, so windows overlapping an earlier rewrite are
/// examined too.
pub open spec fn spec_patch_from(s: Seq<u8>, i: int, old_val: u32, new_val: u32) -> Seq<u8>
    decreases s.len() - i,
    via spec_patch_from_decreases
{
    if i < 0 || i + 4 > s.len() {
        s
    } else if s.subrange(i, i + 4) == spec_u32_to_le_bytes(old_val) {
        spec_patch_from(spec_write_window(s, i, new_val), i + 1, old_val, new_val)
    } else {
        spec_patch_from(s, i + 1, old_val, new_val)
    }
}

#[via_fn]
proof fn spec_patch_from_decreases(s: Seq<u8>, i: int, old_val: u32, new_val: u32) {
    if i < 0 || i + 4 > s.len() {
    } else {
        assert(spec_write_window(s, i, new_val).len() == s.len());
    }
}

/// The whole-buffer scan, starting at position 0.
pub open spec fn spec_patch(s: Seq<u8>, old_val: u32, new_val: u32) -> Seq<u8> {
    spec_patch_from(s, 0, old_val, new_val)
}

proof fn lemma_patch_from_len(s: Seq<u8>, i: int, old_val: u32, new_val: u32)
    ensures
        spec_patch_from(s, i, old_val, new_val).len() == s.len(),
    decreases s.len() - i,
{
    if i < 0 || i + 4 > s.len() {
    } else if s.subrange(i, i + 4) == spec_u32_to_le_bytes(old_val) {
        assert(spec_write_window(s, i, new_val).len() == s.len());
        lemma_patch_from_len(spec_write_window(s, i, new_val), i + 1, old_val, new_val);
    } else {
        lemma_patch_from_len(s, i + 1, old_val, new_val);
    }
}

/// Patching preserves the buffer's length, whatever the inputs.
pub proof fn lemma_patch_preserves_len(s: Seq<u8>, old_val: u32, new_val: u32)
    ensures
        spec_patch(s, old_val, new_val).len() == s.len(),
{
    lemma_patch_from_len(s, 0, old_val, new_val);
}

proof fn lemma_patch_from_no_match(s: Seq<u8>, i: int, old_val: u32, new_val: u32)
    requires
        0 <= i,
        forall|j: int|
            0 <= j && j + 4 <= s.len() ==> #[trigger] s.subrange(j, j + 4)
                != spec_u32_to_le_bytes(old_val),
    ensures
        spec_patch_from(s, i, old_val, new_val) == s,
    decreases s.len() - i,
{
    if i + 4 > s.len() {
    } else {
        assert(s.subrange(i, i + 4) != spec_u32_to_le_bytes(old_val));
        lemma_patch_from_no_match(s, i + 1, old_val, new_val);
    }
}

/// A buffer in which no window holds the old pattern is left unchanged
/// by the scan.
pub proof fn lemma_patch_no_match(s: Seq<u8>, old_val: u32, new_val: u32)
    requires
        forall|j: int|
            0 <= j && j + 4 <= s.len() ==> #[trigger] s.subrange(j, j + 4)
                != spec_u32_to_le_bytes(old_val),
    ensures
        spec_patch(s, old_val, new_val) == s,
{
    lemma_patch_from_no_match(s, 0, old_val, new_val);
}

/// Re-applying the patch with the same pair changes nothing, provided
/// the first application left no window equal to the old pattern.  (A
/// rewrite can in general recreate the old pattern out of a written
/// window and its neighbours, so the proviso is on the patched buffer,
/// not on the original.)
pub proof fn lemma_patch_reapply_stable(s: Seq<u8>, old_val: u32, new_val: u32)
    requires
        forall|j: int|
            0 <= j && j + 4 <= spec_patch(s, old_val, new_val).len() ==> #[trigger] spec_patch(
                s,
                old_val,
                new_val,
            ).subrange(j, j + 4) != spec_u32_to_le_bytes(old_val),
    ensures
        spec_patch(spec_patch(s, old_val, new_val), old_val, new_val) == spec_patch(
            s,
            old_val,
            new_val,
        ),
{
    lemma_patch_no_match(spec_patch(s, old_val, new_val), old_val, new_val);
}

proof fn lemma_patch_from_same_value(s: Seq<u8>, i: int, old_val: u32)
    requires
        0 <= i,
    ensures
        spec_patch_from(s, i, old_val, old_val) == s,
    decreases s.len() - i,
{
    if i + 4 > s.len() {
    } else if s.subrange(i, i + 4) == spec_u32_to_le_bytes(old_val) {
        let b = spec_u32_to_le_bytes(old_val);
        assert(s[i] == b[0] && s[i + 1] == b[1] && s[i + 2] == b[2] && s[i + 3] == b[3]) by {
            assert(s.subrange(i, i + 4)[0] == s[i]);
            assert(s.subrange(i, i + 4)[1] == s[i + 1]);
            assert(s.subrange(i, i + 4)[2] == s[i + 2]);
            assert(s.subrange(i, i + 4)[3] == s[i + 3]);
        }
        assert(spec_write_window(s, i, old_val) =~= s);
        lemma_patch_from_same_value(spec_write_window(s, i, old_val), i + 1, old_val);
    } else {
        lemma_patch_from_same_value(s, i + 1, old_val);
    }
}

/// Patching a value over itself rewrites matching windows with their own
/// bytes: the buffer never changes.
pub proof fn lemma_patch_same_value(s: Seq<u8>, old_val: u32)
    ensures
        spec_patch(s, old_val, old_val) == s,
{
    lemma_patch_from_same_value(s, 0, old_val);
}

/// Slide a four-byte window across the buffer one byte at a time and
/// overwrite every window that exactly equals the little-endian encoding
/// of `old_val` with the encoding of `new_val`.  The buffer's length is
/// never changed.
pub fn patch_dword(v: &mut Vec<u8>, old_val: u32, new_val: u32)
    requires
        old(v)@.len() < usize::MAX,
    ensures
        final(v)@ == spec_patch(old(v)@, old_val, new_val),
        final(v)@.len() == old(v)@.len(),
{
    let ghost orig = v@;
    let ob = u32_to_le_bytes(old_val);
    let nb = u32_to_le_bytes(new_val);
    proof {
        lemma_auto_spec_u32_to_from_le_bytes();
        lemma_patch_preserves_len(orig, old_val, new_val);
    }
    let mut start: usize = 0;
    let mut end: usize = 4;
    while end <= v.len()
        invariant
            end == start + 4,
            v@.len() == orig.len(),
            orig.len() < usize::MAX,
            ob@ == spec_u32_to_le_bytes(old_val),
            nb@ == spec_u32_to_le_bytes(new_val),
            ob@.len() == 4,
            nb@.len() == 4,
            spec_patch_from(v@, start as int, old_val, new_val) == spec_patch(
                orig,
                old_val,
                new_val,
            ),
        decreases v@.len() + 4 - end,
    {
        let w0 = v[start];
        let w1 = v[start + 1];
        let w2 = v[start + 2];
        let w3 = v[start + 3];
        if w0 == ob[0] && w1 == ob[1] && w2 == ob[2] && w3 == ob[3] {
            let ghost before = v@;
            proof {
                assert(before.subrange(start as int, start as int + 4) =~= ob@);
            }
            v.set(start, nb[0]);
            v.set(start + 1, nb[1]);
            v.set(start + 2, nb[2]);
            v.set(start + 3, nb[3]);
            proof {
                assert(v@ == spec_write_window(before, start as int, new_val));
            }
        } else {
            proof {
                let win = v@.subrange(start as int, start as int + 4);
                if win == ob@ {
                    assert(w0 == win[0] && w1 == win[1] && w2 == win[2] && w3 == win[3]);
                }
                assert(win != spec_u32_to_le_bytes(old_val));
            }
        }
        start = start + 1;
        end = end + 1;
    }
    proof {
        assert(spec_patch_from(v@, start as int, old_val, new_val) == v@);
    }
}

} // verus!
