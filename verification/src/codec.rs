//! Byte-buffer primitives: appending and reading little-endian fields at
//! documented offsets, with no implicit padding anywhere.

use vstd::prelude::*;
use vstd::bytes::*;
use vstd::slice::slice_subrange;

verus! {

broadcast use vstd::array::group_array_axioms;

/// Append a single byte.
pub fn push_byte(buf: &mut Vec<u8>, b: u8)
    ensures
        final(buf)@ == old(buf)@ + seq![b],
{
    let ghost pre = buf@;
    buf.push(b);
    proof {
        assert(buf@ =~= pre + seq![b]);
    }
}

/// Append a 16-bit value in little-endian order.
pub fn push_le16(buf: &mut Vec<u8>, x: u16)
    ensures
        final(buf)@ == old(buf)@ + spec_u16_to_le_bytes(x),
{
    let mut b = u16_to_le_bytes(x);
    buf.append(&mut b);
}

/// Append a 32-bit value in little-endian order.
pub fn push_le32(buf: &mut Vec<u8>, x: u32)
    ensures
        final(buf)@ == old(buf)@ + spec_u32_to_le_bytes(x),
{
    let mut b = u32_to_le_bytes(x);
    buf.append(&mut b);
}

/// Append a 64-bit value in little-endian order.
pub fn push_le64(buf: &mut Vec<u8>, x: u64)
    ensures
        final(buf)@ == old(buf)@ + spec_u64_to_le_bytes(x),
{
    let mut b = u64_to_le_bytes(x);
    buf.append(&mut b);
}

/// Append a fixed six-byte identifier.
pub fn push_bytes6(buf: &mut Vec<u8>, a: &[u8; 6])
    ensures
        final(buf)@ == old(buf)@ + a@,
{
    let ghost pre = buf@;
    proof {
        assert(pre + a@.subrange(0, 0) =~= pre);
    }
    let mut k: usize = 0;
    while k < 6
        invariant
            k <= 6,
            buf@ == pre + a@.subrange(0, k as int),
        decreases 6 - k,
    {
        let ghost mid = buf@;
        buf.push(a[k]);
        proof {
            assert(buf@ =~= pre + a@.subrange(0, k as int + 1));
        }
        k = k + 1;
    }
    proof {
        assert(a@.subrange(0, 6) =~= a@);
    }
}

/// Append the contents of another buffer, leaving it intact.
pub fn push_bytes(buf: &mut Vec<u8>, v: &Vec<u8>)
    ensures
        final(buf)@ == old(buf)@ + v@,
{
    let ghost pre = buf@;
    proof {
        assert(pre + v@.subrange(0, 0) =~= pre);
    }
    let mut k: usize = 0;
    while k < v.len()
        invariant
            k <= v@.len(),
            buf@ == pre + v@.subrange(0, k as int),
        decreases v@.len() - k,
    {
        buf.push(v[k]);
        proof {
            assert(buf@ =~= pre + v@.subrange(0, k as int + 1));
        }
        k = k + 1;
    }
    proof {
        assert(v@.subrange(0, v@.len() as int) =~= v@);
    }
}

/// Read the 32-bit little-endian value at a byte offset.
pub fn read_le32(buf: &Vec<u8>, off: usize) -> (x: u32)
    requires
        off + 4 <= buf@.len(),
    ensures
        x == spec_u32_from_le_bytes(buf@.subrange(off as int, off as int + 4)),
{
    let _len = buf.len();
    u32_from_le_bytes(slice_subrange(buf.as_slice(), off, off + 4))
}

/// Read the 64-bit little-endian value at a byte offset.
pub fn read_le64(buf: &Vec<u8>, off: usize) -> (x: u64)
    requires
        off + 8 <= buf@.len(),
    ensures
        x == spec_u64_from_le_bytes(buf@.subrange(off as int, off as int + 8)),
{
    let _len = buf.len();
    u64_from_le_bytes(slice_subrange(buf.as_slice(), off, off + 8))
}

/// Read the six-byte identifier at a byte offset.
pub fn read_bytes6(buf: &Vec<u8>, off: usize) -> (r: [u8; 6])
    requires
        off + 6 <= buf@.len(),
    ensures
        r@ == buf@.subrange(off as int, off as int + 6),
{
    let _len = buf.len();
    let r: [u8; 6] = [buf[off], buf[off + 1], buf[off + 2], buf[off + 3], buf[off + 4], buf[off
        + 5]];
    proof {
        assert(r@ =~= buf@.subrange(off as int, off as int + 6));
    }
    r
}

} // verus!
