//! Big-endian integer fields of the wire format: how a 16-, 32- or 64-bit
//! value is laid out as bytes, how it is read back, and proofs that the two
//! directions invert each other.
use vstd::prelude::*;
use vstd::std_specs::cmp::PartialEqSpec;

verus! {

/// The two big-endian bytes of a 16-bit value.
pub open spec fn spec_be16(x: u16) -> Seq<u8> {
    seq![((x >> 8) & 0xff) as u8, (x & 0xff) as u8]
}

/// The 16-bit value read from two big-endian bytes.
pub open spec fn spec_u16_of(b0: u8, b1: u8) -> u16 {
    (b0 as u16) << 8 | (b1 as u16)
}

/// The four big-endian bytes of a 32-bit value.
pub open spec fn spec_be32(x: u32) -> Seq<u8> {
    seq![
        ((x >> 24) & 0xff) as u8,
        ((x >> 16) & 0xff) as u8,
        ((x >> 8) & 0xff) as u8,
        (x & 0xff) as u8,
    ]
}

/// The 32-bit value read from four big-endian bytes.
pub open spec fn spec_u32_of(b0: u8, b1: u8, b2: u8, b3: u8) -> u32 {
    (b0 as u32) << 24 | (b1 as u32) << 16 | (b2 as u32) << 8 | (b3 as u32)
}

/// The eight big-endian bytes of a 64-bit value.
pub open spec fn spec_be64(x: u64) -> Seq<u8> {
    seq![
        ((x >> 56) & 0xff) as u8,
        ((x >> 48) & 0xff) as u8,
        ((x >> 40) & 0xff) as u8,
        ((x >> 32) & 0xff) as u8,
        ((x >> 24) & 0xff) as u8,
        ((x >> 16) & 0xff) as u8,
        ((x >> 8) & 0xff) as u8,
        (x & 0xff) as u8,
    ]
}

/// The 64-bit value read from eight big-endian bytes.
pub open spec fn spec_u64_of(
    b0: u8,
    b1: u8,
    b2: u8,
    b3: u8,
    b4: u8,
    b5: u8,
    b6: u8,
    b7: u8,
) -> u64 {
    (b0 as u64) << 56 | (b1 as u64) << 48 | (b2 as u64) << 40 | (b3 as u64) << 32 | (b4 as u64)
        << 24 | (b5 as u64) << 16 | (b6 as u64) << 8 | (b7 as u64)
}

/// Reading the two bytes of a 16-bit value gives the value back.
pub proof fn lemma_be16_value_round_trip(x: u16)
    ensures
        spec_u16_of(((x >> 8) & 0xff) as u8, (x & 0xff) as u8) == x,
        spec_be16(x)[0] == ((x >> 8) & 0xff) as u8,
        spec_be16(x)[1] == (x & 0xff) as u8,
{
    assert((((x >> 8) & 0xff) as u8 as u16) << 8 | ((x & 0xff) as u8 as u16) == x)
        by (bit_vector);
}

/// Writing the 16-bit value read from two bytes gives the bytes back.
pub proof fn lemma_be16_bytes_round_trip(b0: u8, b1: u8)
    ensures
        spec_be16(spec_u16_of(b0, b1)) =~= seq![b0, b1],
{
    let x = spec_u16_of(b0, b1);
    assert(((x >> 8) & 0xff) as u8 == b0 && (x & 0xff) as u8 == b1) by (bit_vector)
        requires
            x == (b0 as u16) << 8 | (b1 as u16),
    ;
}

/// Reading the four bytes of a 32-bit value gives the value back.
pub proof fn lemma_be32_value_round_trip(x: u32)
    ensures
        spec_u32_of(
            ((x >> 24) & 0xff) as u8,
            ((x >> 16) & 0xff) as u8,
            ((x >> 8) & 0xff) as u8,
            (x & 0xff) as u8,
        ) == x,
{
    assert((((x >> 24) & 0xff) as u8 as u32) << 24 | (((x >> 16) & 0xff) as u8 as u32) << 16 | (((x
        >> 8) & 0xff) as u8 as u32) << 8 | ((x & 0xff) as u8 as u32) == x) by (bit_vector);
}

/// Writing the 32-bit value read from four bytes gives the bytes back.
pub proof fn lemma_be32_bytes_round_trip(b0: u8, b1: u8, b2: u8, b3: u8)
    ensures
        spec_be32(spec_u32_of(b0, b1, b2, b3)) =~= seq![b0, b1, b2, b3],
{
    let x = spec_u32_of(b0, b1, b2, b3);
    assert(((x >> 24) & 0xff) as u8 == b0 && ((x >> 16) & 0xff) as u8 == b1 && ((x >> 8) & 0xff)
        as u8 == b2 && (x & 0xff) as u8 == b3) by (bit_vector)
        requires
            x == (b0 as u32) << 24 | (b1 as u32) << 16 | (b2 as u32) << 8 | (b3 as u32),
    ;
}

/// Reading the eight bytes of a 64-bit value gives the value back.
pub proof fn lemma_be64_value_round_trip(x: u64)
    ensures
        spec_u64_of(
            ((x >> 56) & 0xff) as u8,
            ((x >> 48) & 0xff) as u8,
            ((x >> 40) & 0xff) as u8,
            ((x >> 32) & 0xff) as u8,
            ((x >> 24) & 0xff) as u8,
            ((x >> 16) & 0xff) as u8,
            ((x >> 8) & 0xff) as u8,
            (x & 0xff) as u8,
        ) == x,
{
    assert((((x >> 56) & 0xff) as u8 as u64) << 56 | (((x >> 48) & 0xff) as u8 as u64) << 48 | (((x
        >> 40) & 0xff) as u8 as u64) << 40 | (((x >> 32) & 0xff) as u8 as u64) << 32 | (((x >> 24)
        & 0xff) as u8 as u64) << 24 | (((x >> 16) & 0xff) as u8 as u64) << 16 | (((x >> 8) & 0xff)
        as u8 as u64) << 8 | ((x & 0xff) as u8 as u64) == x) by (bit_vector);
}

/// Writing the 64-bit value read from eight bytes gives the bytes back.
pub proof fn lemma_be64_bytes_round_trip(b0: u8, b1: u8, b2: u8, b3: u8, b4: u8, b5: u8, b6: u8, b7: u8)
    ensures
        spec_be64(spec_u64_of(b0, b1, b2, b3, b4, b5, b6, b7)) =~= seq![b0, b1, b2, b3, b4, b5, b6, b7],
{
    let x = spec_u64_of(b0, b1, b2, b3, b4, b5, b6, b7);
    assert(((x >> 56) & 0xff) as u8 == b0 && ((x >> 48) & 0xff) as u8 == b1 && ((x >> 40) & 0xff)
        as u8 == b2 && ((x >> 32) & 0xff) as u8 == b3 && ((x >> 24) & 0xff) as u8 == b4 && ((x
        >> 16) & 0xff) as u8 == b5 && ((x >> 8) & 0xff) as u8 == b6 && (x & 0xff) as u8 == b7)
        by (bit_vector)
        requires
            x == (b0 as u64) << 56 | (b1 as u64) << 48 | (b2 as u64) << 40 | (b3 as u64) << 32 | (
            b4 as u64) << 24 | (b5 as u64) << 16 | (b6 as u64) << 8 | (b7 as u64),
    ;
}

/// Append one byte.
pub fn push_u8(w: &mut Vec<u8>, x: u8)
    ensures
        final(w)@ =~= old(w)@ + seq![x],
{
    w.push(x);
}

/// Append a 16-bit value, big-endian.
pub fn push_be16(w: &mut Vec<u8>, x: u16)
    ensures
        final(w)@ =~= old(w)@ + spec_be16(x),
{
    w.push(((x >> 8) & 0xff) as u8);
    w.push((x & 0xff) as u8);
}

/// Append a 32-bit value, big-endian.
pub fn push_be32(w: &mut Vec<u8>, x: u32)
    ensures
        final(w)@ =~= old(w)@ + spec_be32(x),
{
    w.push(((x >> 24) & 0xff) as u8);
    w.push(((x >> 16) & 0xff) as u8);
    w.push(((x >> 8) & 0xff) as u8);
    w.push((x & 0xff) as u8);
}

/// Append a 64-bit value, big-endian.
pub fn push_be64(w: &mut Vec<u8>, x: u64)
    ensures
        final(w)@ =~= old(w)@ + spec_be64(x),
{
    w.push(((x >> 56) & 0xff) as u8);
    w.push(((x >> 48) & 0xff) as u8);
    w.push(((x >> 40) & 0xff) as u8);
    w.push(((x >> 32) & 0xff) as u8);
    w.push(((x >> 24) & 0xff) as u8);
    w.push(((x >> 16) & 0xff) as u8);
    w.push(((x >> 8) & 0xff) as u8);
    w.push((x & 0xff) as u8);
}

/// Append a run of bytes.
pub fn push_bytes(w: &mut Vec<u8>, b: &[u8])
    ensures
        final(w)@ =~= old(w)@ + b@,
{
    let mut i: usize = 0;
    while i < b.len()
        invariant
            i <= b@.len(),
            w@ =~= old(w)@ + b@.subrange(0, i as int),
        decreases b@.len() - i,
    {
        w.push(b[i]);
        i = i + 1;
        assert(b@.subrange(0, i as int) =~= b@.subrange(0, i - 1) + seq![b@[i - 1]]);
    }
    assert(b@.subrange(0, b@.len() as int) =~= b@);
}

/// Read a 16-bit big-endian value at an offset.
pub fn read_be16(buf: &[u8], off: usize) -> (r: u16)
    requires
        off + 2 <= buf@.len(),
    ensures
        r == spec_u16_of(buf@[off as int], buf@[off + 1]),
{
    let b0 = buf[off];
    let b1 = buf[off + 1];
    (b0 as u16) << 8 | (b1 as u16)
}

/// Read a 32-bit big-endian value at an offset.
pub fn read_be32(buf: &[u8], off: usize) -> (r: u32)
    requires
        off + 4 <= buf@.len(),
    ensures
        r == spec_u32_of(buf@[off as int], buf@[off + 1], buf@[off + 2], buf@[off + 3]),
{
    let b0 = buf[off];
    let b1 = buf[off + 1];
    let b2 = buf[off + 2];
    let b3 = buf[off + 3];
    (b0 as u32) << 24 | (b1 as u32) << 16 | (b2 as u32) << 8 | (b3 as u32)
}

/// Read a 64-bit big-endian value at an offset.
pub fn read_be64(buf: &[u8], off: usize) -> (r: u64)
    requires
        off + 8 <= buf@.len(),
    ensures
        r == spec_u64_of(
            buf@[off as int],
            buf@[off + 1],
            buf@[off + 2],
            buf@[off + 3],
            buf@[off + 4],
            buf@[off + 5],
            buf@[off + 6],
            buf@[off + 7],
        ),
{
    let b0 = buf[off];
    let b1 = buf[off + 1];
    let b2 = buf[off + 2];
    let b3 = buf[off + 3];
    let b4 = buf[off + 4];
    let b5 = buf[off + 5];
    let b6 = buf[off + 6];
    let b7 = buf[off + 7];
    (b0 as u64) << 56 | (b1 as u64) << 48 | (b2 as u64) << 40 | (b3 as u64) << 32 | (b4 as u64)
        << 24 | (b5 as u64) << 16 | (b6 as u64) << 8 | (b7 as u64)
}


/// Compare two byte vectors by contents.
pub(crate) fn bytes_eq(a: &Vec<u8>, b: &Vec<u8>) -> (r: bool)
    ensures
        r == (a@ == b@),
{
    let r = a == b;
    proof {
        if r {
            assert forall|i: int| 0 <= i < a@.len() implies a@[i] == b@[i] by {
                assert(a@[i].eq_spec(&b@[i]));
            }
            assert(a@ =~= b@);
        } else {
            if a@ == b@ {
                assert(a.eq_spec(b));
            }
        }
    }
    r
}

} // verus!
