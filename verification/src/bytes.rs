//! Little-endian serialization of 32-bit scalars into the byte blobs that
//! back vertex and index buffers.
//!
//! Vertex data is held as raw 32-bit patterns (for float attributes, the
//! IEEE-754 bit pattern of each component), so the library can lay buffers
//! out exactly without doing floating-point arithmetic itself.

use vstd::prelude::*;

verus! {

/// The four little-endian bytes of `x`.
pub open spec fn le_bytes(x: u32) -> Seq<u8> {
    seq![
        (x % 256) as u8,
        ((x / 256) % 256) as u8,
        ((x / 65536) % 256) as u8,
        (x / 16777216) as u8,
    ]
}

/// The little-endian serialization of a scalar list: four bytes per scalar,
/// in order.
pub open spec fn le_seq(s: Seq<u32>) -> Seq<u8>
    decreases s.len(),
{
    if s.len() == 0 {
        Seq::empty()
    } else {
        le_seq(s.drop_last()) + le_bytes(s.last())
    }
}

/// Serialization length: four bytes per scalar.
pub proof fn lemma_le_seq_len(s: Seq<u32>)
    ensures
        le_seq(s).len() == 4 * s.len(),
    decreases s.len(),
{
    if s.len() > 0 {
        lemma_le_seq_len(s.drop_last());
    }
}

/// Serialization appends blockwise over concatenation.
pub proof fn lemma_le_seq_concat(a: Seq<u32>, b: Seq<u32>)
    ensures
        le_seq(a + b) == le_seq(a) + le_seq(b),
    decreases b.len(),
{
    if b.len() == 0 {
        assert(a + b =~= a);
        assert(le_seq(a) + le_seq(b) =~= le_seq(a));
    } else {
        lemma_le_seq_concat(a, b.drop_last());
        assert((a + b).drop_last() =~= a + b.drop_last());
        assert((a + b).last() == b.last());
        assert(le_seq(a) + le_seq(b.drop_last()) + le_bytes(b.last()) =~= le_seq(a) + le_seq(b));
    }
}

/// Copies a byte vector; the copy holds exactly the same bytes.
pub fn clone_bytes(v: &Vec<u8>) -> (r: Vec<u8>)
    ensures
        r@ == v@,
{
    let mut r: Vec<u8> = Vec::new();
    let mut i: usize = 0;
    while i < v.len()
        invariant
            i <= v@.len(),
            r@ == v@.take(i as int),
        decreases v@.len() - i,
    {
        r.push(v[i]);
        proof {
            assert(v@.take(i + 1 as int) =~= v@.take(i as int).push(v@[i as int]));
        }
        i = i + 1;
    }
    proof {
        assert(v@.take(v@.len() as int) =~= v@);
    }
    r
}

/// Appends the four little-endian bytes of `x`.
pub fn push_scalar(out: &mut Vec<u8>, x: u32)
    ensures
        final(out)@ == old(out)@ + le_bytes(x),
{
    out.push((x % 256) as u8);
    out.push(((x / 256) % 256) as u8);
    out.push(((x / 65536) % 256) as u8);
    out.push((x / 16777216) as u8);
    proof {
        assert(out@ =~= old(out)@ + le_bytes(x));
    }
}

/// Appends the serialization of every scalar of `xs`, in order.
pub fn extend_scalars(out: &mut Vec<u8>, xs: &Vec<u32>)
    ensures
        final(out)@ == old(out)@ + le_seq(xs@),
{
    let mut i: usize = 0;
    while i < xs.len()
        invariant
            i <= xs@.len(),
            out@ == old(out)@ + le_seq(xs@.take(i as int)),
        decreases xs@.len() - i,
    {
        push_scalar(out, xs[i]);
        proof {
            assert(xs@.take(i + 1 as int).drop_last() =~= xs@.take(i as int));
            assert(out@ =~= old(out)@ + le_seq(xs@.take(i + 1 as int)));
        }
        i = i + 1;
    }
    proof {
        assert(xs@.take(xs@.len() as int) =~= xs@);
    }
}

} // verus!

verus! {

/// Appends every scalar of `src` to `dst`, in order.
pub fn extend_u32s(dst: &mut Vec<u32>, src: &Vec<u32>)
    ensures
        final(dst)@ == old(dst)@ + src@,
{
    let mut i: usize = 0;
    while i < src.len()
        invariant
            i <= src@.len(),
            dst@ == old(dst)@ + src@.take(i as int),
        decreases src@.len() - i,
    {
        dst.push(src[i]);
        proof {
            assert(src@.take(i + 1 as int) =~= src@.take(i as int).push(src@[i as int]));
            assert(dst@ =~= old(dst)@ + src@.take(i + 1 as int));
        }
        i = i + 1;
    }
    proof {
        assert(src@.take(src@.len() as int) =~= src@);
        assert(old(dst)@ + src@.take(src@.len() as int) =~= old(dst)@ + src@);
    }
}

} // verus!
