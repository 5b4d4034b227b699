//! Fixed-width big-endian byte conversions. All multi-byte numeric fields of
//! the wire format go through these, so their correctness is stated against
//! `be_val`, the numeric reading of a big-endian byte string.

use vstd::prelude::*;
use crate::bignat::{be_val, lemma_be_val_empty, lemma_be_val_push};

verus! {

/// The two big-endian bytes of a 16-bit unsigned integer.
pub open spec fn spec_u16_be(x: u16) -> Seq<u8> {
    seq![(x / 256) as u8, (x % 256) as u8]
}

/// The eight big-endian bytes of a 64-bit unsigned integer.
pub open spec fn spec_u64_be(x: u64) -> Seq<u8> {
    let x6 = x / 256;
    let x5 = x6 / 256;
    let x4 = x5 / 256;
    let x3 = x4 / 256;
    let x2 = x3 / 256;
    let x1 = x2 / 256;
    let x0 = x1 / 256;
    seq![
        (x0 % 256) as u8,
        (x1 % 256) as u8,
        (x2 % 256) as u8,
        (x3 % 256) as u8,
        (x4 % 256) as u8,
        (x5 % 256) as u8,
        (x6 % 256) as u8,
        (x % 256) as u8,
    ]
}

/// `be_val` reads back the integer that `spec_u16_be` laid out.
pub proof fn lemma_u16_be_val(x: u16)
    ensures
        be_val(spec_u16_be(x)) == x,
        spec_u16_be(x).len() == 2,
{
    let a0 = (x / 256) as u8;
    let a1 = (x % 256) as u8;
    let e = Seq::<u8>::empty();
    lemma_be_val_empty();
    lemma_be_val_push(e, a0);
    lemma_be_val_push(e.push(a0), a1);
    assert(e.push(a0).push(a1) =~= spec_u16_be(x));
}

/// The four big-endian bytes of a 32-bit unsigned integer.
pub open spec fn spec_u32_be(x: u32) -> Seq<u8> {
    let x2 = x / 256;
    let x1 = x2 / 256;
    let x0 = x1 / 256;
    seq![(x0 % 256) as u8, (x1 % 256) as u8, (x2 % 256) as u8, (x % 256) as u8]
}

/// `be_val` reads back the integer that `spec_u32_be` laid out.
pub proof fn lemma_u32_be_val(x: u32)
    ensures
        be_val(spec_u32_be(x)) == x,
        spec_u32_be(x).len() == 4,
{
    let x2 = x / 256;
    let x1 = x2 / 256;
    let x0 = x1 / 256;
    let a0 = (x0 % 256) as u8;
    let a1 = (x1 % 256) as u8;
    let a2 = (x2 % 256) as u8;
    let a3 = (x % 256) as u8;
    let e = Seq::<u8>::empty();
    lemma_be_val_empty();
    lemma_be_val_push(e, a0);
    lemma_be_val_push(e.push(a0), a1);
    lemma_be_val_push(e.push(a0).push(a1), a2);
    lemma_be_val_push(e.push(a0).push(a1).push(a2), a3);
    assert(e.push(a0).push(a1).push(a2).push(a3) =~= spec_u32_be(x));
    assert(x0 < 0x100);
    assert(x1 == x0 * 256 + x1 % 256);
    assert(x2 == x1 * 256 + x2 % 256);
    assert(x == x2 * 256 + x % 256);
}

/// Writes the four big-endian bytes of a 32-bit unsigned integer.
pub fn push_u32_be(out: &mut Vec<u8>, x: u32)
    ensures
        final(out)@ == old(out)@ + spec_u32_be(x),
{
    let x2 = x / 256;
    let x1 = x2 / 256;
    let x0 = x1 / 256;
    out.push((x0 % 256) as u8);
    out.push((x1 % 256) as u8);
    out.push((x2 % 256) as u8);
    out.push((x % 256) as u8);
    proof {
        assert(out@ =~= old(out)@ + spec_u32_be(x));
    }
}

/// Reads a 32-bit unsigned integer from its four big-endian bytes.
pub fn read_u32_be(b0: u8, b1: u8, b2: u8, b3: u8) -> (x: u32)
    ensures
        spec_u32_be(x) == seq![b0, b1, b2, b3],
{
    let y1: u32 = (b0 as u32) * 256 + (b1 as u32);
    let y2: u32 = y1 * 256 + (b2 as u32);
    let x: u32 = y2 * 256 + (b3 as u32);
    proof {
        assert(x / 256 == y2 && x % 256 == b3);
        assert(y2 / 256 == y1 && y2 % 256 == b2);
        assert(y1 / 256 == b0 as u32 && y1 % 256 == b1);
        assert(spec_u32_be(x) =~= seq![b0, b1, b2, b3]);
    }
    x
}

/// `be_val` reads back the integer that `spec_u64_be` laid out.
pub proof fn lemma_u64_be_val(x: u64)
    ensures
        be_val(spec_u64_be(x)) == x,
        spec_u64_be(x).len() == 8,
{
    let x6 = x / 256;
    let x5 = x6 / 256;
    let x4 = x5 / 256;
    let x3 = x4 / 256;
    let x2 = x3 / 256;
    let x1 = x2 / 256;
    let x0 = x1 / 256;
    let a0 = (x0 % 256) as u8;
    let a1 = (x1 % 256) as u8;
    let a2 = (x2 % 256) as u8;
    let a3 = (x3 % 256) as u8;
    let a4 = (x4 % 256) as u8;
    let a5 = (x5 % 256) as u8;
    let a6 = (x6 % 256) as u8;
    let a7 = (x % 256) as u8;
    let e = Seq::<u8>::empty();
    lemma_be_val_empty();
    lemma_be_val_push(e, a0);
    lemma_be_val_push(e.push(a0), a1);
    lemma_be_val_push(e.push(a0).push(a1), a2);
    lemma_be_val_push(e.push(a0).push(a1).push(a2), a3);
    lemma_be_val_push(e.push(a0).push(a1).push(a2).push(a3), a4);
    lemma_be_val_push(e.push(a0).push(a1).push(a2).push(a3).push(a4), a5);
    lemma_be_val_push(e.push(a0).push(a1).push(a2).push(a3).push(a4).push(a5), a6);
    lemma_be_val_push(e.push(a0).push(a1).push(a2).push(a3).push(a4).push(a5).push(a6), a7);
    assert(e.push(a0).push(a1).push(a2).push(a3).push(a4).push(a5).push(a6).push(a7) =~= spec_u64_be(
        x,
    ));
    assert(x0 < 0x100);
    assert(x1 == x0 * 256 + x1 % 256);
    assert(x2 == x1 * 256 + x2 % 256);
    assert(x3 == x2 * 256 + x3 % 256);
    assert(x4 == x3 * 256 + x4 % 256);
    assert(x5 == x4 * 256 + x5 % 256);
    assert(x6 == x5 * 256 + x6 % 256);
    assert(x == x6 * 256 + x % 256);
}

/// Writes the two big-endian bytes of a 16-bit unsigned integer.
pub fn push_u16_be(out: &mut Vec<u8>, x: u16)
    ensures
        final(out)@ == old(out)@ + spec_u16_be(x),
{
    out.push((x / 256) as u8);
    out.push((x % 256) as u8);
    proof {
        assert(out@ =~= old(out)@ + spec_u16_be(x));
    }
}

/// Writes the eight big-endian bytes of a 64-bit unsigned integer.
pub fn push_u64_be(out: &mut Vec<u8>, x: u64)
    ensures
        final(out)@ == old(out)@ + spec_u64_be(x),
{
    let x6 = x / 256;
    let x5 = x6 / 256;
    let x4 = x5 / 256;
    let x3 = x4 / 256;
    let x2 = x3 / 256;
    let x1 = x2 / 256;
    let x0 = x1 / 256;
    out.push((x0 % 256) as u8);
    out.push((x1 % 256) as u8);
    out.push((x2 % 256) as u8);
    out.push((x3 % 256) as u8);
    out.push((x4 % 256) as u8);
    out.push((x5 % 256) as u8);
    out.push((x6 % 256) as u8);
    out.push((x % 256) as u8);
    proof {
        assert(out@ =~= old(out)@ + spec_u64_be(x));
    }
}

/// Reads a 16-bit unsigned integer from its two big-endian bytes.
pub fn read_u16_be(b0: u8, b1: u8) -> (x: u16)
    ensures
        spec_u16_be(x) == seq![b0, b1],
{
    let x: u16 = (b0 as u16) * 256 + (b1 as u16);
    proof {
        assert(spec_u16_be(x) =~= seq![b0, b1]);
    }
    x
}

/// Reads a 64-bit unsigned integer from its eight big-endian bytes.
pub fn read_u64_be(b0: u8, b1: u8, b2: u8, b3: u8, b4: u8, b5: u8, b6: u8, b7: u8) -> (x: u64)
    ensures
        spec_u64_be(x) == seq![b0, b1, b2, b3, b4, b5, b6, b7],
{
    let y1: u64 = (b0 as u64) * 256 + (b1 as u64);
    let y2: u64 = y1 * 256 + (b2 as u64);
    let y3: u64 = y2 * 256 + (b3 as u64);
    let y4: u64 = y3 * 256 + (b4 as u64);
    let y5: u64 = y4 * 256 + (b5 as u64);
    let y6: u64 = y5 * 256 + (b6 as u64);
    let x: u64 = y6 * 256 + (b7 as u64);
    proof {
        assert(x / 256 == y6 && x % 256 == b7);
        assert(y6 / 256 == y5 && y6 % 256 == b6);
        assert(y5 / 256 == y4 && y5 % 256 == b5);
        assert(y4 / 256 == y3 && y4 % 256 == b4);
        assert(y3 / 256 == y2 && y3 % 256 == b3);
        assert(y2 / 256 == y1 && y2 % 256 == b2);
        assert(y1 / 256 == b0 as u64 && y1 % 256 == b1);
        assert(spec_u64_be(x) =~= seq![b0, b1, b2, b3, b4, b5, b6, b7]);
    }
    x
}

} // verus!
