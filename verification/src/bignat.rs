//! Arbitrary-precision unsigned integers carried as canonical big-endian
//! byte strings. Numeric amounts on the wire are never narrowed to a
//! fixed-width machine integer; this type is their local representation.

use vstd::prelude::*;
use vstd::arithmetic::power::*;
use vstd::arithmetic::mul::*;
use crate::be::{spec_u64_be, push_u64_be, lemma_u64_be_val};

verus! {

/// The unsigned integer denoted by a big-endian byte string.
pub open spec fn be_val(s: Seq<u8>) -> nat
    decreases s.len(),
{
    if s.len() == 0 {
        0
    } else {
        be_val(s.drop_last()) * 256 + s.last() as nat
    }
}

/// A big-endian byte string is canonical when it has no leading zero byte.
pub open spec fn canonical(s: Seq<u8>) -> bool {
    s.len() == 0 || s[0] != 0
}

/// An arbitrary-precision unsigned integer, stored as its canonical
/// big-endian byte string. The empty string denotes zero.
#[derive(Clone, PartialEq, Eq, Debug)]
pub struct BigNat {
    pub bytes: Vec<u8>,
}

impl View for BigNat {
    type V = nat;

    open spec fn view(&self) -> nat {
        be_val(self.bytes@)
    }
}

impl BigNat {
    /// Well-formed: the stored bytes are canonical.
    pub open spec fn wf(&self) -> bool {
        canonical(self.bytes@)
    }

    /// The zero value.
    pub fn zero() -> (r: BigNat)
        ensures
            r.wf(),
            r@ == 0,
    {
        BigNat { bytes: Vec::new() }
    }

    /// Builds the value denoted by an arbitrary big-endian byte string,
    /// discarding leading zero bytes.
    pub fn from_bytes_be(bytes: &Vec<u8>) -> (r: BigNat)
        ensures
            r.wf(),
            r@ == be_val(bytes@),
    {
        let mut i: usize = 0;
        proof {
            assert(bytes@.skip(0) =~= bytes@);
        }
        while i < bytes.len() && bytes[i] == 0
            invariant
                0 <= i <= bytes@.len(),
                be_val(bytes@) == be_val(bytes@.skip(i as int)),
            decreases bytes@.len() - i,
        {
            proof {
                lemma_be_val_drop_leading_zero(bytes@.skip(i as int));
                assert(bytes@.skip(i as int).drop_first() =~= bytes@.skip(i + 1));
            }
            i = i + 1;
        }
        let mut out: Vec<u8> = Vec::new();
        let mut k: usize = i;
        while k < bytes.len()
            invariant
                i <= k <= bytes@.len(),
                out@ =~= bytes@.subrange(i as int, k as int),
            decreases bytes@.len() - k,
        {
            out.push(bytes[k]);
            k = k + 1;
        }
        proof {
            assert(out@ =~= bytes@.skip(i as int));
        }
        BigNat { bytes: out }
    }

    /// Builds the value of a fixed-width unsigned integer.
    pub fn from_u64(x: u64) -> (r: BigNat)
        ensures
            r.wf(),
            r@ == x,
    {
        let mut bytes: Vec<u8> = Vec::new();
        push_u64_be(&mut bytes, x);
        proof {
            lemma_u64_be_val(x);
            assert(bytes@ =~= spec_u64_be(x));
        }
        BigNat::from_bytes_be(&bytes)
    }

    /// An exact copy of this value.
    pub fn duplicate(&self) -> (r: BigNat)
        ensures
            r.bytes@ == self.bytes@,
            r.bytes@.len() < 0x1_0000_0000_0000_0000,
            r@ == self@,
            r.wf() == self.wf(),
    {
        let bytes = self.to_bytes_be();
        let _len: usize = bytes.len();
        BigNat { bytes }
    }

    /// A copy of the canonical big-endian bytes.
    pub fn to_bytes_be(&self) -> (r: Vec<u8>)
        ensures
            r@ == self.bytes@,
    {
        let mut out: Vec<u8> = Vec::new();
        let mut k: usize = 0;
        while k < self.bytes.len()
            invariant
                k <= self.bytes@.len(),
                out@ =~= self.bytes@.subrange(0, k as int),
            decreases self.bytes@.len() - k,
        {
            out.push(self.bytes[k]);
            k = k + 1;
        }
        proof {
            assert(out@ =~= self.bytes@);
        }
        out
    }
}

/// The empty byte string denotes zero.
pub proof fn lemma_be_val_empty()
    ensures
        be_val(Seq::<u8>::empty()) == 0,
{
}

/// Appending one byte multiplies the value by the base and adds the byte.
pub proof fn lemma_be_val_push(s: Seq<u8>, b: u8)
    ensures
        be_val(s.push(b)) == be_val(s) * 256 + b,
{
    assert(s.push(b).drop_last() =~= s);
    assert(s.push(b).last() == b);
}

/// Dropping a leading zero byte leaves the denoted value unchanged.
pub proof fn lemma_be_val_drop_leading_zero(s: Seq<u8>)
    requires
        s.len() > 0,
        s[0] == 0,
    ensures
        be_val(s) == be_val(s.drop_first()),
    decreases s.len(),
{
    if s.len() == 1 {
        lemma_be_val_empty();
        lemma_be_val_push(Seq::<u8>::empty(), s[0]);
        assert(s =~= Seq::<u8>::empty().push(s[0]));
        assert(s.drop_first() =~= Seq::<u8>::empty());
    } else {
        lemma_be_val_drop_leading_zero(s.drop_last());
        assert(s.drop_last().drop_first() =~= s.drop_first().drop_last());
    }
}

/// A big-endian byte string of length `n` denotes a value below `256^n`.
pub proof fn lemma_be_val_bound(s: Seq<u8>)
    ensures
        be_val(s) < pow(256, s.len()),
    decreases s.len(),
{
    if s.len() == 0 {
        lemma_pow0(256);
    } else {
        lemma_be_val_bound(s.drop_last());
        lemma_pow1(256);
        lemma_pow_adds(256, 1, (s.len() - 1) as nat);
        assert(pow(256, s.len()) == 256 * pow(256, (s.len() - 1) as nat));
    }
}

/// A canonical, non-empty byte string of length `n` denotes at least `256^(n-1)`.
pub proof fn lemma_be_val_lower(s: Seq<u8>)
    requires
        canonical(s),
        s.len() > 0,
    ensures
        be_val(s) >= pow(256, (s.len() - 1) as nat),
    decreases s.len(),
{
    if s.len() == 1 {
        lemma_pow0(256);
        assert(s.drop_last() =~= Seq::<u8>::empty());
    } else {
        lemma_be_val_lower(s.drop_last());
        lemma_pow1(256);
        lemma_pow_adds(256, 1, (s.len() - 2) as nat);
        assert(pow(256, (s.len() - 1) as nat) == 256 * pow(256, (s.len() - 2) as nat));
    }
}

/// Reading a concatenation: the left part is shifted by the width of the
/// right part.
pub proof fn lemma_be_val_concat(a: Seq<u8>, b: Seq<u8>)
    ensures
        be_val(a + b) == be_val(a) * pow(256, b.len()) + be_val(b),
    decreases b.len(),
{
    if b.len() == 0 {
        assert(a + b =~= a);
        lemma_pow0(256);
    } else {
        lemma_be_val_concat(a, b.drop_last());
        assert((a + b).drop_last() =~= a + b.drop_last());
        assert((a + b).len() > 0);
        assert(be_val(a + b) == be_val(a + b.drop_last()) * 256 + b.last());
        lemma_pow1(256);
        lemma_pow_adds(256, 1, (b.len() - 1) as nat);
        assert(pow(256, b.len()) == 256 * pow(256, (b.len() - 1) as nat));
        assert((be_val(a) * pow(256, (b.len() - 1) as nat) + be_val(b.drop_last())) * 256 == be_val(
            a,
        ) * (pow(256, (b.len() - 1) as nat) * 256) + be_val(b.drop_last()) * 256) by {
            lemma_mul_is_distributive_add_other_way(
                256,
                be_val(a) * pow(256, (b.len() - 1) as nat) as int,
                be_val(b.drop_last()) as int,
            );
            lemma_mul_is_associative(be_val(a) as int, pow(256, (b.len() - 1) as nat) as int, 256);
        }
    }
}

/// Two canonical byte strings denoting the same value are the same string.
pub proof fn lemma_be_val_injective(a: Seq<u8>, b: Seq<u8>)
    requires
        canonical(a),
        canonical(b),
        be_val(a) == be_val(b),
    ensures
        a == b,
    decreases a.len(),
{
    if a.len() == 0 || b.len() == 0 {
        if a.len() == 0 && b.len() > 0 {
            lemma_be_val_lower(b);
            lemma_pow_positive(256, (b.len() - 1) as nat);
            assert(false);
        }
        if b.len() == 0 && a.len() > 0 {
            lemma_be_val_lower(a);
            lemma_pow_positive(256, (a.len() - 1) as nat);
            assert(false);
        }
        assert(a =~= b);
    } else if a.len() < b.len() {
        lemma_be_val_bound(a);
        lemma_be_val_lower(b);
        lemma_pow_increases(256, a.len(), (b.len() - 1) as nat);
        assert(false);
    } else if b.len() < a.len() {
        lemma_be_val_bound(b);
        lemma_be_val_lower(a);
        lemma_pow_increases(256, b.len(), (a.len() - 1) as nat);
        assert(false);
    } else {
        // Same length: peel the last byte, which is determined by the value.
        assert(be_val(a) == be_val(a.drop_last()) * 256 + a.last());
        assert(be_val(b) == be_val(b.drop_last()) * 256 + b.last());
        assert(be_val(a.drop_last()) == be_val(b.drop_last()) && a.last() == b.last());
        if a.len() == 1 {
            assert(a =~= b);
        } else {
            assert(canonical(a.drop_last()) && canonical(b.drop_last()));
            lemma_be_val_injective(a.drop_last(), b.drop_last());
            assert(a =~= a.drop_last().push(a.last()));
            assert(b =~= b.drop_last().push(b.last()));
        }
    }
}

} // verus!
