//! The type transcoder: canonical binary envelopes for typed values.
//!
//! The wire form is self-describing and positional: every multi-byte number
//! is big-endian; an optional writes a presence byte, followed by the payload
//! only when present; counted data (big integers, text, byte strings, lists)
//! writes a 64-bit big-endian length first; an address writes a one-byte
//! length; records write their fields in declared order with no header; a
//! variant writes its 64-bit tag, then the payload of the shape that the tag
//! selects.
//!
//! `enc` and `dec` are the specification; `encode` and `decode` are the
//! executable transcoder, proved against them. `lemma_round_trip` states
//! that decoding inverts encoding on every conforming value.

use vstd::prelude::*;
use crate::bignat::{BigNat, be_val, canonical, lemma_be_val_bound, lemma_be_val_empty};
use crate::be::{
    spec_u16_be,
    spec_u32_be,
    spec_u64_be,
    lemma_u16_be_val,
    lemma_u32_be_val,
    lemma_u64_be_val,
    push_u16_be,
    push_u32_be,
    push_u64_be,
    read_u16_be,
    read_u32_be,
    read_u64_be,
};
use crate::shape::{Shape, ShapeList};
use crate::value::{
    TypedValue,
    ValueList,
    ValModel,
    view_value,
    view_value_list,
    has_shape,
    fields_have_shape,
    variant_has_shape,
};
use crate::errors::InvokeError;

verus! {

/// The wire bytes of a conforming value. For a value that does not conform
/// to the shape the result is immaterial (the encoder refuses it).
pub open spec fn enc(s: Shape, v: ValModel) -> Seq<u8>
    decreases s, 0int,
{
    match s {
        Shape::Nat => match v {
            ValModel::Nat(b) => spec_u64_be(b.len() as u64) + b,
            _ => Seq::empty(),
        },
        Shape::Bool => match v {
            ValModel::Bool(x) => seq![if x { 1u8 } else { 0u8 }],
            _ => Seq::empty(),
        },
        Shape::N8 => match v {
            ValModel::N8(x) => seq![x],
            _ => Seq::empty(),
        },
        Shape::N16 => match v {
            ValModel::N16(x) => spec_u16_be(x),
            _ => Seq::empty(),
        },
        Shape::N32 => match v {
            ValModel::N32(x) => spec_u32_be(x),
            _ => Seq::empty(),
        },
        Shape::N64 => match v {
            ValModel::N64(x) => spec_u64_be(x),
            _ => Seq::empty(),
        },
        Shape::Text => match v {
            ValModel::Text(b) => spec_u64_be(b.len() as u64) + b,
            _ => Seq::empty(),
        },
        Shape::Bytes => match v {
            ValModel::Bytes(b) => spec_u64_be(b.len() as u64) + b,
            _ => Seq::empty(),
        },
        Shape::Address => match v {
            ValModel::Address(b) => seq![b.len() as u8] + b,
            _ => Seq::empty(),
        },
        Shape::Opt(inner) => match v {
            ValModel::OptNone => seq![0u8],
            ValModel::OptSome(p) => seq![1u8] + enc(*inner, *p),
            _ => Seq::empty(),
        },
        Shape::List(e) => match v {
            ValModel::List(vs) => spec_u64_be(vs.len() as u64) + enc_list(*e, vs),
            _ => Seq::empty(),
        },
        Shape::Tuple(sl) => match v {
            ValModel::Tuple(vs) => enc_fields(*sl, vs),
            _ => Seq::empty(),
        },
        Shape::Variant(sl) => match v {
            ValModel::Variant(tag, p) => spec_u64_be(tag) + enc_variant(*sl, tag as int, *p),
            _ => Seq::empty(),
        },
    }
}

/// The wire bytes of list elements, in order.
pub open spec fn enc_list(e: Shape, vs: Seq<ValModel>) -> Seq<u8>
    decreases e, vs.len() as int,
{
    if vs.len() == 0 {
        Seq::empty()
    } else {
        enc(e, vs[0]) + enc_list(e, vs.skip(1))
    }
}

/// The wire bytes of record fields, in declared order.
pub open spec fn enc_fields(sl: ShapeList, vs: Seq<ValModel>) -> Seq<u8>
    decreases sl, 0int,
{
    match sl {
        ShapeList::Nil => Seq::empty(),
        ShapeList::Cons(h, t) => if vs.len() > 0 {
            enc(h, vs[0]) + enc_fields(*t, vs.skip(1))
        } else {
            Seq::empty()
        },
    }
}

/// The wire bytes of a variant payload under the shape its tag selects.
pub open spec fn enc_variant(sl: ShapeList, tag: int, p: ValModel) -> Seq<u8>
    decreases sl, 0int,
{
    match sl {
        ShapeList::Nil => Seq::empty(),
        ShapeList::Cons(h, t) => if tag == 0 {
            enc(h, p)
        } else {
            enc_variant(*t, tag - 1, p)
        },
    }
}

/// Parses one value of the shape from the front of the bytes, returning the
/// value and the remaining bytes, or nothing when the bytes do not parse.
pub open spec fn dec(s: Shape, b: Seq<u8>) -> Option<(ValModel, Seq<u8>)>
    decreases s, 0int,
{
    match s {
        Shape::Nat => if b.len() >= 8 {
            let l = be_val(b.take(8)) as int;
            if b.len() >= 8 + l && canonical(b.subrange(8, 8 + l)) {
                Some((ValModel::Nat(b.subrange(8, 8 + l)), b.skip(8 + l)))
            } else {
                None
            }
        } else {
            None
        },
        Shape::Bool => if b.len() >= 1 && (b[0] == 0 || b[0] == 1) {
            Some((ValModel::Bool(b[0] == 1), b.skip(1)))
        } else {
            None
        },
        Shape::N8 => if b.len() >= 1 {
            Some((ValModel::N8(b[0]), b.skip(1)))
        } else {
            None
        },
        Shape::N16 => if b.len() >= 2 {
            Some((ValModel::N16(be_val(b.take(2)) as u16), b.skip(2)))
        } else {
            None
        },
        Shape::N32 => if b.len() >= 4 {
            Some((ValModel::N32(be_val(b.take(4)) as u32), b.skip(4)))
        } else {
            None
        },
        Shape::N64 => if b.len() >= 8 {
            Some((ValModel::N64(be_val(b.take(8)) as u64), b.skip(8)))
        } else {
            None
        },
        Shape::Text => if b.len() >= 8 {
            let l = be_val(b.take(8)) as int;
            if b.len() >= 8 + l {
                Some((ValModel::Text(b.subrange(8, 8 + l)), b.skip(8 + l)))
            } else {
                None
            }
        } else {
            None
        },
        Shape::Bytes => if b.len() >= 8 {
            let l = be_val(b.take(8)) as int;
            if b.len() >= 8 + l {
                Some((ValModel::Bytes(b.subrange(8, 8 + l)), b.skip(8 + l)))
            } else {
                None
            }
        } else {
            None
        },
        Shape::Address => if b.len() >= 1 {
            let l = b[0] as int;
            if b.len() >= 1 + l {
                Some((ValModel::Address(b.subrange(1, 1 + l)), b.skip(1 + l)))
            } else {
                None
            }
        } else {
            None
        },
        Shape::Opt(inner) => if b.len() >= 1 {
            if b[0] == 0 {
                Some((ValModel::OptNone, b.skip(1)))
            } else if b[0] == 1 {
                match dec(*inner, b.skip(1)) {
                    Some((v, rest)) => Some((ValModel::OptSome(Box::new(v)), rest)),
                    None => None,
                }
            } else {
                None
            }
        } else {
            None
        },
        Shape::List(e) => if b.len() >= 8 {
            let n = be_val(b.take(8));
            match dec_list(*e, b.skip(8), n) {
                Some((vs, rest)) => Some((ValModel::List(vs), rest)),
                None => None,
            }
        } else {
            None
        },
        Shape::Tuple(sl) => match dec_fields(*sl, b) {
            Some((vs, rest)) => Some((ValModel::Tuple(vs), rest)),
            None => None,
        },
        Shape::Variant(sl) => if b.len() >= 8 {
            let tag = be_val(b.take(8));
            match dec_variant(*sl, tag as int, b.skip(8)) {
                Some((p, rest)) => Some((ValModel::Variant(tag as u64, Box::new(p)), rest)),
                None => None,
            }
        } else {
            None
        },
    }
}

/// Parses a counted run of list elements.
pub open spec fn dec_list(e: Shape, b: Seq<u8>, n: nat) -> Option<(Seq<ValModel>, Seq<u8>)>
    decreases e, n as int,
{
    if n == 0 {
        Some((Seq::empty(), b))
    } else {
        match dec(e, b) {
            Some((v, rest)) => match dec_list(e, rest, (n - 1) as nat) {
                Some((vs, rest2)) => Some((seq![v] + vs, rest2)),
                None => None,
            },
            None => None,
        }
    }
}

/// Parses record fields in declared order.
pub open spec fn dec_fields(sl: ShapeList, b: Seq<u8>) -> Option<(Seq<ValModel>, Seq<u8>)>
    decreases sl, 0int,
{
    match sl {
        ShapeList::Nil => Some((Seq::empty(), b)),
        ShapeList::Cons(h, t) => match dec(h, b) {
            Some((v, rest)) => match dec_fields(*t, rest) {
                Some((vs, rest2)) => Some((seq![v] + vs, rest2)),
                None => None,
            },
            None => None,
        },
    }
}

/// Parses a variant payload under the shape its tag selects.
pub open spec fn dec_variant(sl: ShapeList, tag: int, b: Seq<u8>) -> Option<(ValModel, Seq<u8>)>
    decreases sl, 0int,
{
    match sl {
        ShapeList::Nil => None,
        ShapeList::Cons(h, t) => if tag == 0 {
            dec(h, b)
        } else {
            dec_variant(*t, tag - 1, b)
        },
    }
}

/// A whole-buffer parse: one value of the shape, consuming every byte.
pub open spec fn dec_exact(s: Shape, b: Seq<u8>) -> Option<ValModel> {
    match dec(s, b) {
        Some((v, rest)) => if rest.len() == 0 {
            Some(v)
        } else {
            None
        },
        None => None,
    }
}

/// Decoding inverts encoding: a conforming value followed by any trailing
/// bytes parses back to exactly that value with exactly those bytes left.
pub proof fn lemma_enc_dec(s: Shape, v: ValModel, rest: Seq<u8>)
    requires
        has_shape(v, s),
    ensures
        dec(s, enc(s, v) + rest) == Some((v, rest)),
    decreases s, 0int,
{
    let b = enc(s, v) + rest;
    match s {
        Shape::Nat => {
            let bts = v->Nat_0;
            let lb = spec_u64_be(bts.len() as u64);
            lemma_u64_be_val(bts.len() as u64);
            assert(b.take(8) =~= lb);
            assert(b.subrange(8, 8 + bts.len() as int) =~= bts);
            assert(b.skip(8 + bts.len() as int) =~= rest);
        },
        Shape::Bool => {
            let x = v->Bool_0;
            assert(b[0] == (if x { 1u8 } else { 0u8 }));
            assert(b.skip(1) =~= rest);
        },
        Shape::N8 => {
            assert(b[0] == v->N8_0);
            assert(b.skip(1) =~= rest);
        },
        Shape::N16 => {
            let x = v->N16_0;
            lemma_u16_be_val(x);
            assert(b.take(2) =~= spec_u16_be(x));
            assert(b.skip(2) =~= rest);
        },
        Shape::N32 => {
            let x = v->N32_0;
            lemma_u32_be_val(x);
            assert(b.take(4) =~= spec_u32_be(x));
            assert(b.skip(4) =~= rest);
        },
        Shape::N64 => {
            let x = v->N64_0;
            lemma_u64_be_val(x);
            assert(b.take(8) =~= spec_u64_be(x));
            assert(b.skip(8) =~= rest);
        },
        Shape::Text => {
            let bts = v->Text_0;
            lemma_u64_be_val(bts.len() as u64);
            assert(b.take(8) =~= spec_u64_be(bts.len() as u64));
            assert(b.subrange(8, 8 + bts.len() as int) =~= bts);
            assert(b.skip(8 + bts.len() as int) =~= rest);
        },
        Shape::Bytes => {
            let bts = v->Bytes_0;
            lemma_u64_be_val(bts.len() as u64);
            assert(b.take(8) =~= spec_u64_be(bts.len() as u64));
            assert(b.subrange(8, 8 + bts.len() as int) =~= bts);
            assert(b.skip(8 + bts.len() as int) =~= rest);
        },
        Shape::Address => {
            let bts = v->Address_0;
            assert(b[0] == bts.len() as u8);
            assert(b.subrange(1, 1 + bts.len() as int) =~= bts);
            assert(b.skip(1 + bts.len() as int) =~= rest);
        },
        Shape::Opt(inner) => {
            match v {
                ValModel::OptNone => {
                    assert(b[0] == 0);
                    assert(b.skip(1) =~= rest);
                },
                ValModel::OptSome(p) => {
                    assert(b[0] == 1);
                    assert(b.skip(1) =~= enc(*inner, *p) + rest);
                    lemma_enc_dec(*inner, *p, rest);
                },
                _ => {},
            }
        },
        Shape::List(e) => {
            let vs = v->List_0;
            lemma_u64_be_val(vs.len() as u64);
            assert(b.take(8) =~= spec_u64_be(vs.len() as u64));
            assert(b.skip(8) =~= enc_list(*e, vs) + rest);
            lemma_enc_dec_list(*e, vs, rest);
        },
        Shape::Tuple(sl) => {
            let vs = v->Tuple_0;
            lemma_enc_dec_fields(*sl, vs, rest);
        },
        Shape::Variant(sl) => {
            let tag = v->Variant_0;
            let p = v->Variant_1;
            lemma_u64_be_val(tag);
            assert(b.take(8) =~= spec_u64_be(tag));
            assert(b.skip(8) =~= enc_variant(*sl, tag as int, *p) + rest);
            lemma_enc_dec_variant(*sl, tag as int, *p, rest);
        },
    }
}

/// Round trip of a run of list elements.
pub proof fn lemma_enc_dec_list(e: Shape, vs: Seq<ValModel>, rest: Seq<u8>)
    requires
        forall|i: int| 0 <= i < vs.len() ==> has_shape(#[trigger] vs[i], e),
    ensures
        dec_list(e, enc_list(e, vs) + rest, vs.len()) == Some((vs, rest)),
    decreases e, vs.len() as int,
{
    if vs.len() == 0 {
        assert(enc_list(e, vs) + rest =~= rest);
        assert(vs =~= Seq::<ValModel>::empty());
    } else {
        let tail = vs.skip(1);
        assert(enc_list(e, vs) + rest =~= enc(e, vs[0]) + (enc_list(e, tail) + rest));
        lemma_enc_dec(e, vs[0], enc_list(e, tail) + rest);
        assert(forall|i: int| 0 <= i < tail.len() ==> has_shape(#[trigger] tail[i], e));
        lemma_enc_dec_list(e, tail, rest);
        assert(seq![vs[0]] + tail =~= vs);
    }
}

/// Round trip of record fields.
pub proof fn lemma_enc_dec_fields(sl: ShapeList, vs: Seq<ValModel>, rest: Seq<u8>)
    requires
        fields_have_shape(vs, sl),
    ensures
        dec_fields(sl, enc_fields(sl, vs) + rest) == Some((vs, rest)),
    decreases sl, 0int,
{
    match sl {
        ShapeList::Nil => {
            assert(enc_fields(sl, vs) + rest =~= rest);
            assert(vs =~= Seq::<ValModel>::empty());
        },
        ShapeList::Cons(h, t) => {
            let tail = vs.skip(1);
            assert(enc_fields(sl, vs) + rest =~= enc(h, vs[0]) + (enc_fields(*t, tail) + rest));
            lemma_enc_dec(h, vs[0], enc_fields(*t, tail) + rest);
            lemma_enc_dec_fields(*t, tail, rest);
            assert(seq![vs[0]] + tail =~= vs);
        },
    }
}

/// Round trip of a variant payload.
pub proof fn lemma_enc_dec_variant(sl: ShapeList, tag: int, p: ValModel, rest: Seq<u8>)
    requires
        variant_has_shape(tag, p, sl),
    ensures
        dec_variant(sl, tag, enc_variant(sl, tag, p) + rest) == Some((p, rest)),
    decreases sl, 0int,
{
    match sl {
        ShapeList::Nil => {},
        ShapeList::Cons(h, t) => {
            if tag == 0 {
                lemma_enc_dec(h, p, rest);
            } else {
                lemma_enc_dec_variant(*t, tag - 1, p, rest);
            }
        },
    }
}

/// `256^8` is the bound of an eight-byte big-endian length field.
proof fn lemma_pow256_8()
    ensures
        vstd::arithmetic::power::pow(256, 8) == 0x1_0000_0000_0000_0000,
{
    reveal_with_fuel(vstd::arithmetic::power::pow, 9);
}

/// An eight-byte big-endian length field is below `2^64`.
proof fn lemma_len_field_bound(b: Seq<u8>)
    requires
        b.len() >= 8,
    ensures
        be_val(b.take(8)) < 0x1_0000_0000_0000_0000,
{
    lemma_be_val_bound(b.take(8));
    lemma_pow256_8();
}

/// Whatever parses conforms to the shape it was parsed against, and the
/// remaining bytes are a suffix no longer than the input.
pub proof fn lemma_dec_has_shape(s: Shape, b: Seq<u8>)
    ensures
        dec(s, b) matches Some((v, rest)) ==> has_shape(v, s) && rest.len() <= b.len(),
    decreases s, 0int,
{
    match s {
        Shape::Nat => {
            if b.len() >= 8 {
                lemma_len_field_bound(b);
            }
        },
        Shape::Text => {
            if b.len() >= 8 {
                lemma_len_field_bound(b);
            }
        },
        Shape::Bytes => {
            if b.len() >= 8 {
                lemma_len_field_bound(b);
            }
        },
        Shape::Opt(inner) => {
            if b.len() >= 1 && b[0] == 1 {
                lemma_dec_has_shape(*inner, b.skip(1));
            }
        },
        Shape::List(e) => {
            if b.len() >= 8 {
                lemma_len_field_bound(b);
                lemma_dec_list_has_shape(*e, b.skip(8), be_val(b.take(8)));
            }
        },
        Shape::Tuple(sl) => {
            lemma_dec_fields_has_shape(*sl, b);
        },
        Shape::Variant(sl) => {
            if b.len() >= 8 {
                lemma_len_field_bound(b);
                lemma_dec_variant_has_shape(*sl, be_val(b.take(8)) as int, b.skip(8));
            }
        },
        _ => {},
    }
}

/// Whatever a counted run parses is `n` conforming elements.
pub proof fn lemma_dec_list_has_shape(e: Shape, b: Seq<u8>, n: nat)
    ensures
        dec_list(e, b, n) matches Some((vs, rest)) ==> vs.len() == n && (forall|i: int|
            0 <= i < vs.len() ==> has_shape(#[trigger] vs[i], e)) && rest.len() <= b.len(),
    decreases e, n as int,
{
    if n > 0 {
        lemma_dec_has_shape(e, b);
        if let Some((v, rest)) = dec(e, b) {
            lemma_dec_list_has_shape(e, rest, (n - 1) as nat);
        }
    }
}

/// Whatever a field run parses conforms to the shape list.
pub proof fn lemma_dec_fields_has_shape(sl: ShapeList, b: Seq<u8>)
    ensures
        dec_fields(sl, b) matches Some((vs, rest)) ==> fields_have_shape(vs, sl) && rest.len()
            <= b.len(),
    decreases sl, 0int,
{
    match sl {
        ShapeList::Nil => {},
        ShapeList::Cons(h, t) => {
            lemma_dec_has_shape(h, b);
            if let Some((v, rest)) = dec(h, b) {
                lemma_dec_fields_has_shape(*t, rest);
                if let Some((vs, rest2)) = dec_fields(*t, rest) {
                    assert((seq![v] + vs).skip(1) =~= vs);
                }
            }
        },
    }
}

/// Whatever a variant payload parses conforms to the tag's shape.
pub proof fn lemma_dec_variant_has_shape(sl: ShapeList, tag: int, b: Seq<u8>)
    ensures
        dec_variant(sl, tag, b) matches Some((v, rest)) ==> variant_has_shape(tag, v, sl)
            && rest.len() <= b.len(),
    decreases sl, 0int,
{
    match sl {
        ShapeList::Nil => {},
        ShapeList::Cons(h, t) => {
            if tag == 0 {
                lemma_dec_has_shape(h, b);
            } else {
                lemma_dec_variant_has_shape(*t, tag - 1, b);
            }
        },
    }
}

/// Whatever a whole-buffer parse yields conforms to the shape: decoding
/// never produces a wrong-typed value.
pub proof fn lemma_decode_well_typed(s: Shape, b: Seq<u8>)
    ensures
        dec_exact(s, b) matches Some(v) ==> has_shape(v, s),
{
    lemma_dec_has_shape(s, b);
}

/// Decoding inverts encoding on every conforming value, with nothing left.
pub proof fn lemma_round_trip(s: Shape, v: ValModel)
    requires
        has_shape(v, s),
    ensures
        dec_exact(s, enc(s, v)) == Some(v),
{
    lemma_enc_dec(s, v, Seq::<u8>::empty());
    assert(enc(s, v) + Seq::<u8>::empty() =~= enc(s, v));
}

/// An absent optional reply is a value of the optional shape that decodes
/// back to the absent value: absence is never a decoding failure.
pub proof fn lemma_absent_reply_is_value(s: Shape)
    ensures
        dec_exact(Shape::Opt(Box::new(s)), enc(Shape::Opt(Box::new(s)), ValModel::OptNone))
            == Some(ValModel::OptNone),
{
    lemma_round_trip(Shape::Opt(Box::new(s)), ValModel::OptNone);
}

/// Copies `b[from..to]` into a fresh vector.
fn copy_range(b: &Vec<u8>, from: usize, to: usize) -> (r: Vec<u8>)
    requires
        from <= to <= b@.len(),
    ensures
        r@ == b@.subrange(from as int, to as int),
{
    let mut out: Vec<u8> = Vec::new();
    let mut k: usize = from;
    while k < to
        invariant
            from <= k <= to <= b@.len(),
            out@ =~= b@.subrange(from as int, k as int),
        decreases to - k,
    {
        out.push(b[k]);
        k = k + 1;
    }
    proof {
        assert(out@ =~= b@.subrange(from as int, to as int));
    }
    out
}

/// Appends all of `src` to `out`.
fn push_bytes(out: &mut Vec<u8>, src: &Vec<u8>)
    ensures
        final(out)@ == old(out)@ + src@,
{
    proof {
        assert(out@ =~= old(out)@ + src@.subrange(0, 0));
    }
    let mut k: usize = 0;
    while k < src.len()
        invariant
            k <= src@.len(),
            out@ =~= old(out)@ + src@.subrange(0, k as int),
        decreases src@.len() - k,
    {
        out.push(src[k]);
        k = k + 1;
    }
    proof {
        assert(out@ =~= old(out)@ + src@);
    }
}

/// The number of values in a list, or nothing when it exceeds the wire's
/// 64-bit count width.
fn value_list_len(vl: &ValueList) -> (r: Option<u64>)
    ensures
        r matches Some(n) ==> view_value_list(vl).len() == n,
        r is None ==> view_value_list(vl).len() >= 0x1_0000_0000_0000_0000,
    decreases vl,
{
    match vl {
        ValueList::Nil => Some(0),
        ValueList::Cons(_, t) => match value_list_len(t) {
            Option::Some(n) => if n < 0xFFFF_FFFF_FFFF_FFFF {
                Some(n + 1)
            } else {
                None
            },
            Option::None => None,
        },
    }
}

/// Encodes one value against a shape, appending its wire bytes to `out`.
/// Returns whether the value conforms to the shape; when it does not, the
/// bytes appended so far are meaningless and the caller discards the buffer.
pub fn encode_value(s: &Shape, v: &TypedValue, out: &mut Vec<u8>) -> (ok: bool)
    ensures
        ok == has_shape(v@, *s),
        ok ==> final(out)@ == old(out)@ + enc(*s, v@),
    decreases *s, 0int,
{
    match s {
        Shape::Nat => match v {
            TypedValue::Nat(n) => {
                if n.bytes.len() > 0 && n.bytes[0] == 0 {
                    false
                } else {
                    push_u64_be(out, n.bytes.len() as u64);
                    push_bytes(out, &n.bytes);
                    proof {
                        assert(out@ =~= old(out)@ + enc(*s, v@));
                    }
                    true
                }
            },
            _ => false,
        },
        Shape::Bool => match v {
            TypedValue::Bool(x) => {
                out.push(if *x {
                    1
                } else {
                    0
                });
                proof {
                    assert(out@ =~= old(out)@ + enc(*s, v@));
                }
                true
            },
            _ => false,
        },
        Shape::N8 => match v {
            TypedValue::N8(x) => {
                out.push(*x);
                proof {
                    assert(out@ =~= old(out)@ + enc(*s, v@));
                }
                true
            },
            _ => false,
        },
        Shape::N16 => match v {
            TypedValue::N16(x) => {
                push_u16_be(out, *x);
                true
            },
            _ => false,
        },
        Shape::N32 => match v {
            TypedValue::N32(x) => {
                push_u32_be(out, *x);
                true
            },
            _ => false,
        },
        Shape::N64 => match v {
            TypedValue::N64(x) => {
                push_u64_be(out, *x);
                true
            },
            _ => false,
        },
        Shape::Text => match v {
            TypedValue::Text(b) => {
                push_u64_be(out, b.len() as u64);
                push_bytes(out, b);
                proof {
                    assert(out@ =~= old(out)@ + enc(*s, v@));
                }
                true
            },
            _ => false,
        },
        Shape::Bytes => match v {
            TypedValue::Bytes(b) => {
                push_u64_be(out, b.len() as u64);
                push_bytes(out, b);
                proof {
                    assert(out@ =~= old(out)@ + enc(*s, v@));
                }
                true
            },
            _ => false,
        },
        Shape::Address => match v {
            TypedValue::Address(b) => {
                if b.len() > 255 {
                    false
                } else {
                    out.push(b.len() as u8);
                    push_bytes(out, b);
                    proof {
                        assert(out@ =~= old(out)@ + enc(*s, v@));
                    }
                    true
                }
            },
            _ => false,
        },
        Shape::Opt(inner) => match v {
            TypedValue::OptNone => {
                out.push(0);
                proof {
                    assert(out@ =~= old(out)@ + enc(*s, v@));
                }
                true
            },
            TypedValue::OptSome(p) => {
                out.push(1);
                let ghost mid = out@;
                let ok = encode_value(inner, p, out);
                proof {
                    if ok {
                        assert(out@ =~= old(out)@ + enc(*s, v@));
                    }
                }
                ok
            },
            _ => false,
        },
        Shape::List(e) => match v {
            TypedValue::List(vl) => match value_list_len(vl) {
                Option::None => false,
                Option::Some(n) => {
                    push_u64_be(out, n);
                    let ok = encode_list(e, vl, out);
                    proof {
                        if ok {
                            assert(out@ =~= old(out)@ + enc(*s, v@));
                        }
                    }
                    ok
                },
            },
            _ => false,
        },
        Shape::Tuple(sl) => match v {
            TypedValue::Tuple(vl) => encode_fields(sl, vl, out),
            _ => false,
        },
        Shape::Variant(sl) => match v {
            TypedValue::Variant(tag, p) => {
                push_u64_be(out, *tag);
                let ok = encode_variant(sl, *tag, p, out);
                proof {
                    if ok {
                        assert(out@ =~= old(out)@ + enc(*s, v@));
                    }
                }
                ok
            },
            _ => false,
        },
    }
}

/// Encodes list elements in order, appending their wire bytes.
fn encode_list(e: &Shape, vl: &ValueList, out: &mut Vec<u8>) -> (ok: bool)
    ensures
        ok == (forall|i: int|
            0 <= i < view_value_list(vl).len() ==> has_shape(
                #[trigger] view_value_list(vl)[i],
                *e,
            )),
        ok ==> final(out)@ == old(out)@ + enc_list(*e, view_value_list(vl)),
    decreases *e, view_value_list(vl).len() as int + 1,
{
    match vl {
        ValueList::Nil => {
            proof {
                assert(out@ =~= old(out)@ + enc_list(*e, view_value_list(vl)));
            }
            true
        },
        ValueList::Cons(h, t) => {
            let ghost vs = view_value_list(vl);
            let ghost tl = view_value_list(t);
            proof {
                assert(vs == seq![view_value(h)] + tl);
                assert(vs[0] == view_value(h));
                assert(vs.len() == tl.len() + 1);
                assert(forall|i: int| 0 <= i < tl.len() ==> vs[i + 1] == #[trigger] tl[i]);
            }
            let ok1 = encode_value(e, h, out);
            if !ok1 {
                proof {
                    assert(!has_shape(vs[0], *e));
                }
                false
            } else {
                let ok2 = encode_list(e, t, out);
                if !ok2 {
                    proof {
                        let j = choose|j: int| 0 <= j < tl.len() && !has_shape(#[trigger] tl[j], *e);
                        assert(!has_shape(vs[j + 1], *e));
                    }
                    false
                } else {
                    proof {
                        assert forall|i: int| 0 <= i < vs.len() implies has_shape(
                            #[trigger] vs[i],
                            *e,
                        ) by {
                            if i > 0 {
                                assert(vs[i] == tl[i - 1]);
                            }
                        }
                        assert(vs.skip(1) =~= tl);
                        assert(enc_list(*e, vs) == enc(*e, vs[0]) + enc_list(*e, tl));
                        assert(out@ =~= old(out)@ + enc_list(*e, vs));
                    }
                    true
                }
            }
        },
    }
}

/// Encodes record fields in declared order, appending their wire bytes.
fn encode_fields(sl: &ShapeList, vl: &ValueList, out: &mut Vec<u8>) -> (ok: bool)
    ensures
        ok == fields_have_shape(view_value_list(vl), *sl),
        ok ==> final(out)@ == old(out)@ + enc_fields(*sl, view_value_list(vl)),
    decreases *sl, 0int,
{
    match sl {
        ShapeList::Nil => match vl {
            ValueList::Nil => {
                proof {
                    assert(out@ =~= old(out)@ + enc_fields(*sl, view_value_list(vl)));
                }
                true
            },
            ValueList::Cons(_, _) => false,
        },
        ShapeList::Cons(h, t) => match vl {
            ValueList::Nil => false,
            ValueList::Cons(vh, vt) => {
                let ghost vs = view_value_list(vl);
                let ghost tl = view_value_list(vt);
                proof {
                    assert(vs == seq![view_value(vh)] + tl);
                    assert(vs[0] == view_value(vh));
                    assert(vs.skip(1) =~= tl);
                }
                let ok1 = encode_value(h, vh, out);
                if !ok1 {
                    false
                } else {
                    let ok2 = encode_fields(t, vt, out);
                    proof {
                        if ok2 {
                            assert(out@ =~= old(out)@ + enc_fields(*sl, vs));
                        }
                    }
                    ok2
                }
            },
        },
    }
}

/// Encodes a variant payload under the shape its tag selects.
fn encode_variant(sl: &ShapeList, tag: u64, p: &TypedValue, out: &mut Vec<u8>) -> (ok: bool)
    ensures
        ok == variant_has_shape(tag as int, view_value(p), *sl),
        ok ==> final(out)@ == old(out)@ + enc_variant(*sl, tag as int, view_value(p)),
    decreases *sl, 0int,
{
    match sl {
        ShapeList::Nil => false,
        ShapeList::Cons(h, t) => if tag == 0 {
            encode_value(h, p, out)
        } else {
            encode_variant(t, tag - 1, p, out)
        },
    }
}

/// Encodes a typed value into its canonical envelope, failing exactly when
/// the value does not conform to the shape.
pub fn encode(s: &Shape, v: &TypedValue) -> (r: Result<Vec<u8>, InvokeError>)
    ensures
        r matches Ok(bts) ==> has_shape(v@, *s) && bts@ == enc(*s, v@),
        r is Err <==> !has_shape(v@, *s),
        r matches Err(e) ==> e == InvokeError::Encoding,
{
    let mut out: Vec<u8> = Vec::new();
    let ok = encode_value(s, v, &mut out);
    if ok {
        proof {
            assert(out@ =~= enc(*s, v@));
        }
        Ok(out)
    } else {
        Err(InvokeError::Encoding)
    }
}

/// Parses one value of the shape from `b` starting at `pos`, returning the
/// value and the position just past its bytes. Total: on any input it
/// returns a parse or nothing, never a fault.
#[verifier::rlimit(60)]
pub fn decode_at(s: &Shape, b: &Vec<u8>, pos: usize) -> (r: Option<(TypedValue, usize)>)
    requires
        pos <= b@.len(),
    ensures
        r matches Some((v, p2)) ==> pos <= p2 <= b@.len() && dec(*s, b@.skip(pos as int)) == Some(
            (v@, b@.skip(p2 as int)),
        ),
        r is None ==> dec(*s, b@.skip(pos as int)) is None,
    decreases *s, 0int,
{
    let ghost w = b@.skip(pos as int);
    match s {
        Shape::Nat => {
            if b.len() - pos < 8 {
                return None;
            }
            let l64 = read_u64_be(
                b[pos],
                b[pos + 1],
                b[pos + 2],
                b[pos + 3],
                b[pos + 4],
                b[pos + 5],
                b[pos + 6],
                b[pos + 7],
            );
            proof {
                lemma_u64_be_val(l64);
                assert(w.take(8) =~= seq![
                    b@[pos as int],
                    b@[pos as int + 1],
                    b@[pos as int + 2],
                    b@[pos as int + 3],
                    b@[pos as int + 4],
                    b@[pos as int + 5],
                    b@[pos as int + 6],
                    b@[pos as int + 7],
                ]);
                assert(be_val(w.take(8)) == l64);
            }
            let rem = b.len() - pos - 8;
            if (rem as u64) < l64 {
                return None;
            }
            let l = l64 as usize;
            let start = pos + 8;
            let nb = copy_range(b, start, start + l);
            proof {
                assert(w.subrange(8, 8 + l as int) =~= b@.subrange(
                    start as int,
                    start as int + l as int,
                ));
            }
            if nb.len() > 0 && nb[0] == 0 {
                return None;
            }
            proof {
                assert(w.skip(8 + l as int) =~= b@.skip(start as int + l as int));
            }
            Some((TypedValue::Nat(BigNat { bytes: nb }), start + l))
        },
        Shape::Bool => {
            if b.len() - pos < 1 {
                return None;
            }
            let x = b[pos];
            if x > 1 {
                return None;
            }
            proof {
                assert(w[0] == b@[pos as int]);
                assert(w.skip(1) =~= b@.skip(pos as int + 1));
            }
            Some((TypedValue::Bool(x == 1), pos + 1))
        },
        Shape::N8 => {
            if b.len() - pos < 1 {
                return None;
            }
            proof {
                assert(w[0] == b@[pos as int]);
                assert(w.skip(1) =~= b@.skip(pos as int + 1));
            }
            Some((TypedValue::N8(b[pos]), pos + 1))
        },
        Shape::N16 => {
            if b.len() - pos < 2 {
                return None;
            }
            let x = read_u16_be(b[pos], b[pos + 1]);
            proof {
                crate::be::lemma_u16_be_val(x);
                assert(w.take(2) =~= seq![b@[pos as int], b@[pos as int + 1]]);
                assert(be_val(w.take(2)) == x);
                assert(w.skip(2) =~= b@.skip(pos as int + 2));
            }
            Some((TypedValue::N16(x), pos + 2))
        },
        Shape::N32 => {
            if b.len() - pos < 4 {
                return None;
            }
            let x = read_u32_be(b[pos], b[pos + 1], b[pos + 2], b[pos + 3]);
            proof {
                crate::be::lemma_u32_be_val(x);
                assert(w.take(4) =~= seq![
                    b@[pos as int],
                    b@[pos as int + 1],
                    b@[pos as int + 2],
                    b@[pos as int + 3],
                ]);
                assert(be_val(w.take(4)) == x);
                assert(w.skip(4) =~= b@.skip(pos as int + 4));
            }
            Some((TypedValue::N32(x), pos + 4))
        },
        Shape::N64 => {
            if b.len() - pos < 8 {
                return None;
            }
            let x = read_u64_be(
                b[pos],
                b[pos + 1],
                b[pos + 2],
                b[pos + 3],
                b[pos + 4],
                b[pos + 5],
                b[pos + 6],
                b[pos + 7],
            );
            proof {
                lemma_u64_be_val(x);
                assert(w.take(8) =~= seq![
                    b@[pos as int],
                    b@[pos as int + 1],
                    b@[pos as int + 2],
                    b@[pos as int + 3],
                    b@[pos as int + 4],
                    b@[pos as int + 5],
                    b@[pos as int + 6],
                    b@[pos as int + 7],
                ]);
                assert(be_val(w.take(8)) == x);
                assert(w.skip(8) =~= b@.skip(pos as int + 8));
            }
            Some((TypedValue::N64(x), pos + 8))
        },
        Shape::Text => {
            if b.len() - pos < 8 {
                return None;
            }
            let l64 = read_u64_be(
                b[pos],
                b[pos + 1],
                b[pos + 2],
                b[pos + 3],
                b[pos + 4],
                b[pos + 5],
                b[pos + 6],
                b[pos + 7],
            );
            proof {
                lemma_u64_be_val(l64);
                assert(w.take(8) =~= seq![
                    b@[pos as int],
                    b@[pos as int + 1],
                    b@[pos as int + 2],
                    b@[pos as int + 3],
                    b@[pos as int + 4],
                    b@[pos as int + 5],
                    b@[pos as int + 6],
                    b@[pos as int + 7],
                ]);
                assert(be_val(w.take(8)) == l64);
            }
            let rem = b.len() - pos - 8;
            if (rem as u64) < l64 {
                return None;
            }
            let l = l64 as usize;
            let start = pos + 8;
            let tb = copy_range(b, start, start + l);
            proof {
                assert(w.subrange(8, 8 + l as int) =~= b@.subrange(
                    start as int,
                    start as int + l as int,
                ));
                assert(w.skip(8 + l as int) =~= b@.skip(start as int + l as int));
            }
            Some((TypedValue::Text(tb), start + l))
        },
        Shape::Bytes => {
            if b.len() - pos < 8 {
                return None;
            }
            let l64 = read_u64_be(
                b[pos],
                b[pos + 1],
                b[pos + 2],
                b[pos + 3],
                b[pos + 4],
                b[pos + 5],
                b[pos + 6],
                b[pos + 7],
            );
            proof {
                lemma_u64_be_val(l64);
                assert(w.take(8) =~= seq![
                    b@[pos as int],
                    b@[pos as int + 1],
                    b@[pos as int + 2],
                    b@[pos as int + 3],
                    b@[pos as int + 4],
                    b@[pos as int + 5],
                    b@[pos as int + 6],
                    b@[pos as int + 7],
                ]);
                assert(be_val(w.take(8)) == l64);
            }
            let rem = b.len() - pos - 8;
            if (rem as u64) < l64 {
                return None;
            }
            let l = l64 as usize;
            let start = pos + 8;
            let bb = copy_range(b, start, start + l);
            proof {
                assert(w.subrange(8, 8 + l as int) =~= b@.subrange(
                    start as int,
                    start as int + l as int,
                ));
                assert(w.skip(8 + l as int) =~= b@.skip(start as int + l as int));
            }
            Some((TypedValue::Bytes(bb), start + l))
        },
        Shape::Address => {
            if b.len() - pos < 1 {
                return None;
            }
            let l = b[pos] as usize;
            proof {
                assert(w[0] == b@[pos as int]);
            }
            if b.len() - pos - 1 < l {
                return None;
            }
            let start = pos + 1;
            let ab = copy_range(b, start, start + l);
            proof {
                assert(w.subrange(1, 1 + l as int) =~= b@.subrange(
                    start as int,
                    start as int + l as int,
                ));
                assert(w.skip(1 + l as int) =~= b@.skip(start as int + l as int));
            }
            Some((TypedValue::Address(ab), start + l))
        },
        Shape::Opt(inner) => {
            if b.len() - pos < 1 {
                return None;
            }
            let tagb = b[pos];
            proof {
                assert(w[0] == b@[pos as int]);
                assert(w.skip(1) =~= b@.skip(pos as int + 1));
            }
            if tagb == 0 {
                Some((TypedValue::OptNone, pos + 1))
            } else if tagb == 1 {
                match decode_at(inner, b, pos + 1) {
                    Option::None => None,
                    Option::Some((v, p2)) => Some((TypedValue::OptSome(Box::new(v)), p2)),
                }
            } else {
                None
            }
        },
        Shape::List(e) => {
            if b.len() - pos < 8 {
                return None;
            }
            let n = read_u64_be(
                b[pos],
                b[pos + 1],
                b[pos + 2],
                b[pos + 3],
                b[pos + 4],
                b[pos + 5],
                b[pos + 6],
                b[pos + 7],
            );
            proof {
                lemma_u64_be_val(n);
                assert(w.take(8) =~= seq![
                    b@[pos as int],
                    b@[pos as int + 1],
                    b@[pos as int + 2],
                    b@[pos as int + 3],
                    b@[pos as int + 4],
                    b@[pos as int + 5],
                    b@[pos as int + 6],
                    b@[pos as int + 7],
                ]);
                assert(be_val(w.take(8)) == n);
                assert(w.skip(8) =~= b@.skip(pos as int + 8));
            }
            match decode_list_at(e, b, pos + 8, n) {
                Option::None => None,
                Option::Some((vl, p2)) => Some((TypedValue::List(Box::new(vl)), p2)),
            }
        },
        Shape::Tuple(sl) => match decode_fields_at(sl, b, pos) {
            Option::None => None,
            Option::Some((vl, p2)) => Some((TypedValue::Tuple(Box::new(vl)), p2)),
        },
        Shape::Variant(sl) => {
            if b.len() - pos < 8 {
                return None;
            }
            let tag = read_u64_be(
                b[pos],
                b[pos + 1],
                b[pos + 2],
                b[pos + 3],
                b[pos + 4],
                b[pos + 5],
                b[pos + 6],
                b[pos + 7],
            );
            proof {
                lemma_u64_be_val(tag);
                assert(w.take(8) =~= seq![
                    b@[pos as int],
                    b@[pos as int + 1],
                    b@[pos as int + 2],
                    b@[pos as int + 3],
                    b@[pos as int + 4],
                    b@[pos as int + 5],
                    b@[pos as int + 6],
                    b@[pos as int + 7],
                ]);
                assert(be_val(w.take(8)) == tag);
                assert(w.skip(8) =~= b@.skip(pos as int + 8));
            }
            match decode_variant_at(sl, tag, b, pos + 8) {
                Option::None => None,
                Option::Some((p, p2)) => Some((TypedValue::Variant(tag, Box::new(p)), p2)),
            }
        },
    }
}

/// Parses a counted run of list elements.
fn decode_list_at(e: &Shape, b: &Vec<u8>, pos: usize, n: u64) -> (r: Option<(ValueList, usize)>)
    requires
        pos <= b@.len(),
    ensures
        r matches Some((vl, p2)) ==> pos <= p2 <= b@.len() && dec_list(
            *e,
            b@.skip(pos as int),
            n as nat,
        ) == Some((view_value_list(&vl), b@.skip(p2 as int))),
        r is None ==> dec_list(*e, b@.skip(pos as int), n as nat) is None,
    decreases *e, n as int,
{
    if n == 0 {
        proof {
            assert(view_value_list(&ValueList::Nil) =~= Seq::<ValModel>::empty());
        }
        Some((ValueList::Nil, pos))
    } else {
        match decode_at(e, b, pos) {
            Option::None => None,
            Option::Some((v, p1)) => match decode_list_at(e, b, p1, n - 1) {
                Option::None => None,
                Option::Some((vl, p2)) => {
                    proof {
                        assert(view_value_list(&ValueList::Cons(v, Box::new(vl))) == seq![
                            view_value(&v),
                        ] + view_value_list(&vl));
                    }
                    Some((ValueList::Cons(v, Box::new(vl)), p2))
                },
            },
        }
    }
}

/// Parses record fields in declared order.
fn decode_fields_at(sl: &ShapeList, b: &Vec<u8>, pos: usize) -> (r: Option<(ValueList, usize)>)
    requires
        pos <= b@.len(),
    ensures
        r matches Some((vl, p2)) ==> pos <= p2 <= b@.len() && dec_fields(*sl, b@.skip(pos as int))
            == Some((view_value_list(&vl), b@.skip(p2 as int))),
        r is None ==> dec_fields(*sl, b@.skip(pos as int)) is None,
    decreases *sl, 0int,
{
    match sl {
        ShapeList::Nil => {
            proof {
                assert(view_value_list(&ValueList::Nil) =~= Seq::<ValModel>::empty());
            }
            Some((ValueList::Nil, pos))
        },
        ShapeList::Cons(h, t) => match decode_at(h, b, pos) {
            Option::None => None,
            Option::Some((v, p1)) => match decode_fields_at(t, b, p1) {
                Option::None => None,
                Option::Some((vl, p2)) => {
                    proof {
                        assert(view_value_list(&ValueList::Cons(v, Box::new(vl))) == seq![
                            view_value(&v),
                        ] + view_value_list(&vl));
                    }
                    Some((ValueList::Cons(v, Box::new(vl)), p2))
                },
            },
        },
    }
}

/// Parses a variant payload under the shape its tag selects.
fn decode_variant_at(sl: &ShapeList, tag: u64, b: &Vec<u8>, pos: usize) -> (r: Option<
    (TypedValue, usize),
>)
    requires
        pos <= b@.len(),
    ensures
        r matches Some((v, p2)) ==> pos <= p2 <= b@.len() && dec_variant(
            *sl,
            tag as int,
            b@.skip(pos as int),
        ) == Some((v@, b@.skip(p2 as int))),
        r is None ==> dec_variant(*sl, tag as int, b@.skip(pos as int)) is None,
    decreases *sl, 0int,
{
    match sl {
        ShapeList::Nil => None,
        ShapeList::Cons(h, t) => if tag == 0 {
            decode_at(h, b, pos)
        } else {
            decode_variant_at(t, tag - 1, b, pos)
        },
    }
}

/// Decodes a whole envelope against a shape: exactly one value, consuming
/// every byte. Fails exactly when the bytes do not parse, and the parsed
/// value always conforms to the shape.
pub fn decode(s: &Shape, b: &Vec<u8>) -> (r: Result<TypedValue, InvokeError>)
    ensures
        r matches Ok(v) ==> dec_exact(*s, b@) == Some(v@) && has_shape(v@, *s),
        r is Err <==> dec_exact(*s, b@) is None,
        r matches Err(e) ==> e == InvokeError::Decoding,
{
    proof {
        assert(b@.skip(0) =~= b@);
    }
    match decode_at(s, b, 0) {
        Option::Some((v, p2)) => {
            if p2 == b.len() {
                proof {
                    assert(b@.skip(p2 as int) =~= Seq::<u8>::empty());
                    lemma_decode_well_typed(*s, b@);
                }
                Ok(v)
            } else {
                proof {
                    assert(b@.skip(p2 as int).len() > 0);
                }
                Err(InvokeError::Decoding)
            }
        },
        Option::None => Err(InvokeError::Decoding),
    }
}

} // verus!
