//! The typed value space of the schema, and its mathematical model.
//!
//! `TypedValue` is the executable tagged union that requests and replies are
//! built from. `ValModel` is its ghost mirror over `Seq`, which the wire
//! contracts are stated over. `has_shape` says when a model value conforms to
//! a shape.

use vstd::prelude::*;
use crate::bignat::{BigNat, canonical};
use crate::shape::{Shape, ShapeList};

verus! {

/// A typed wire value: the executable side.
#[derive(PartialEq, Eq, Debug)]
pub enum TypedValue {
    /// Arbitrary-precision unsigned integer.
    Nat(BigNat),
    /// Boolean.
    Bool(bool),
    /// 8-bit unsigned integer.
    N8(u8),
    /// 16-bit unsigned integer.
    N16(u16),
    /// 32-bit unsigned integer.
    N32(u32),
    /// 64-bit unsigned integer.
    N64(u64),
    /// Text, carried as its UTF-8 bytes.
    Text(Vec<u8>),
    /// Opaque byte string.
    Bytes(Vec<u8>),
    /// Opaque caller address.
    Address(Vec<u8>),
    /// Absent optional.
    OptNone,
    /// Present optional.
    OptSome(Box<TypedValue>),
    /// Ordered list.
    List(Box<ValueList>),
    /// Record of positional fields.
    Tuple(Box<ValueList>),
    /// Variant: tag plus payload.
    Variant(u64, Box<TypedValue>),
}

/// A list of typed values (fields of a record, elements of a list).
#[derive(PartialEq, Eq, Debug)]
pub enum ValueList {
    Nil,
    Cons(TypedValue, Box<ValueList>),
}

/// The ghost model of a typed wire value.
#[verifier::ext_equal]
pub enum ValModel {
    Nat(Seq<u8>),
    Bool(bool),
    N8(u8),
    N16(u16),
    N32(u32),
    N64(u64),
    Text(Seq<u8>),
    Bytes(Seq<u8>),
    Address(Seq<u8>),
    OptNone,
    OptSome(Box<ValModel>),
    List(Seq<ValModel>),
    Tuple(Seq<ValModel>),
    Variant(u64, Box<ValModel>),
}

impl View for TypedValue {
    type V = ValModel;

    open spec fn view(&self) -> ValModel {
        view_value(self)
    }
}

/// The ghost model of a typed value.
pub open spec fn view_value(v: &TypedValue) -> ValModel
    decreases v,
{
    match v {
        TypedValue::Nat(n) => ValModel::Nat(n.bytes@),
        TypedValue::Bool(b) => ValModel::Bool(*b),
        TypedValue::N8(x) => ValModel::N8(*x),
        TypedValue::N16(x) => ValModel::N16(*x),
        TypedValue::N32(x) => ValModel::N32(*x),
        TypedValue::N64(x) => ValModel::N64(*x),
        TypedValue::Text(b) => ValModel::Text(b@),
        TypedValue::Bytes(b) => ValModel::Bytes(b@),
        TypedValue::Address(b) => ValModel::Address(b@),
        TypedValue::OptNone => ValModel::OptNone,
        TypedValue::OptSome(p) => ValModel::OptSome(Box::new(view_value(p))),
        TypedValue::List(vl) => ValModel::List(view_value_list(vl)),
        TypedValue::Tuple(vl) => ValModel::Tuple(view_value_list(vl)),
        TypedValue::Variant(tag, p) => ValModel::Variant(*tag, Box::new(view_value(p))),
    }
}

/// The ghost model of a list of typed values.
pub open spec fn view_value_list(vl: &ValueList) -> Seq<ValModel>
    decreases vl,
{
    match vl {
        ValueList::Nil => Seq::empty(),
        ValueList::Cons(h, t) => seq![view_value(h)] + view_value_list(t),
    }
}

/// Conformance of a model value to a shape. Length bounds make every
/// conforming value encodable: each length field fits its wire width.
pub open spec fn has_shape(v: ValModel, s: Shape) -> bool
    decreases s,
{
    match s {
        Shape::Nat => v matches ValModel::Nat(b) && canonical(b) && b.len()
            < 0x1_0000_0000_0000_0000,
        Shape::Bool => v matches ValModel::Bool(_),
        Shape::N8 => v matches ValModel::N8(_),
        Shape::N16 => v matches ValModel::N16(_),
        Shape::N32 => v matches ValModel::N32(_),
        Shape::N64 => v matches ValModel::N64(_),
        Shape::Text => v matches ValModel::Text(b) && b.len() < 0x1_0000_0000_0000_0000,
        Shape::Bytes => v matches ValModel::Bytes(b) && b.len() < 0x1_0000_0000_0000_0000,
        Shape::Address => v matches ValModel::Address(b) && b.len() <= 255,
        Shape::Opt(inner) => match v {
            ValModel::OptNone => true,
            ValModel::OptSome(p) => has_shape(*p, *inner),
            _ => false,
        },
        Shape::List(e) => v matches ValModel::List(vs) && vs.len() < 0x1_0000_0000_0000_0000
            && (forall|i: int| 0 <= i < vs.len() ==> has_shape(#[trigger] vs[i], *e)),
        Shape::Tuple(sl) => v matches ValModel::Tuple(vs) && fields_have_shape(vs, *sl),
        Shape::Variant(sl) => v matches ValModel::Variant(tag, p) && variant_has_shape(
            tag as int,
            *p,
            *sl,
        ),
    }
}

/// Conformance of a field sequence to a shape list, position by position.
pub open spec fn fields_have_shape(vs: Seq<ValModel>, sl: ShapeList) -> bool
    decreases sl,
{
    match sl {
        ShapeList::Nil => vs.len() == 0,
        ShapeList::Cons(h, t) => vs.len() > 0 && has_shape(vs[0], h) && fields_have_shape(
            vs.skip(1),
            *t,
        ),
    }
}

/// The empty value list.
pub fn nil() -> (r: ValueList)
    ensures
        view_value_list(&r) == Seq::<ValModel>::empty(),
{
    ValueList::Nil
}

/// Prepends one value to a value list.
pub fn cons(h: TypedValue, t: ValueList) -> (r: ValueList)
    ensures
        view_value_list(&r) == seq![h@] + view_value_list(&t),
{
    ValueList::Cons(h, Box::new(t))
}

/// A record value of no fields.
pub fn tuple0() -> (r: TypedValue)
    ensures
        r@ == ValModel::Tuple(Seq::<ValModel>::empty()),
{
    let vl = nil();
    let r = TypedValue::Tuple(Box::new(vl));
    proof {
        assert(r@->Tuple_0 =~= Seq::<ValModel>::empty());
    }
    r
}

/// A record value of one field.
pub fn tuple1(a: TypedValue) -> (r: TypedValue)
    ensures
        r@ == ValModel::Tuple(seq![a@]),
{
    let r = TypedValue::Tuple(Box::new(cons(a, nil())));
    proof {
        assert(r@->Tuple_0 =~= seq![a@]);
    }
    r
}

/// A record value of two fields.
pub fn tuple2(a: TypedValue, b: TypedValue) -> (r: TypedValue)
    ensures
        r@ == ValModel::Tuple(seq![a@, b@]),
{
    let ghost (va, vb) = (a@, b@);
    let r = TypedValue::Tuple(Box::new(cons(a, cons(b, nil()))));
    proof {
        assert(r@->Tuple_0 =~= seq![va, vb]);
    }
    r
}

/// A record value of three fields.
pub fn tuple3(a: TypedValue, b: TypedValue, c: TypedValue) -> (r: TypedValue)
    ensures
        r@ == ValModel::Tuple(seq![a@, b@, c@]),
{
    let ghost (va, vb, vc) = (a@, b@, c@);
    let r = TypedValue::Tuple(Box::new(cons(a, cons(b, cons(c, nil())))));
    proof {
        assert(r@->Tuple_0 =~= seq![va, vb, vc]);
    }
    r
}

/// A record value of four fields.
pub fn tuple4(a: TypedValue, b: TypedValue, c: TypedValue, d: TypedValue) -> (r: TypedValue)
    ensures
        r@ == ValModel::Tuple(seq![a@, b@, c@, d@]),
{
    let ghost (va, vb, vc, vd) = (a@, b@, c@, d@);
    let r = TypedValue::Tuple(Box::new(cons(a, cons(b, cons(c, cons(d, nil()))))));
    proof {
        assert(r@->Tuple_0 =~= seq![va, vb, vc, vd]);
    }
    r
}

/// A record value of five fields.
pub fn tuple5(a: TypedValue, b: TypedValue, c: TypedValue, d: TypedValue, e: TypedValue) -> (r:
    TypedValue)
    ensures
        r@ == ValModel::Tuple(seq![a@, b@, c@, d@, e@]),
{
    let ghost (va, vb, vc, vd, ve) = (a@, b@, c@, d@, e@);
    let r = TypedValue::Tuple(Box::new(cons(a, cons(b, cons(c, cons(d, cons(e, nil())))))));
    proof {
        assert(r@->Tuple_0 =~= seq![va, vb, vc, vd, ve]);
    }
    r
}

/// A record value of nine fields.
pub fn tuple9(
    a: TypedValue,
    b: TypedValue,
    c: TypedValue,
    d: TypedValue,
    e: TypedValue,
    f: TypedValue,
    g: TypedValue,
    h: TypedValue,
    i: TypedValue,
) -> (r: TypedValue)
    ensures
        r@ == ValModel::Tuple(seq![a@, b@, c@, d@, e@, f@, g@, h@, i@]),
{
    let ghost (va, vb, vc, vd, ve, vf, vg, vh, vi) = (a@, b@, c@, d@, e@, f@, g@, h@, i@);
    let r = TypedValue::Tuple(
        Box::new(
            cons(
                a,
                cons(b, cons(c, cons(d, cons(e, cons(f, cons(g, cons(h, cons(i, nil())))))))),
            ),
        ),
    );
    proof {
        assert(r@->Tuple_0 =~= seq![va, vb, vc, vd, ve, vf, vg, vh, vi]);
    }
    r
}

/// Splits a record value into its field list.
pub fn untuple(v: TypedValue) -> (r: Option<ValueList>)
    ensures
        r matches Some(vl) ==> v@ == ValModel::Tuple(view_value_list(&vl)),
        r is Some <==> v@ matches ValModel::Tuple(_),
{
    match v {
        TypedValue::Tuple(vl) => Some(*vl),
        _ => None,
    }
}

/// Splits a non-empty value list into head and tail.
pub fn uncons(vl: ValueList) -> (r: Option<(TypedValue, ValueList)>)
    ensures
        r matches Some((h, t)) ==> view_value_list(&vl) == seq![h@] + view_value_list(&t),
        r is Some <==> view_value_list(&vl).len() > 0,
{
    match vl {
        ValueList::Cons(h, t) => Some((h, *t)),
        ValueList::Nil => None,
    }
}

/// True of the empty value list.
pub fn is_nil(vl: &ValueList) -> (r: bool)
    ensures
        r == (view_value_list(vl).len() == 0),
{
    match vl {
        ValueList::Nil => true,
        ValueList::Cons(_, _) => false,
    }
}

/// Reads an arbitrary-precision integer value; refuses a non-canonical one.
pub fn unnat(v: TypedValue) -> (r: Option<BigNat>)
    ensures
        r matches Some(n) ==> n.wf() && v@ == ValModel::Nat(n.bytes@),
        r is Some <==> has_shape(v@, Shape::Nat),
{
    match v {
        TypedValue::Nat(n) => {
            if n.bytes.len() > 0 && n.bytes[0] == 0 {
                None
            } else {
                Some(n)
            }
        },
        _ => None,
    }
}

/// Reads a boolean value.
pub fn unbool(v: TypedValue) -> (r: Option<bool>)
    ensures
        r matches Some(x) ==> v@ == ValModel::Bool(x),
        r is Some <==> has_shape(v@, Shape::Bool),
{
    match v {
        TypedValue::Bool(x) => Some(x),
        _ => None,
    }
}

/// Reads an 8-bit value.
pub fn unu8(v: TypedValue) -> (r: Option<u8>)
    ensures
        r matches Some(x) ==> v@ == ValModel::N8(x),
        r is Some <==> has_shape(v@, Shape::N8),
{
    match v {
        TypedValue::N8(x) => Some(x),
        _ => None,
    }
}

/// Reads a 16-bit value.
pub fn unu16(v: TypedValue) -> (r: Option<u16>)
    ensures
        r matches Some(x) ==> v@ == ValModel::N16(x),
        r is Some <==> has_shape(v@, Shape::N16),
{
    match v {
        TypedValue::N16(x) => Some(x),
        _ => None,
    }
}

/// Reads a 32-bit value.
pub fn unu32(v: TypedValue) -> (r: Option<u32>)
    ensures
        r matches Some(x) ==> v@ == ValModel::N32(x),
        r is Some <==> has_shape(v@, Shape::N32),
{
    match v {
        TypedValue::N32(x) => Some(x),
        _ => None,
    }
}

/// Reads a 64-bit value.
pub fn unu64(v: TypedValue) -> (r: Option<u64>)
    ensures
        r matches Some(x) ==> v@ == ValModel::N64(x),
        r is Some <==> has_shape(v@, Shape::N64),
{
    match v {
        TypedValue::N64(x) => Some(x),
        _ => None,
    }
}

/// Reads a text value (its UTF-8 bytes).
pub fn untext(v: TypedValue) -> (r: Option<Vec<u8>>)
    ensures
        r matches Some(b) ==> v@ == ValModel::Text(b@),
        r is Some <==> has_shape(v@, Shape::Text),
{
    match v {
        TypedValue::Text(b) => {
            let _len: usize = b.len();
            Some(b)
        },
        _ => None,
    }
}

/// Reads a byte-string value.
pub fn unbytes(v: TypedValue) -> (r: Option<Vec<u8>>)
    ensures
        r matches Some(b) ==> v@ == ValModel::Bytes(b@),
        r is Some <==> has_shape(v@, Shape::Bytes),
{
    match v {
        TypedValue::Bytes(b) => {
            let _len: usize = b.len();
            Some(b)
        },
        _ => None,
    }
}

/// Reads a caller-address value; refuses an overlong one.
pub fn unaddress(v: TypedValue) -> (r: Option<Vec<u8>>)
    ensures
        r matches Some(b) ==> v@ == ValModel::Address(b@) && b@.len() <= 255,
        r is Some <==> has_shape(v@, Shape::Address),
{
    match v {
        TypedValue::Address(b) => {
            if b.len() > 255 {
                None
            } else {
                Some(b)
            }
        },
        _ => None,
    }
}

/// Strips one optional layer.
pub fn unopt(v: TypedValue) -> (r: Option<Option<TypedValue>>)
    ensures
        r matches Some(inner) ==> match inner {
            Option::None => v@ == ValModel::OptNone,
            Option::Some(p) => v@ == ValModel::OptSome(Box::new(p@)),
        },
        r is Some <==> (v@ matches ValModel::OptNone || v@ matches ValModel::OptSome(_)),
{
    match v {
        TypedValue::OptNone => Some(None),
        TypedValue::OptSome(p) => Some(Some(*p)),
        _ => None,
    }
}

/// Reads a list value as its element list.
pub fn unlist(v: TypedValue) -> (r: Option<ValueList>)
    ensures
        r matches Some(vl) ==> v@ == ValModel::List(view_value_list(&vl)),
        r is Some <==> v@ matches ValModel::List(_),
{
    match v {
        TypedValue::List(vl) => Some(*vl),
        _ => None,
    }
}

/// Reads a variant value as its tag and payload.
pub fn unvariant(v: TypedValue) -> (r: Option<(u64, TypedValue)>)
    ensures
        r matches Some((tag, p)) ==> v@ == ValModel::Variant(tag, Box::new(p@)),
        r is Some <==> v@ matches ValModel::Variant(_, _),
{
    match v {
        TypedValue::Variant(tag, p) => Some((tag, *p)),
        _ => None,
    }
}

/// Unfolding: no fields conform exactly to the empty shape list.
pub proof fn lemma_fields_nil(vs: Seq<ValModel>)
    ensures
        fields_have_shape(vs, ShapeList::Nil) <==> vs.len() == 0,
{
}

/// Unfolding: a non-empty shape list asks for a conforming head field and a
/// conforming rest.
pub proof fn lemma_fields_cons(vs: Seq<ValModel>, h: Shape, t: ShapeList)
    ensures
        fields_have_shape(vs, ShapeList::Cons(h, Box::new(t))) <==> (vs.len() > 0 && has_shape(
            vs[0],
            h,
        ) && fields_have_shape(vs.skip(1), t)),
{
}

/// Unfolding: an optional conforms when absent, or when present with a
/// conforming payload.
pub proof fn lemma_has_shape_opt(v: ValModel, inner: Shape)
    ensures
        has_shape(v, Shape::Opt(Box::new(inner))) <==> (v matches ValModel::OptNone || (v
            matches ValModel::OptSome(p) && has_shape(*p, inner))),
{
}

/// Conformance of a variant payload: the tag selects a shape in the list.
pub open spec fn variant_has_shape(tag: int, payload: ValModel, sl: ShapeList) -> bool
    decreases sl,
{
    match sl {
        ShapeList::Nil => false,
        ShapeList::Cons(h, t) => if tag == 0 {
            has_shape(payload, h)
        } else {
            variant_has_shape(tag - 1, payload, *t)
        },
    }
}

} // verus!
