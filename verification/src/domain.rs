//! The domain records and event kinds of the remote ledger's catalog, with
//! their shapes and their conversions to and from typed wire values.
//!
//! Every record type gives its `shape()`, its ghost model `as_model()`, a
//! `to_value` building the well-typed wire value, and a `from_value` that
//! accepts exactly the values conforming to the shape.

use vstd::prelude::*;
use crate::bignat::BigNat;
use crate::shape::{Shape, ShapeList, sl1, sl2, sl3, sl4, sl5, sl9, spec_sl1, spec_sl2, spec_sl3, spec_sl4, spec_sl5, spec_sl6, spec_sl7, spec_sl8, spec_sl9};
use crate::value::{
    TypedValue,
    ValueList,
    ValModel,
    view_value,
    view_value_list,
    has_shape,
    fields_have_shape,
    variant_has_shape,
    nil,
    cons,
    tuple1,
    tuple2,
    tuple3,
    tuple4,
    tuple5,
    tuple9,
    untuple,
    uncons,
    is_nil,
    unnat,
    unbool,
    unu8,
    unu16,
    unu32,
    unu64,
    untext,
    unbytes,
    unaddress,
    unopt,
    unlist,
    unvariant,
    lemma_fields_nil,
    lemma_fields_cons,
    lemma_has_shape_opt,
};

verus! {

/// A ledger-side contract identifier.
pub type ContractId = BigNat;

/// A supply identifier.
pub type SupplyId = BigNat;

/// A 256-bit-class amount; arbitrary precision on this side of the wire.
pub type U256 = BigNat;

/// The composite asset identifier derived from an asset and its ledger.
pub type UniqueAssetId = BigNat;

/// An account identifier.
pub type AccountId = BigNat;

/// An amendment identifier.
pub type AmendmentId = BigNat;

/// An asset identifier.
pub type AssetId = BigNat;

/// A transaction identifier.
pub type TxId = BigNat;

/// A content hash carried as one big integer.
pub type Hash = BigNat;

/// A fixed-width ledger identifier.
pub type LedgerId = u16;

/// An opaque caller address: at most 255 bytes of address material.
pub struct CallerAddress {
    pub bytes: Vec<u8>,
}

impl CallerAddress {
    /// Well-formed: fits the wire's one-byte address length.
    pub open spec fn wf(&self) -> bool {
        self.bytes@.len() <= 255
    }

    /// An address from its raw bytes, which must fit the wire width.
    pub fn new(bytes: Vec<u8>) -> (r: Option<CallerAddress>)
        ensures
            r matches Some(a) ==> a.wf() && a.bytes@ == bytes@,
            r is Some <==> bytes@.len() <= 255,
    {
        if bytes.len() <= 255 {
            Some(CallerAddress { bytes })
        } else {
            None
        }
    }
}

impl CallerAddress {
    /// An exact copy of this address.
    pub fn duplicate(&self) -> (r: CallerAddress)
        ensures
            r.bytes@ == self.bytes@,
            r.wf() == self.wf(),
    {
        let mut bytes: Vec<u8> = Vec::new();
        let mut k: usize = 0;
        while k < self.bytes.len()
            invariant
                k <= self.bytes@.len(),
                bytes@ =~= self.bytes@.subrange(0, k as int),
            decreases self.bytes@.len() - k,
        {
            bytes.push(self.bytes[k]);
            k = k + 1;
        }
        proof {
            assert(bytes@ =~= self.bytes@);
        }
        CallerAddress { bytes }
    }
}

/// The model of an address field.
pub open spec fn addr_m(a: CallerAddress) -> ValModel {
    ValModel::Address(a.bytes@)
}

/// The model of an arbitrary-precision integer field.
pub open spec fn nat_m(n: BigNat) -> ValModel {
    ValModel::Nat(n.bytes@)
}

/// The model of an optional integer field.
pub open spec fn opt_nat_m(o: Option<BigNat>) -> ValModel {
    match o {
        Option::None => ValModel::OptNone,
        Option::Some(n) => ValModel::OptSome(Box::new(nat_m(n))),
    }
}

/// The model of an optional address field.
pub open spec fn opt_addr_m(o: Option<CallerAddress>) -> ValModel {
    match o {
        Option::None => ValModel::OptNone,
        Option::Some(a) => ValModel::OptSome(Box::new(addr_m(a))),
    }
}

/// An optional-integer wire value.
pub fn opt_nat_value(o: Option<BigNat>) -> (r: TypedValue)
    ensures
        r@ == opt_nat_m(o),
{
    proof {
        reveal_with_fuel(view_value, 3);
    }
    match o {
        Option::None => TypedValue::OptNone,
        Option::Some(n) => TypedValue::OptSome(Box::new(TypedValue::Nat(n))),
    }
}

/// An optional-address wire value.
pub fn opt_addr_value(o: Option<CallerAddress>) -> (r: TypedValue)
    ensures
        r@ == opt_addr_m(o),
{
    proof {
        reveal_with_fuel(view_value, 3);
    }
    match o {
        Option::None => TypedValue::OptNone,
        Option::Some(a) => TypedValue::OptSome(Box::new(TypedValue::Address(a.bytes))),
    }
}

/// Reads one integer field off the front of a field list.
pub fn field_nat(vl: ValueList) -> (r: Option<(BigNat, ValueList)>)
    ensures
        r matches Some((n, t)) ==> n.wf() && view_value_list(&vl) == seq![nat_m(n)]
            + view_value_list(&t),
        r is Some <==> (view_value_list(&vl).len() > 0 && has_shape(
            view_value_list(&vl)[0],
            Shape::Nat,
        )),
{
    match uncons(vl) {
        Option::None => None,
        Option::Some((h, t)) => match unnat(h) {
            Option::None => None,
            Option::Some(n) => Some((n, t)),
        },
    }
}

/// Reads one boolean field off the front of a field list.
pub fn field_bool(vl: ValueList) -> (r: Option<(bool, ValueList)>)
    ensures
        r matches Some((x, t)) ==> view_value_list(&vl) == seq![ValModel::Bool(x)]
            + view_value_list(&t),
        r is Some <==> (view_value_list(&vl).len() > 0 && has_shape(
            view_value_list(&vl)[0],
            Shape::Bool,
        )),
{
    match uncons(vl) {
        Option::None => None,
        Option::Some((h, t)) => match unbool(h) {
            Option::None => None,
            Option::Some(x) => Some((x, t)),
        },
    }
}

/// Reads one 8-bit field off the front of a field list.
pub fn field_u8(vl: ValueList) -> (r: Option<(u8, ValueList)>)
    ensures
        r matches Some((x, t)) ==> view_value_list(&vl) == seq![ValModel::N8(x)]
            + view_value_list(&t),
        r is Some <==> (view_value_list(&vl).len() > 0 && has_shape(
            view_value_list(&vl)[0],
            Shape::N8,
        )),
{
    match uncons(vl) {
        Option::None => None,
        Option::Some((h, t)) => match unu8(h) {
            Option::None => None,
            Option::Some(x) => Some((x, t)),
        },
    }
}

/// Reads one 16-bit field off the front of a field list.
pub fn field_u16(vl: ValueList) -> (r: Option<(u16, ValueList)>)
    ensures
        r matches Some((x, t)) ==> view_value_list(&vl) == seq![ValModel::N16(x)]
            + view_value_list(&t),
        r is Some <==> (view_value_list(&vl).len() > 0 && has_shape(
            view_value_list(&vl)[0],
            Shape::N16,
        )),
{
    match uncons(vl) {
        Option::None => None,
        Option::Some((h, t)) => match unu16(h) {
            Option::None => None,
            Option::Some(x) => Some((x, t)),
        },
    }
}

/// Reads one 32-bit field off the front of a field list.
pub fn field_u32(vl: ValueList) -> (r: Option<(u32, ValueList)>)
    ensures
        r matches Some((x, t)) ==> view_value_list(&vl) == seq![ValModel::N32(x)]
            + view_value_list(&t),
        r is Some <==> (view_value_list(&vl).len() > 0 && has_shape(
            view_value_list(&vl)[0],
            Shape::N32,
        )),
{
    match uncons(vl) {
        Option::None => None,
        Option::Some((h, t)) => match unu32(h) {
            Option::None => None,
            Option::Some(x) => Some((x, t)),
        },
    }
}

/// Reads one 64-bit field off the front of a field list.
pub fn field_u64(vl: ValueList) -> (r: Option<(u64, ValueList)>)
    ensures
        r matches Some((x, t)) ==> view_value_list(&vl) == seq![ValModel::N64(x)]
            + view_value_list(&t),
        r is Some <==> (view_value_list(&vl).len() > 0 && has_shape(
            view_value_list(&vl)[0],
            Shape::N64,
        )),
{
    match uncons(vl) {
        Option::None => None,
        Option::Some((h, t)) => match unu64(h) {
            Option::None => None,
            Option::Some(x) => Some((x, t)),
        },
    }
}

/// Reads one byte-string field off the front of a field list.
pub fn field_bytes(vl: ValueList) -> (r: Option<(Vec<u8>, ValueList)>)
    ensures
        r matches Some((b, t)) ==> view_value_list(&vl) == seq![ValModel::Bytes(b@)]
            + view_value_list(&t),
        r is Some <==> (view_value_list(&vl).len() > 0 && has_shape(
            view_value_list(&vl)[0],
            Shape::Bytes,
        )),
{
    match uncons(vl) {
        Option::None => None,
        Option::Some((h, t)) => match unbytes(h) {
            Option::None => None,
            Option::Some(b) => Some((b, t)),
        },
    }
}

/// Reads one address field off the front of a field list.
pub fn field_addr(vl: ValueList) -> (r: Option<(CallerAddress, ValueList)>)
    ensures
        r matches Some((a, t)) ==> a.wf() && view_value_list(&vl) == seq![addr_m(a)]
            + view_value_list(&t),
        r is Some <==> (view_value_list(&vl).len() > 0 && has_shape(
            view_value_list(&vl)[0],
            Shape::Address,
        )),
{
    match uncons(vl) {
        Option::None => None,
        Option::Some((h, t)) => match unaddress(h) {
            Option::None => None,
            Option::Some(b) => Some((CallerAddress { bytes: b }, t)),
        },
    }
}

/// Reads one optional-integer field off the front of a field list.
pub fn field_opt_nat(vl: ValueList) -> (r: Option<(Option<BigNat>, ValueList)>)
    ensures
        r matches Some((o, t)) ==> view_value_list(&vl) == seq![opt_nat_m(o)] + view_value_list(&t)
            && (o matches Some(n) ==> n.wf()),
        r is Some <==> (view_value_list(&vl).len() > 0 && has_shape(
            view_value_list(&vl)[0],
            Shape::Opt(Box::new(Shape::Nat)),
        )),
{
    match uncons(vl) {
        Option::None => None,
        Option::Some((h, t)) => match unopt(h) {
            Option::None => None,
            Option::Some(inner) => match inner {
                Option::None => Some((None, t)),
                Option::Some(p) => match unnat(p) {
                    Option::None => None,
                    Option::Some(n) => Some((Some(n), t)),
                },
            },
        },
    }
}

/// Reads one optional-address field off the front of a field list.
pub fn field_opt_addr(vl: ValueList) -> (r: Option<(Option<CallerAddress>, ValueList)>)
    ensures
        r matches Some((o, t)) ==> view_value_list(&vl) == seq![opt_addr_m(o)] + view_value_list(
            &t,
        ) && (o matches Some(a) ==> a.wf()),
        r is Some <==> (view_value_list(&vl).len() > 0 && has_shape(
            view_value_list(&vl)[0],
            Shape::Opt(Box::new(Shape::Address)),
        )),
{
    match uncons(vl) {
        Option::None => None,
        Option::Some((h, t)) => match unopt(h) {
            Option::None => None,
            Option::Some(inner) => match inner {
                Option::None => Some((None, t)),
                Option::Some(p) => match unaddress(p) {
                    Option::None => None,
                    Option::Some(b) => Some((Some(CallerAddress { bytes: b }), t)),
                },
            },
        },
    }
}

/// The shape list of `n` unit variants (each an empty record).
pub open spec fn spec_unit_variants(n: nat) -> ShapeList
    decreases n,
{
    if n == 0 {
        ShapeList::Nil
    } else {
        ShapeList::Cons(
            Shape::Tuple(Box::new(ShapeList::Nil)),
            Box::new(spec_unit_variants((n - 1) as nat)),
        )
    }
}

/// Builds the shape list of `n` unit variants.
pub fn unit_variants(n: u64) -> (r: ShapeList)
    ensures
        r == spec_unit_variants(n as nat),
    decreases n,
{
    if n == 0 {
        ShapeList::Nil
    } else {
        ShapeList::Cons(Shape::Tuple(Box::new(ShapeList::Nil)), Box::new(unit_variants(n - 1)))
    }
}

/// The model of a unit variant: a tag with an empty record payload.
pub open spec fn unit_variant_m(tag: u64) -> ValModel {
    ValModel::Variant(tag, Box::new(ValModel::Tuple(Seq::empty())))
}

/// A payload conforms under a unit-variant list exactly when the tag is in
/// range and the payload is the empty record.
pub proof fn lemma_unit_variants(n: nat, tag: int, p: ValModel)
    ensures
        variant_has_shape(tag, p, spec_unit_variants(n)) <==> (0 <= tag < n && (p
            matches ValModel::Tuple(vs) && vs.len() == 0)),
    decreases n,
{
    if n > 0 {
        let sl = spec_unit_variants(n);
        assert(sl == ShapeList::Cons(
            Shape::Tuple(Box::new(ShapeList::Nil)),
            Box::new(spec_unit_variants((n - 1) as nat)),
        ));
        if tag == 0 {
            assert(variant_has_shape(tag, p, sl) == has_shape(
                p,
                Shape::Tuple(Box::new(ShapeList::Nil)),
            ));
            match p {
                ValModel::Tuple(vs) => lemma_fields_nil(vs),
                _ => {},
            }
        } else {
            lemma_unit_variants((n - 1) as nat, tag - 1, p);
            assert(variant_has_shape(tag, p, sl) == variant_has_shape(
                tag - 1,
                p,
                spec_unit_variants((n - 1) as nat),
            ));
        }
    }
}

/// A unit-variant wire value.
pub fn unit_variant_value(tag: u64) -> (r: TypedValue)
    ensures
        r@ == unit_variant_m(tag),
{
    let r = TypedValue::Variant(tag, Box::new(TypedValue::Tuple(Box::new(ValueList::Nil))));
    proof {
        reveal_with_fuel(view_value, 3);
        reveal_with_fuel(view_value_list, 2);
        assert(r@->Variant_1->Tuple_0 =~= Seq::<ValModel>::empty());
    }
    r
}

/// Reads a unit variant with a tag below `n`.
pub fn un_unit_variant(v: TypedValue, n: u64) -> (r: Option<u64>)
    ensures
        r matches Some(tag) ==> tag < n && v@ == unit_variant_m(tag),
        r is Some <==> (v@ matches ValModel::Variant(tag, p) && variant_has_shape(
            tag as int,
            *p,
            spec_unit_variants(n as nat),
        )),
{
    proof {
        match v@ {
            ValModel::Variant(vtag, vp) => lemma_unit_variants(n as nat, vtag as int, *vp),
            _ => {},
        }
    }
    match unvariant(v) {
        Option::None => None,
        Option::Some((tag, p)) => {
            if tag >= n {
                return None;
            }
            match untuple(p) {
                Option::None => None,
                Option::Some(fields) => {
                    if is_nil(&fields) {
                        proof {
                            assert(view_value_list(&fields) =~= Seq::<ValModel>::empty());
                        }
                        Some(tag)
                    } else {
                        None
                    }
                },
            }
        },
    }
}


/// Well-formedness of an optional integer field.
pub open spec fn opt_nat_wf(o: &Option<BigNat>) -> bool {
    match o {
        Option::None => true,
        Option::Some(n) => n.wf(),
    }
}

/// Well-formedness of an optional address field.
pub open spec fn opt_addr_wf(o: &Option<CallerAddress>) -> bool {
    match o {
        Option::None => true,
        Option::Some(a) => a.wf(),
    }
}

/// The model of an optional byte-string field.
pub open spec fn opt_bytes_m(o: Option<Vec<u8>>) -> ValModel {
    match o {
        Option::None => ValModel::OptNone,
        Option::Some(b) => ValModel::OptSome(Box::new(ValModel::Bytes(b@))),
    }
}

/// The model of an optional 64-bit field.
pub open spec fn opt_u64_m(o: Option<u64>) -> ValModel {
    match o {
        Option::None => ValModel::OptNone,
        Option::Some(x) => ValModel::OptSome(Box::new(ValModel::N64(x))),
    }
}

/// The model of an optional 16-bit field.
pub open spec fn opt_u16_m(o: Option<u16>) -> ValModel {
    match o {
        Option::None => ValModel::OptNone,
        Option::Some(x) => ValModel::OptSome(Box::new(ValModel::N16(x))),
    }
}

/// An optional-byte-string wire value.
pub fn opt_bytes_value(o: Option<Vec<u8>>) -> (r: TypedValue)
    ensures
        r@ == opt_bytes_m(o),
{
    proof {
        reveal_with_fuel(view_value, 3);
    }
    match o {
        Option::None => TypedValue::OptNone,
        Option::Some(b) => TypedValue::OptSome(Box::new(TypedValue::Bytes(b))),
    }
}

/// An optional-64-bit wire value.
pub fn opt_u64_value(o: Option<u64>) -> (r: TypedValue)
    ensures
        r@ == opt_u64_m(o),
{
    proof {
        reveal_with_fuel(view_value, 3);
    }
    match o {
        Option::None => TypedValue::OptNone,
        Option::Some(x) => TypedValue::OptSome(Box::new(TypedValue::N64(x))),
    }
}

/// An optional-16-bit wire value.
pub fn opt_u16_value(o: Option<u16>) -> (r: TypedValue)
    ensures
        r@ == opt_u16_m(o),
{
    proof {
        reveal_with_fuel(view_value, 3);
    }
    match o {
        Option::None => TypedValue::OptNone,
        Option::Some(x) => TypedValue::OptSome(Box::new(TypedValue::N16(x))),
    }
}

/// Reads one optional-byte-string field off the front of a field list.
pub fn field_opt_bytes(vl: ValueList) -> (r: Option<(Option<Vec<u8>>, ValueList)>)
    ensures
        r matches Some((o, t)) ==> view_value_list(&vl) == seq![opt_bytes_m(o)] + view_value_list(
            &t,
        ),
        r is Some <==> (view_value_list(&vl).len() > 0 && has_shape(
            view_value_list(&vl)[0],
            Shape::Opt(Box::new(Shape::Bytes)),
        )),
{
    match uncons(vl) {
        Option::None => None,
        Option::Some((h, t)) => match unopt(h) {
            Option::None => None,
            Option::Some(inner) => match inner {
                Option::None => Some((None, t)),
                Option::Some(p) => match unbytes(p) {
                    Option::None => None,
                    Option::Some(b) => Some((Some(b), t)),
                },
            },
        },
    }
}

/// Reads one optional-64-bit field off the front of a field list.
pub fn field_opt_u64(vl: ValueList) -> (r: Option<(Option<u64>, ValueList)>)
    ensures
        r matches Some((o, t)) ==> view_value_list(&vl) == seq![opt_u64_m(o)] + view_value_list(
            &t,
        ),
        r is Some <==> (view_value_list(&vl).len() > 0 && has_shape(
            view_value_list(&vl)[0],
            Shape::Opt(Box::new(Shape::N64)),
        )),
{
    match uncons(vl) {
        Option::None => None,
        Option::Some((h, t)) => match unopt(h) {
            Option::None => None,
            Option::Some(inner) => match inner {
                Option::None => Some((None, t)),
                Option::Some(p) => match unu64(p) {
                    Option::None => None,
                    Option::Some(x) => Some((Some(x), t)),
                },
            },
        },
    }
}

/// Reads one optional-16-bit field off the front of a field list.
pub fn field_opt_u16(vl: ValueList) -> (r: Option<(Option<u16>, ValueList)>)
    ensures
        r matches Some((o, t)) ==> view_value_list(&vl) == seq![opt_u16_m(o)] + view_value_list(
            &t,
        ),
        r is Some <==> (view_value_list(&vl).len() > 0 && has_shape(
            view_value_list(&vl)[0],
            Shape::Opt(Box::new(Shape::N16)),
        )),
{
    match uncons(vl) {
        Option::None => None,
        Option::Some((h, t)) => match unopt(h) {
            Option::None => None,
            Option::Some(inner) => match inner {
                Option::None => Some((None, t)),
                Option::Some(p) => match unu16(p) {
                    Option::None => None,
                    Option::Some(x) => Some((Some(x), t)),
                },
            },
        },
    }
}

/// Reads one unit-variant field (a tag below `n`) off the front of a field
/// list.
pub fn field_unit_variant(vl: ValueList, n: u64) -> (r: Option<(u64, ValueList)>)
    ensures
        r matches Some((tag, t)) ==> tag < n && view_value_list(&vl) == seq![unit_variant_m(tag)]
            + view_value_list(&t),
        r is Some <==> (view_value_list(&vl).len() > 0 && has_shape(
            view_value_list(&vl)[0],
            Shape::Variant(Box::new(spec_unit_variants(n as nat))),
        )),
{
    match uncons(vl) {
        Option::None => None,
        Option::Some((h, t)) => match un_unit_variant(h, n) {
            Option::None => None,
            Option::Some(tag) => Some((tag, t)),
        },
    }
}

/// An event kind of the remote catalog, carried as a unit variant.
#[derive(Clone, Copy, PartialEq, Eq, Debug)]
pub enum AssetUpdateCode {
    DestroyTokensSuccess,
    SetAssetControllerSuccess,
    SetAssetIssuerSuccess,
    AssetCreationSuccess,
    IssueTokensSucesss,
    AmendmentCreationSuccess,
    AssetActivationSuccess,
    AssetCreationActivationSuccess,
}

impl AssetUpdateCode {
    /// The wire tag of this variant, by declaration order.
    pub open spec fn spec_tag(self) -> u64 {
        match self {
            AssetUpdateCode::DestroyTokensSuccess => 0,
            AssetUpdateCode::SetAssetControllerSuccess => 1,
            AssetUpdateCode::SetAssetIssuerSuccess => 2,
            AssetUpdateCode::AssetCreationSuccess => 3,
            AssetUpdateCode::IssueTokensSucesss => 4,
            AssetUpdateCode::AmendmentCreationSuccess => 5,
            AssetUpdateCode::AssetActivationSuccess => 6,
            AssetUpdateCode::AssetCreationActivationSuccess => 7,
        }
    }

    /// The wire shape: a variant of 8 empty payloads.
    pub open spec fn shape() -> Shape {
        Shape::Variant(Box::new(spec_unit_variants(8)))
    }

    /// The ghost model of this value.
    pub open spec fn as_model(self) -> ValModel {
        unit_variant_m(self.spec_tag())
    }

    /// The wire tag of this variant.
    pub fn tag(self) -> (r: u64)
        ensures
            r == self.spec_tag(),
    {
        match self {
            AssetUpdateCode::DestroyTokensSuccess => 0,
            AssetUpdateCode::SetAssetControllerSuccess => 1,
            AssetUpdateCode::SetAssetIssuerSuccess => 2,
            AssetUpdateCode::AssetCreationSuccess => 3,
            AssetUpdateCode::IssueTokensSucesss => 4,
            AssetUpdateCode::AmendmentCreationSuccess => 5,
            AssetUpdateCode::AssetActivationSuccess => 6,
            AssetUpdateCode::AssetCreationActivationSuccess => 7,
        }
    }

    /// The variant with the given wire tag.
    pub fn from_tag(tag: u64) -> (r: Option<AssetUpdateCode>)
        ensures
            r matches Some(e) ==> e.spec_tag() == tag,
            r is Some <==> tag < 8,
    {
        if tag == 0 {
            Some(AssetUpdateCode::DestroyTokensSuccess)
        } else if tag == 1 {
            Some(AssetUpdateCode::SetAssetControllerSuccess)
        } else if tag == 2 {
            Some(AssetUpdateCode::SetAssetIssuerSuccess)
        } else if tag == 3 {
            Some(AssetUpdateCode::AssetCreationSuccess)
        } else if tag == 4 {
            Some(AssetUpdateCode::IssueTokensSucesss)
        } else if tag == 5 {
            Some(AssetUpdateCode::AmendmentCreationSuccess)
        } else if tag == 6 {
            Some(AssetUpdateCode::AssetActivationSuccess)
        } else if tag == 7 {
            Some(AssetUpdateCode::AssetCreationActivationSuccess)
        } else {
            None
        }
    }

    /// Every value of this type conforms to the wire shape.
    pub proof fn lemma_shape(self)
        ensures
            has_shape(self.as_model(), Self::shape()),
    {
        lemma_unit_variants(8, self.spec_tag() as int, ValModel::Tuple(Seq::empty()));
    }

    /// The wire value of this variant.
    pub fn to_value(self) -> (r: TypedValue)
        ensures
            r@ == self.as_model(),
            has_shape(r@, Self::shape()),
    {
        proof {
            self.lemma_shape();
        }
        unit_variant_value(self.tag())
    }
}


/// An event kind of the remote catalog, carried as a unit variant.
#[derive(Clone, Copy, PartialEq, Eq, Debug)]
pub enum SupplyUpdateCode {
    NewSupplyCreated,
    SupplyTerminated,
    UpdateSupplyControllerWithNonEmptyController,
    UpdateSupplyRemoveController,
    SupplyConsumed,
    UpdateSupplyExpiryDate,
    RemainingAmountChangedToANewValueUpdateSupplyAmount,
    SupplyTerminatedByUpdateSupplyExchangeRateThisIsTheOldSupply,
    NewSupplyCreatedByUpdateSupplyExchangeRateThisIsTheNewSupply,
}

impl SupplyUpdateCode {
    /// The wire tag of this variant, by declaration order.
    pub open spec fn spec_tag(self) -> u64 {
        match self {
            SupplyUpdateCode::NewSupplyCreated => 0,
            SupplyUpdateCode::SupplyTerminated => 1,
            SupplyUpdateCode::UpdateSupplyControllerWithNonEmptyController => 2,
            SupplyUpdateCode::UpdateSupplyRemoveController => 3,
            SupplyUpdateCode::SupplyConsumed => 4,
            SupplyUpdateCode::UpdateSupplyExpiryDate => 5,
            SupplyUpdateCode::RemainingAmountChangedToANewValueUpdateSupplyAmount => 6,
            SupplyUpdateCode::SupplyTerminatedByUpdateSupplyExchangeRateThisIsTheOldSupply => 7,
            SupplyUpdateCode::NewSupplyCreatedByUpdateSupplyExchangeRateThisIsTheNewSupply => 8,
        }
    }

    /// The wire shape: a variant of 9 empty payloads.
    pub open spec fn shape() -> Shape {
        Shape::Variant(Box::new(spec_unit_variants(9)))
    }

    /// The ghost model of this value.
    pub open spec fn as_model(self) -> ValModel {
        unit_variant_m(self.spec_tag())
    }

    /// The wire tag of this variant.
    pub fn tag(self) -> (r: u64)
        ensures
            r == self.spec_tag(),
    {
        match self {
            SupplyUpdateCode::NewSupplyCreated => 0,
            SupplyUpdateCode::SupplyTerminated => 1,
            SupplyUpdateCode::UpdateSupplyControllerWithNonEmptyController => 2,
            SupplyUpdateCode::UpdateSupplyRemoveController => 3,
            SupplyUpdateCode::SupplyConsumed => 4,
            SupplyUpdateCode::UpdateSupplyExpiryDate => 5,
            SupplyUpdateCode::RemainingAmountChangedToANewValueUpdateSupplyAmount => 6,
            SupplyUpdateCode::SupplyTerminatedByUpdateSupplyExchangeRateThisIsTheOldSupply => 7,
            SupplyUpdateCode::NewSupplyCreatedByUpdateSupplyExchangeRateThisIsTheNewSupply => 8,
        }
    }

    /// The variant with the given wire tag.
    pub fn from_tag(tag: u64) -> (r: Option<SupplyUpdateCode>)
        ensures
            r matches Some(e) ==> e.spec_tag() == tag,
            r is Some <==> tag < 9,
    {
        if tag == 0 {
            Some(SupplyUpdateCode::NewSupplyCreated)
        } else if tag == 1 {
            Some(SupplyUpdateCode::SupplyTerminated)
        } else if tag == 2 {
            Some(SupplyUpdateCode::UpdateSupplyControllerWithNonEmptyController)
        } else if tag == 3 {
            Some(SupplyUpdateCode::UpdateSupplyRemoveController)
        } else if tag == 4 {
            Some(SupplyUpdateCode::SupplyConsumed)
        } else if tag == 5 {
            Some(SupplyUpdateCode::UpdateSupplyExpiryDate)
        } else if tag == 6 {
            Some(SupplyUpdateCode::RemainingAmountChangedToANewValueUpdateSupplyAmount)
        } else if tag == 7 {
            Some(SupplyUpdateCode::SupplyTerminatedByUpdateSupplyExchangeRateThisIsTheOldSupply)
        } else if tag == 8 {
            Some(SupplyUpdateCode::NewSupplyCreatedByUpdateSupplyExchangeRateThisIsTheNewSupply)
        } else {
            None
        }
    }

    /// Every value of this type conforms to the wire shape.
    pub proof fn lemma_shape(self)
        ensures
            has_shape(self.as_model(), Self::shape()),
    {
        lemma_unit_variants(9, self.spec_tag() as int, ValModel::Tuple(Seq::empty()));
    }

    /// The wire value of this variant.
    pub fn to_value(self) -> (r: TypedValue)
        ensures
            r@ == self.as_model(),
            has_shape(r@, Self::shape()),
    {
        proof {
            self.lemma_shape();
        }
        unit_variant_value(self.tag())
    }
}


/// An event kind of the remote catalog, carried as a unit variant.
#[derive(Clone, Copy, PartialEq, Eq, Debug)]
pub enum EventType {
    AssetUpdate,
    AdministratorChanged,
    AmendmentUpdate,
    SupplyUpdate,
    PauseChanged,
    LedgerAdded,
    LimitChanged,
    TokensCreated,
    ControllerCreated,
    LimitConsumed,
    TokensDestroyed,
    PricingChanged,
    AccountUpdate,
    OwnershipTransferred,
    BlacklistChanged,
}

impl EventType {
    /// The wire tag of this variant, by declaration order.
    pub open spec fn spec_tag(self) -> u64 {
        match self {
            EventType::AssetUpdate => 0,
            EventType::AdministratorChanged => 1,
            EventType::AmendmentUpdate => 2,
            EventType::SupplyUpdate => 3,
            EventType::PauseChanged => 4,
            EventType::LedgerAdded => 5,
            EventType::LimitChanged => 6,
            EventType::TokensCreated => 7,
            EventType::ControllerCreated => 8,
            EventType::LimitConsumed => 9,
            EventType::TokensDestroyed => 10,
            EventType::PricingChanged => 11,
            EventType::AccountUpdate => 12,
            EventType::OwnershipTransferred => 13,
            EventType::BlacklistChanged => 14,
        }
    }

    /// The wire shape: a variant of 15 empty payloads.
    pub open spec fn shape() -> Shape {
        Shape::Variant(Box::new(spec_unit_variants(15)))
    }

    /// The ghost model of this value.
    pub open spec fn as_model(self) -> ValModel {
        unit_variant_m(self.spec_tag())
    }

    /// The wire tag of this variant.
    pub fn tag(self) -> (r: u64)
        ensures
            r == self.spec_tag(),
    {
        match self {
            EventType::AssetUpdate => 0,
            EventType::AdministratorChanged => 1,
            EventType::AmendmentUpdate => 2,
            EventType::SupplyUpdate => 3,
            EventType::PauseChanged => 4,
            EventType::LedgerAdded => 5,
            EventType::LimitChanged => 6,
            EventType::TokensCreated => 7,
            EventType::ControllerCreated => 8,
            EventType::LimitConsumed => 9,
            EventType::TokensDestroyed => 10,
            EventType::PricingChanged => 11,
            EventType::AccountUpdate => 12,
            EventType::OwnershipTransferred => 13,
            EventType::BlacklistChanged => 14,
        }
    }

    /// The variant with the given wire tag.
    pub fn from_tag(tag: u64) -> (r: Option<EventType>)
        ensures
            r matches Some(e) ==> e.spec_tag() == tag,
            r is Some <==> tag < 15,
    {
        if tag == 0 {
            Some(EventType::AssetUpdate)
        } else if tag == 1 {
            Some(EventType::AdministratorChanged)
        } else if tag == 2 {
            Some(EventType::AmendmentUpdate)
        } else if tag == 3 {
            Some(EventType::SupplyUpdate)
        } else if tag == 4 {
            Some(EventType::PauseChanged)
        } else if tag == 5 {
            Some(EventType::LedgerAdded)
        } else if tag == 6 {
            Some(EventType::LimitChanged)
        } else if tag == 7 {
            Some(EventType::TokensCreated)
        } else if tag == 8 {
            Some(EventType::ControllerCreated)
        } else if tag == 9 {
            Some(EventType::LimitConsumed)
        } else if tag == 10 {
            Some(EventType::TokensDestroyed)
        } else if tag == 11 {
            Some(EventType::PricingChanged)
        } else if tag == 12 {
            Some(EventType::AccountUpdate)
        } else if tag == 13 {
            Some(EventType::OwnershipTransferred)
        } else if tag == 14 {
            Some(EventType::BlacklistChanged)
        } else {
            None
        }
    }

    /// Every value of this type conforms to the wire shape.
    pub proof fn lemma_shape(self)
        ensures
            has_shape(self.as_model(), Self::shape()),
    {
        lemma_unit_variants(15, self.spec_tag() as int, ValModel::Tuple(Seq::empty()));
    }

    /// The wire value of this variant.
    pub fn to_value(self) -> (r: TypedValue)
        ensures
            r@ == self.as_model(),
            has_shape(r@, Self::shape()),
    {
        proof {
            self.lemma_shape();
        }
        unit_variant_value(self.tag())
    }
}


/// The acknowledgement of a state-mutating call: the transaction it made.
pub struct Response {
    pub tx_id: BigNat,
}

impl Response {
    /// The wire shape of this record.
    pub open spec fn shape() -> Shape {
        Shape::Tuple(Box::new(spec_sl1(Shape::Nat)))
    }

    /// Well-formed: canonical integers and in-range addresses.
    pub open spec fn wf(&self) -> bool {
        self.tx_id.wf()
    }

    /// The ghost model of this record.
    pub open spec fn as_model(&self) -> ValModel {
        ValModel::Tuple(seq![nat_m(self.tx_id)])
    }

    /// The wire value of this record.
    pub fn to_value(self) -> (r: TypedValue)
        ensures
            r@ == self.as_model(),
            self.wf() ==> has_shape(r@, Self::shape()),
    {
        let ghost me = self;
        let _len_tx_id: usize = self.tx_id.bytes.len();
        let r = tuple1(TypedValue::Nat(self.tx_id));
        proof {
            let vs0 = r@->Tuple_0;
            lemma_fields_cons(vs0, Shape::Nat, ShapeList::Nil);
            let vs1 = vs0.skip(1);
            assert(vs1 =~= Seq::<ValModel>::empty());
            lemma_fields_nil(vs1);
        }
        r
    }

    /// The record a conforming wire value denotes; nothing otherwise.
    pub fn from_value(v: TypedValue) -> (r: Option<Response>)
        ensures
            r matches Some(t) ==> t.wf() && t.as_model() == v@,
            r is Some <==> has_shape(v@, Self::shape()),
    {
        let ghost m = v@;
        let vl0 = match untuple(v) {
            Option::Some(x) => x,
            Option::None => {
                return None;
            },
        };
        let ghost w0 = view_value_list(&vl0);
        proof {
            lemma_fields_cons(w0, Shape::Nat, ShapeList::Nil);
        }
        let (tx_id, vl1) = match field_nat(vl0) {
            Option::Some(x) => x,
            Option::None => {
                return None;
            },
        };
        let ghost w1 = view_value_list(&vl1);
        proof {
            assert(w0.skip(1) =~= w1);
            lemma_fields_nil(w1);
        }
        if !is_nil(&vl1) {
            return None;
        }
        proof {
            assert(w0 =~= seq![nat_m(tx_id)]);
        }
        Some(Response { tx_id })
    }
}


/// An account balance change, as recorded in the event log.
pub struct AccountUpdate {
    pub account_id: BigNat,
    pub previous_amount: BigNat,
    pub current_amount: BigNat,
}

impl AccountUpdate {
    /// The wire shape of this record.
    pub open spec fn shape() -> Shape {
        Shape::Tuple(Box::new(spec_sl3(Shape::Nat, Shape::Nat, Shape::Nat)))
    }

    /// Well-formed: canonical integers and in-range addresses.
    pub open spec fn wf(&self) -> bool {
        self.account_id.wf() && self.previous_amount.wf() && self.current_amount.wf()
    }

    /// The ghost model of this record.
    pub open spec fn as_model(&self) -> ValModel {
        ValModel::Tuple(seq![nat_m(self.account_id), nat_m(self.previous_amount), nat_m(self.current_amount)])
    }

    /// The wire value of this record.
    pub fn to_value(self) -> (r: TypedValue)
        ensures
            r@ == self.as_model(),
            self.wf() ==> has_shape(r@, Self::shape()),
    {
        let ghost me = self;
        let _len_account_id: usize = self.account_id.bytes.len();
        let _len_previous_amount: usize = self.previous_amount.bytes.len();
        let _len_current_amount: usize = self.current_amount.bytes.len();
        let r = tuple3(TypedValue::Nat(self.account_id), TypedValue::Nat(self.previous_amount), TypedValue::Nat(self.current_amount));
        proof {
            let vs0 = r@->Tuple_0;
            lemma_fields_cons(vs0, Shape::Nat, spec_sl2(Shape::Nat, Shape::Nat));
            let vs1 = vs0.skip(1);
            assert(vs1 =~= seq![nat_m(me.previous_amount), nat_m(me.current_amount)]);
            lemma_fields_cons(vs1, Shape::Nat, spec_sl1(Shape::Nat));
            let vs2 = vs1.skip(1);
            assert(vs2 =~= seq![nat_m(me.current_amount)]);
            lemma_fields_cons(vs2, Shape::Nat, ShapeList::Nil);
            let vs3 = vs2.skip(1);
            assert(vs3 =~= Seq::<ValModel>::empty());
            lemma_fields_nil(vs3);
        }
        r
    }

    /// The record a conforming wire value denotes; nothing otherwise.
    pub fn from_value(v: TypedValue) -> (r: Option<AccountUpdate>)
        ensures
            r matches Some(t) ==> t.wf() && t.as_model() == v@,
            r is Some <==> has_shape(v@, Self::shape()),
    {
        let ghost m = v@;
        let vl0 = match untuple(v) {
            Option::Some(x) => x,
            Option::None => {
                return None;
            },
        };
        let ghost w0 = view_value_list(&vl0);
        proof {
            lemma_fields_cons(w0, Shape::Nat, spec_sl2(Shape::Nat, Shape::Nat));
        }
        let (account_id, vl1) = match field_nat(vl0) {
            Option::Some(x) => x,
            Option::None => {
                return None;
            },
        };
        let ghost w1 = view_value_list(&vl1);
        proof {
            assert(w0.skip(1) =~= w1);
            lemma_fields_cons(w1, Shape::Nat, spec_sl1(Shape::Nat));
        }
        let (previous_amount, vl2) = match field_nat(vl1) {
            Option::Some(x) => x,
            Option::None => {
                return None;
            },
        };
        let ghost w2 = view_value_list(&vl2);
        proof {
            assert(w1.skip(1) =~= w2);
            lemma_fields_cons(w2, Shape::Nat, ShapeList::Nil);
        }
        let (current_amount, vl3) = match field_nat(vl2) {
            Option::Some(x) => x,
            Option::None => {
                return None;
            },
        };
        let ghost w3 = view_value_list(&vl3);
        proof {
            assert(w2.skip(1) =~= w3);
            lemma_fields_nil(w3);
        }
        if !is_nil(&vl3) {
            return None;
        }
        proof {
            assert(w0 =~= seq![nat_m(account_id), nat_m(previous_amount), nat_m(current_amount)]);
        }
        Some(AccountUpdate { account_id, previous_amount, current_amount })
    }
}


/// A grant or revocation of administrator standing.
pub struct AdministratorChanged {
    pub is_admin_status: bool,
    pub affected_address: CallerAddress,
}

impl AdministratorChanged {
    /// The wire shape of this record.
    pub open spec fn shape() -> Shape {
        Shape::Tuple(Box::new(spec_sl2(Shape::Bool, Shape::Address)))
    }

    /// Well-formed: canonical integers and in-range addresses.
    pub open spec fn wf(&self) -> bool {
        self.affected_address.wf()
    }

    /// The ghost model of this record.
    pub open spec fn as_model(&self) -> ValModel {
        ValModel::Tuple(seq![ValModel::Bool(self.is_admin_status), addr_m(self.affected_address)])
    }

    /// The wire value of this record.
    pub fn to_value(self) -> (r: TypedValue)
        ensures
            r@ == self.as_model(),
            self.wf() ==> has_shape(r@, Self::shape()),
    {
        let ghost me = self;

        let r = tuple2(TypedValue::Bool(self.is_admin_status), TypedValue::Address(self.affected_address.bytes));
        proof {
            let vs0 = r@->Tuple_0;
            lemma_fields_cons(vs0, Shape::Bool, spec_sl1(Shape::Address));
            let vs1 = vs0.skip(1);
            assert(vs1 =~= seq![addr_m(me.affected_address)]);
            lemma_fields_cons(vs1, Shape::Address, ShapeList::Nil);
            let vs2 = vs1.skip(1);
            assert(vs2 =~= Seq::<ValModel>::empty());
            lemma_fields_nil(vs2);
        }
        r
    }

    /// The record a conforming wire value denotes; nothing otherwise.
    pub fn from_value(v: TypedValue) -> (r: Option<AdministratorChanged>)
        ensures
            r matches Some(t) ==> t.wf() && t.as_model() == v@,
            r is Some <==> has_shape(v@, Self::shape()),
    {
        let ghost m = v@;
        let vl0 = match untuple(v) {
            Option::Some(x) => x,
            Option::None => {
                return None;
            },
        };
        let ghost w0 = view_value_list(&vl0);
        proof {
            lemma_fields_cons(w0, Shape::Bool, spec_sl1(Shape::Address));
        }
        let (is_admin_status, vl1) = match field_bool(vl0) {
            Option::Some(x) => x,
            Option::None => {
                return None;
            },
        };
        let ghost w1 = view_value_list(&vl1);
        proof {
            assert(w0.skip(1) =~= w1);
            lemma_fields_cons(w1, Shape::Address, ShapeList::Nil);
        }
        let (affected_address, vl2) = match field_addr(vl1) {
            Option::Some(x) => x,
            Option::None => {
                return None;
            },
        };
        let ghost w2 = view_value_list(&vl2);
        proof {
            assert(w1.skip(1) =~= w2);
            lemma_fields_nil(w2);
        }
        if !is_nil(&vl2) {
            return None;
        }
        proof {
            assert(w0 =~= seq![ValModel::Bool(is_admin_status), addr_m(affected_address)]);
        }
        Some(AdministratorChanged { is_admin_status, affected_address })
    }
}


/// A recorded amendment.
pub struct AmendmentUpdate {
    pub amendment_id: BigNat,
}

impl AmendmentUpdate {
    /// The wire shape of this record.
    pub open spec fn shape() -> Shape {
        Shape::Tuple(Box::new(spec_sl1(Shape::Nat)))
    }

    /// Well-formed: canonical integers and in-range addresses.
    pub open spec fn wf(&self) -> bool {
        self.amendment_id.wf()
    }

    /// The ghost model of this record.
    pub open spec fn as_model(&self) -> ValModel {
        ValModel::Tuple(seq![nat_m(self.amendment_id)])
    }

    /// The wire value of this record.
    pub fn to_value(self) -> (r: TypedValue)
        ensures
            r@ == self.as_model(),
            self.wf() ==> has_shape(r@, Self::shape()),
    {
        let ghost me = self;
        let _len_amendment_id: usize = self.amendment_id.bytes.len();
        let r = tuple1(TypedValue::Nat(self.amendment_id));
        proof {
            let vs0 = r@->Tuple_0;
            lemma_fields_cons(vs0, Shape::Nat, ShapeList::Nil);
            let vs1 = vs0.skip(1);
            assert(vs1 =~= Seq::<ValModel>::empty());
            lemma_fields_nil(vs1);
        }
        r
    }

    /// The record a conforming wire value denotes; nothing otherwise.
    pub fn from_value(v: TypedValue) -> (r: Option<AmendmentUpdate>)
        ensures
            r matches Some(t) ==> t.wf() && t.as_model() == v@,
            r is Some <==> has_shape(v@, Self::shape()),
    {
        let ghost m = v@;
        let vl0 = match untuple(v) {
            Option::Some(x) => x,
            Option::None => {
                return None;
            },
        };
        let ghost w0 = view_value_list(&vl0);
        proof {
            lemma_fields_cons(w0, Shape::Nat, ShapeList::Nil);
        }
        let (amendment_id, vl1) = match field_nat(vl0) {
            Option::Some(x) => x,
            Option::None => {
                return None;
            },
        };
        let ghost w1 = view_value_list(&vl1);
        proof {
            assert(w0.skip(1) =~= w1);
            lemma_fields_nil(w1);
        }
        if !is_nil(&vl1) {
            return None;
        }
        proof {
            assert(w0 =~= seq![nat_m(amendment_id)]);
        }
        Some(AmendmentUpdate { amendment_id })
    }
}


/// An asset lifecycle event and the asset it concerns.
pub struct AssetUpdate {
    pub event_id: AssetUpdateCode,
    pub asset_id: BigNat,
}

impl AssetUpdate {
    /// The wire shape of this record.
    pub open spec fn shape() -> Shape {
        Shape::Tuple(Box::new(spec_sl2(AssetUpdateCode::shape(), Shape::Nat)))
    }

    /// Well-formed: canonical integers and in-range addresses.
    pub open spec fn wf(&self) -> bool {
        self.asset_id.wf()
    }

    /// The ghost model of this record.
    pub open spec fn as_model(&self) -> ValModel {
        ValModel::Tuple(seq![self.event_id.as_model(), nat_m(self.asset_id)])
    }

    /// The wire value of this record.
    pub fn to_value(self) -> (r: TypedValue)
        ensures
            r@ == self.as_model(),
            self.wf() ==> has_shape(r@, Self::shape()),
    {
        let ghost me = self;
        let _len_asset_id: usize = self.asset_id.bytes.len();
        let r = tuple2(self.event_id.to_value(), TypedValue::Nat(self.asset_id));
        proof {
            let vs0 = r@->Tuple_0;
            lemma_fields_cons(vs0, AssetUpdateCode::shape(), spec_sl1(Shape::Nat));
            let vs1 = vs0.skip(1);
            assert(vs1 =~= seq![nat_m(me.asset_id)]);
            lemma_fields_cons(vs1, Shape::Nat, ShapeList::Nil);
            let vs2 = vs1.skip(1);
            assert(vs2 =~= Seq::<ValModel>::empty());
            lemma_fields_nil(vs2);
            me.event_id.lemma_shape();
        }
        r
    }

    /// The record a conforming wire value denotes; nothing otherwise.
    pub fn from_value(v: TypedValue) -> (r: Option<AssetUpdate>)
        ensures
            r matches Some(t) ==> t.wf() && t.as_model() == v@,
            r is Some <==> has_shape(v@, Self::shape()),
    {
        let ghost m = v@;
        let vl0 = match untuple(v) {
            Option::Some(x) => x,
            Option::None => {
                return None;
            },
        };
        let ghost w0 = view_value_list(&vl0);
        proof {
            lemma_fields_cons(w0, AssetUpdateCode::shape(), spec_sl1(Shape::Nat));
        }
        let (tag_event_id, vl1) = match field_unit_variant(vl0, 8) {
            Option::Some(x) => x,
            Option::None => {
                return None;
            },
        };
        let event_id = match AssetUpdateCode::from_tag(tag_event_id) {
            Option::Some(x) => x,
            Option::None => {
                proof {
                    assert(false);
                }
                return None;
            },
        };
        let ghost w1 = view_value_list(&vl1);
        proof {
            assert(w0.skip(1) =~= w1);
            lemma_fields_cons(w1, Shape::Nat, ShapeList::Nil);
        }
        let (asset_id, vl2) = match field_nat(vl1) {
            Option::Some(x) => x,
            Option::None => {
                return None;
            },
        };
        let ghost w2 = view_value_list(&vl2);
        proof {
            assert(w1.skip(1) =~= w2);
            lemma_fields_nil(w2);
        }
        if !is_nil(&vl2) {
            return None;
        }
        proof {
            assert(w0 =~= seq![event_id.as_model(), nat_m(asset_id)]);
        }
        Some(AssetUpdate { event_id, asset_id })
    }
}


/// A blacklist entry change under a controller.
pub struct BlacklistChanged {
    pub code: u8,
    pub affected_address: CallerAddress,
    pub controller_id: BigNat,
}

impl BlacklistChanged {
    /// The wire shape of this record.
    pub open spec fn shape() -> Shape {
        Shape::Tuple(Box::new(spec_sl3(Shape::N8, Shape::Address, Shape::Nat)))
    }

    /// Well-formed: canonical integers and in-range addresses.
    pub open spec fn wf(&self) -> bool {
        self.affected_address.wf() && self.controller_id.wf()
    }

    /// The ghost model of this record.
    pub open spec fn as_model(&self) -> ValModel {
        ValModel::Tuple(seq![ValModel::N8(self.code), addr_m(self.affected_address), nat_m(self.controller_id)])
    }

    /// The wire value of this record.
    pub fn to_value(self) -> (r: TypedValue)
        ensures
            r@ == self.as_model(),
            self.wf() ==> has_shape(r@, Self::shape()),
    {
        let ghost me = self;
        let _len_controller_id: usize = self.controller_id.bytes.len();
        let r = tuple3(TypedValue::N8(self.code), TypedValue::Address(self.affected_address.bytes), TypedValue::Nat(self.controller_id));
        proof {
            let vs0 = r@->Tuple_0;
            lemma_fields_cons(vs0, Shape::N8, spec_sl2(Shape::Address, Shape::Nat));
            let vs1 = vs0.skip(1);
            assert(vs1 =~= seq![addr_m(me.affected_address), nat_m(me.controller_id)]);
            lemma_fields_cons(vs1, Shape::Address, spec_sl1(Shape::Nat));
            let vs2 = vs1.skip(1);
            assert(vs2 =~= seq![nat_m(me.controller_id)]);
            lemma_fields_cons(vs2, Shape::Nat, ShapeList::Nil);
            let vs3 = vs2.skip(1);
            assert(vs3 =~= Seq::<ValModel>::empty());
            lemma_fields_nil(vs3);
        }
        r
    }

    /// The record a conforming wire value denotes; nothing otherwise.
    pub fn from_value(v: TypedValue) -> (r: Option<BlacklistChanged>)
        ensures
            r matches Some(t) ==> t.wf() && t.as_model() == v@,
            r is Some <==> has_shape(v@, Self::shape()),
    {
        let ghost m = v@;
        let vl0 = match untuple(v) {
            Option::Some(x) => x,
            Option::None => {
                return None;
            },
        };
        let ghost w0 = view_value_list(&vl0);
        proof {
            lemma_fields_cons(w0, Shape::N8, spec_sl2(Shape::Address, Shape::Nat));
        }
        let (code, vl1) = match field_u8(vl0) {
            Option::Some(x) => x,
            Option::None => {
                return None;
            },
        };
        let ghost w1 = view_value_list(&vl1);
        proof {
            assert(w0.skip(1) =~= w1);
            lemma_fields_cons(w1, Shape::Address, spec_sl1(Shape::Nat));
        }
        let (affected_address, vl2) = match field_addr(vl1) {
            Option::Some(x) => x,
            Option::None => {
                return None;
            },
        };
        let ghost w2 = view_value_list(&vl2);
        proof {
            assert(w1.skip(1) =~= w2);
            lemma_fields_cons(w2, Shape::Nat, ShapeList::Nil);
        }
        let (controller_id, vl3) = match field_nat(vl2) {
            Option::Some(x) => x,
            Option::None => {
                return None;
            },
        };
        let ghost w3 = view_value_list(&vl3);
        proof {
            assert(w2.skip(1) =~= w3);
            lemma_fields_nil(w3);
        }
        if !is_nil(&vl3) {
            return None;
        }
        proof {
            assert(w0 =~= seq![ValModel::N8(code), addr_m(affected_address), nat_m(controller_id)]);
        }
        Some(BlacklistChanged { code, affected_address, controller_id })
    }
}


/// A newly created controller contract.
pub struct ControllerCreated {
    pub id: BigNat,
}

impl ControllerCreated {
    /// The wire shape of this record.
    pub open spec fn shape() -> Shape {
        Shape::Tuple(Box::new(spec_sl1(Shape::Nat)))
    }

    /// Well-formed: canonical integers and in-range addresses.
    pub open spec fn wf(&self) -> bool {
        self.id.wf()
    }

    /// The ghost model of this record.
    pub open spec fn as_model(&self) -> ValModel {
        ValModel::Tuple(seq![nat_m(self.id)])
    }

    /// The wire value of this record.
    pub fn to_value(self) -> (r: TypedValue)
        ensures
            r@ == self.as_model(),
            self.wf() ==> has_shape(r@, Self::shape()),
    {
        let ghost me = self;
        let _len_id: usize = self.id.bytes.len();
        let r = tuple1(TypedValue::Nat(self.id));
        proof {
            let vs0 = r@->Tuple_0;
            lemma_fields_cons(vs0, Shape::Nat, ShapeList::Nil);
            let vs1 = vs0.skip(1);
            assert(vs1 =~= Seq::<ValModel>::empty());
            lemma_fields_nil(vs1);
        }
        r
    }

    /// The record a conforming wire value denotes; nothing otherwise.
    pub fn from_value(v: TypedValue) -> (r: Option<ControllerCreated>)
        ensures
            r matches Some(t) ==> t.wf() && t.as_model() == v@,
            r is Some <==> has_shape(v@, Self::shape()),
    {
        let ghost m = v@;
        let vl0 = match untuple(v) {
            Option::Some(x) => x,
            Option::None => {
                return None;
            },
        };
        let ghost w0 = view_value_list(&vl0);
        proof {
            lemma_fields_cons(w0, Shape::Nat, ShapeList::Nil);
        }
        let (id, vl1) = match field_nat(vl0) {
            Option::Some(x) => x,
            Option::None => {
                return None;
            },
        };
        let ghost w1 = view_value_list(&vl1);
        proof {
            assert(w0.skip(1) =~= w1);
            lemma_fields_nil(w1);
        }
        if !is_nil(&vl1) {
            return None;
        }
        proof {
            assert(w0 =~= seq![nat_m(id)]);
        }
        Some(ControllerCreated { id })
    }
}


/// A ledger contract registered with the integration.
pub struct LedgerAdded {
    pub contract_id: BigNat,
}

impl LedgerAdded {
    /// The wire shape of this record.
    pub open spec fn shape() -> Shape {
        Shape::Tuple(Box::new(spec_sl1(Shape::Nat)))
    }

    /// Well-formed: canonical integers and in-range addresses.
    pub open spec fn wf(&self) -> bool {
        self.contract_id.wf()
    }

    /// The ghost model of this record.
    pub open spec fn as_model(&self) -> ValModel {
        ValModel::Tuple(seq![nat_m(self.contract_id)])
    }

    /// The wire value of this record.
    pub fn to_value(self) -> (r: TypedValue)
        ensures
            r@ == self.as_model(),
            self.wf() ==> has_shape(r@, Self::shape()),
    {
        let ghost me = self;
        let _len_contract_id: usize = self.contract_id.bytes.len();
        let r = tuple1(TypedValue::Nat(self.contract_id));
        proof {
            let vs0 = r@->Tuple_0;
            lemma_fields_cons(vs0, Shape::Nat, ShapeList::Nil);
            let vs1 = vs0.skip(1);
            assert(vs1 =~= Seq::<ValModel>::empty());
            lemma_fields_nil(vs1);
        }
        r
    }

    /// The record a conforming wire value denotes; nothing otherwise.
    pub fn from_value(v: TypedValue) -> (r: Option<LedgerAdded>)
        ensures
            r matches Some(t) ==> t.wf() && t.as_model() == v@,
            r is Some <==> has_shape(v@, Self::shape()),
    {
        let ghost m = v@;
        let vl0 = match untuple(v) {
            Option::Some(x) => x,
            Option::None => {
                return None;
            },
        };
        let ghost w0 = view_value_list(&vl0);
        proof {
            lemma_fields_cons(w0, Shape::Nat, ShapeList::Nil);
        }
        let (contract_id, vl1) = match field_nat(vl0) {
            Option::Some(x) => x,
            Option::None => {
                return None;
            },
        };
        let ghost w1 = view_value_list(&vl1);
        proof {
            assert(w0.skip(1) =~= w1);
            lemma_fields_nil(w1);
        }
        if !is_nil(&vl1) {
            return None;
        }
        proof {
            assert(w0 =~= seq![nat_m(contract_id)]);
        }
        Some(LedgerAdded { contract_id })
    }
}


/// A spending-limit change under a controller.
pub struct LimitChanged {
    pub affected_address: CallerAddress,
    pub controller_id: BigNat,
    pub new_limit: BigNat,
}

impl LimitChanged {
    /// The wire shape of this record.
    pub open spec fn shape() -> Shape {
        Shape::Tuple(Box::new(spec_sl3(Shape::Address, Shape::Nat, Shape::Nat)))
    }

    /// Well-formed: canonical integers and in-range addresses.
    pub open spec fn wf(&self) -> bool {
        self.affected_address.wf() && self.controller_id.wf() && self.new_limit.wf()
    }

    /// The ghost model of this record.
    pub open spec fn as_model(&self) -> ValModel {
        ValModel::Tuple(seq![addr_m(self.affected_address), nat_m(self.controller_id), nat_m(self.new_limit)])
    }

    /// The wire value of this record.
    pub fn to_value(self) -> (r: TypedValue)
        ensures
            r@ == self.as_model(),
            self.wf() ==> has_shape(r@, Self::shape()),
    {
        let ghost me = self;
        let _len_controller_id: usize = self.controller_id.bytes.len();
        let _len_new_limit: usize = self.new_limit.bytes.len();
        let r = tuple3(TypedValue::Address(self.affected_address.bytes), TypedValue::Nat(self.controller_id), TypedValue::Nat(self.new_limit));
        proof {
            let vs0 = r@->Tuple_0;
            lemma_fields_cons(vs0, Shape::Address, spec_sl2(Shape::Nat, Shape::Nat));
            let vs1 = vs0.skip(1);
            assert(vs1 =~= seq![nat_m(me.controller_id), nat_m(me.new_limit)]);
            lemma_fields_cons(vs1, Shape::Nat, spec_sl1(Shape::Nat));
            let vs2 = vs1.skip(1);
            assert(vs2 =~= seq![nat_m(me.new_limit)]);
            lemma_fields_cons(vs2, Shape::Nat, ShapeList::Nil);
            let vs3 = vs2.skip(1);
            assert(vs3 =~= Seq::<ValModel>::empty());
            lemma_fields_nil(vs3);
        }
        r
    }

    /// The record a conforming wire value denotes; nothing otherwise.
    pub fn from_value(v: TypedValue) -> (r: Option<LimitChanged>)
        ensures
            r matches Some(t) ==> t.wf() && t.as_model() == v@,
            r is Some <==> has_shape(v@, Self::shape()),
    {
        let ghost m = v@;
        let vl0 = match untuple(v) {
            Option::Some(x) => x,
            Option::None => {
                return None;
            },
        };
        let ghost w0 = view_value_list(&vl0);
        proof {
            lemma_fields_cons(w0, Shape::Address, spec_sl2(Shape::Nat, Shape::Nat));
        }
        let (affected_address, vl1) = match field_addr(vl0) {
            Option::Some(x) => x,
            Option::None => {
                return None;
            },
        };
        let ghost w1 = view_value_list(&vl1);
        proof {
            assert(w0.skip(1) =~= w1);
            lemma_fields_cons(w1, Shape::Nat, spec_sl1(Shape::Nat));
        }
        let (controller_id, vl2) = match field_nat(vl1) {
            Option::Some(x) => x,
            Option::None => {
                return None;
            },
        };
        let ghost w2 = view_value_list(&vl2);
        proof {
            assert(w1.skip(1) =~= w2);
            lemma_fields_cons(w2, Shape::Nat, ShapeList::Nil);
        }
        let (new_limit, vl3) = match field_nat(vl2) {
            Option::Some(x) => x,
            Option::None => {
                return None;
            },
        };
        let ghost w3 = view_value_list(&vl3);
        proof {
            assert(w2.skip(1) =~= w3);
            lemma_fields_nil(w3);
        }
        if !is_nil(&vl3) {
            return None;
        }
        proof {
            assert(w0 =~= seq![addr_m(affected_address), nat_m(controller_id), nat_m(new_limit)]);
        }
        Some(LimitChanged { affected_address, controller_id, new_limit })
    }
}


/// A consumption against a spending limit.
pub struct LimitConsumed {
    pub consumed_amount: BigNat,
    pub remaining_limit: BigNat,
    pub affected_address: CallerAddress,
    pub controller_id: BigNat,
}

impl LimitConsumed {
    /// The wire shape of this record.
    pub open spec fn shape() -> Shape {
        Shape::Tuple(Box::new(spec_sl4(Shape::Nat, Shape::Nat, Shape::Address, Shape::Nat)))
    }

    /// Well-formed: canonical integers and in-range addresses.
    pub open spec fn wf(&self) -> bool {
        self.consumed_amount.wf() && self.remaining_limit.wf() && self.affected_address.wf() && self.controller_id.wf()
    }

    /// The ghost model of this record.
    pub open spec fn as_model(&self) -> ValModel {
        ValModel::Tuple(seq![nat_m(self.consumed_amount), nat_m(self.remaining_limit), addr_m(self.affected_address), nat_m(self.controller_id)])
    }

    /// The wire value of this record.
    pub fn to_value(self) -> (r: TypedValue)
        ensures
            r@ == self.as_model(),
            self.wf() ==> has_shape(r@, Self::shape()),
    {
        let ghost me = self;
        let _len_consumed_amount: usize = self.consumed_amount.bytes.len();
        let _len_remaining_limit: usize = self.remaining_limit.bytes.len();
        let _len_controller_id: usize = self.controller_id.bytes.len();
        let r = tuple4(TypedValue::Nat(self.consumed_amount), TypedValue::Nat(self.remaining_limit), TypedValue::Address(self.affected_address.bytes), TypedValue::Nat(self.controller_id));
        proof {
            let vs0 = r@->Tuple_0;
            lemma_fields_cons(vs0, Shape::Nat, spec_sl3(Shape::Nat, Shape::Address, Shape::Nat));
            let vs1 = vs0.skip(1);
            assert(vs1 =~= seq![nat_m(me.remaining_limit), addr_m(me.affected_address), nat_m(me.controller_id)]);
            lemma_fields_cons(vs1, Shape::Nat, spec_sl2(Shape::Address, Shape::Nat));
            let vs2 = vs1.skip(1);
            assert(vs2 =~= seq![addr_m(me.affected_address), nat_m(me.controller_id)]);
            lemma_fields_cons(vs2, Shape::Address, spec_sl1(Shape::Nat));
            let vs3 = vs2.skip(1);
            assert(vs3 =~= seq![nat_m(me.controller_id)]);
            lemma_fields_cons(vs3, Shape::Nat, ShapeList::Nil);
            let vs4 = vs3.skip(1);
            assert(vs4 =~= Seq::<ValModel>::empty());
            lemma_fields_nil(vs4);
        }
        r
    }

    /// The record a conforming wire value denotes; nothing otherwise.
    pub fn from_value(v: TypedValue) -> (r: Option<LimitConsumed>)
        ensures
            r matches Some(t) ==> t.wf() && t.as_model() == v@,
            r is Some <==> has_shape(v@, Self::shape()),
    {
        let ghost m = v@;
        let vl0 = match untuple(v) {
            Option::Some(x) => x,
            Option::None => {
                return None;
            },
        };
        let ghost w0 = view_value_list(&vl0);
        proof {
            lemma_fields_cons(w0, Shape::Nat, spec_sl3(Shape::Nat, Shape::Address, Shape::Nat));
        }
        let (consumed_amount, vl1) = match field_nat(vl0) {
            Option::Some(x) => x,
            Option::None => {
                return None;
            },
        };
        let ghost w1 = view_value_list(&vl1);
        proof {
            assert(w0.skip(1) =~= w1);
            lemma_fields_cons(w1, Shape::Nat, spec_sl2(Shape::Address, Shape::Nat));
        }
        let (remaining_limit, vl2) = match field_nat(vl1) {
            Option::Some(x) => x,
            Option::None => {
                return None;
            },
        };
        let ghost w2 = view_value_list(&vl2);
        proof {
            assert(w1.skip(1) =~= w2);
            lemma_fields_cons(w2, Shape::Address, spec_sl1(Shape::Nat));
        }
        let (affected_address, vl3) = match field_addr(vl2) {
            Option::Some(x) => x,
            Option::None => {
                return None;
            },
        };
        let ghost w3 = view_value_list(&vl3);
        proof {
            assert(w2.skip(1) =~= w3);
            lemma_fields_cons(w3, Shape::Nat, ShapeList::Nil);
        }
        let (controller_id, vl4) = match field_nat(vl3) {
            Option::Some(x) => x,
            Option::None => {
                return None;
            },
        };
        let ghost w4 = view_value_list(&vl4);
        proof {
            assert(w3.skip(1) =~= w4);
            lemma_fields_nil(w4);
        }
        if !is_nil(&vl4) {
            return None;
        }
        proof {
            assert(w0 =~= seq![nat_m(consumed_amount), nat_m(remaining_limit), addr_m(affected_address), nat_m(controller_id)]);
        }
        Some(LimitConsumed { consumed_amount, remaining_limit, affected_address, controller_id })
    }
}


/// An ownership hand-over of a contract.
pub struct OwnershipTransferred {
    pub new_owner: Option<CallerAddress>,
    pub previous_owner: Option<CallerAddress>,
}

impl OwnershipTransferred {
    /// The wire shape of this record.
    pub open spec fn shape() -> Shape {
        Shape::Tuple(Box::new(spec_sl2(Shape::Opt(Box::new(Shape::Address)), Shape::Opt(Box::new(Shape::Address)))))
    }

    /// Well-formed: canonical integers and in-range addresses.
    pub open spec fn wf(&self) -> bool {
        opt_addr_wf(&self.new_owner) && opt_addr_wf(&self.previous_owner)
    }

    /// The ghost model of this record.
    pub open spec fn as_model(&self) -> ValModel {
        ValModel::Tuple(seq![opt_addr_m(self.new_owner), opt_addr_m(self.previous_owner)])
    }

    /// The wire value of this record.
    pub fn to_value(self) -> (r: TypedValue)
        ensures
            r@ == self.as_model(),
            self.wf() ==> has_shape(r@, Self::shape()),
    {
        let ghost me = self;

        let r = tuple2(opt_addr_value(self.new_owner), opt_addr_value(self.previous_owner));
        proof {
            let vs0 = r@->Tuple_0;
            lemma_fields_cons(vs0, Shape::Opt(Box::new(Shape::Address)), spec_sl1(Shape::Opt(Box::new(Shape::Address))));
            let vs1 = vs0.skip(1);
            assert(vs1 =~= seq![opt_addr_m(me.previous_owner)]);
            lemma_fields_cons(vs1, Shape::Opt(Box::new(Shape::Address)), ShapeList::Nil);
            let vs2 = vs1.skip(1);
            assert(vs2 =~= Seq::<ValModel>::empty());
            lemma_fields_nil(vs2);
            lemma_has_shape_opt(opt_addr_m(me.new_owner), Shape::Address);
            lemma_has_shape_opt(opt_addr_m(me.previous_owner), Shape::Address);
        }
        r
    }

    /// The record a conforming wire value denotes; nothing otherwise.
    pub fn from_value(v: TypedValue) -> (r: Option<OwnershipTransferred>)
        ensures
            r matches Some(t) ==> t.wf() && t.as_model() == v@,
            r is Some <==> has_shape(v@, Self::shape()),
    {
        let ghost m = v@;
        let vl0 = match untuple(v) {
            Option::Some(x) => x,
            Option::None => {
                return None;
            },
        };
        let ghost w0 = view_value_list(&vl0);
        proof {
            lemma_fields_cons(w0, Shape::Opt(Box::new(Shape::Address)), spec_sl1(Shape::Opt(Box::new(Shape::Address))));
        }
        let (new_owner, vl1) = match field_opt_addr(vl0) {
            Option::Some(x) => x,
            Option::None => {
                return None;
            },
        };
        let ghost w1 = view_value_list(&vl1);
        proof {
            assert(w0.skip(1) =~= w1);
            lemma_fields_cons(w1, Shape::Opt(Box::new(Shape::Address)), ShapeList::Nil);
        }
        let (previous_owner, vl2) = match field_opt_addr(vl1) {
            Option::Some(x) => x,
            Option::None => {
                return None;
            },
        };
        let ghost w2 = view_value_list(&vl2);
        proof {
            assert(w1.skip(1) =~= w2);
            lemma_fields_nil(w2);
        }
        if !is_nil(&vl2) {
            return None;
        }
        proof {
            assert(w0 =~= seq![opt_addr_m(new_owner), opt_addr_m(previous_owner)]);
        }
        Some(OwnershipTransferred { new_owner, previous_owner })
    }
}


/// A pause or unpause of a contract.
pub struct PauseChanged {
    pub paused: bool,
}

impl PauseChanged {
    /// The wire shape of this record.
    pub open spec fn shape() -> Shape {
        Shape::Tuple(Box::new(spec_sl1(Shape::Bool)))
    }

    /// Well-formed: canonical integers and in-range addresses.
    pub open spec fn wf(&self) -> bool {
        true
    }

    /// The ghost model of this record.
    pub open spec fn as_model(&self) -> ValModel {
        ValModel::Tuple(seq![ValModel::Bool(self.paused)])
    }

    /// The wire value of this record.
    pub fn to_value(self) -> (r: TypedValue)
        ensures
            r@ == self.as_model(),
            self.wf() ==> has_shape(r@, Self::shape()),
    {
        let ghost me = self;

        let r = tuple1(TypedValue::Bool(self.paused));
        proof {
            let vs0 = r@->Tuple_0;
            lemma_fields_cons(vs0, Shape::Bool, ShapeList::Nil);
            let vs1 = vs0.skip(1);
            assert(vs1 =~= Seq::<ValModel>::empty());
            lemma_fields_nil(vs1);
        }
        r
    }

    /// The record a conforming wire value denotes; nothing otherwise.
    pub fn from_value(v: TypedValue) -> (r: Option<PauseChanged>)
        ensures
            r matches Some(t) ==> t.wf() && t.as_model() == v@,
            r is Some <==> has_shape(v@, Self::shape()),
    {
        let ghost m = v@;
        let vl0 = match untuple(v) {
            Option::Some(x) => x,
            Option::None => {
                return None;
            },
        };
        let ghost w0 = view_value_list(&vl0);
        proof {
            lemma_fields_cons(w0, Shape::Bool, ShapeList::Nil);
        }
        let (paused, vl1) = match field_bool(vl0) {
            Option::Some(x) => x,
            Option::None => {
                return None;
            },
        };
        let ghost w1 = view_value_list(&vl1);
        proof {
            assert(w0.skip(1) =~= w1);
            lemma_fields_nil(w1);
        }
        if !is_nil(&vl1) {
            return None;
        }
        proof {
            assert(w0 =~= seq![ValModel::Bool(paused)]);
        }
        Some(PauseChanged { paused })
    }
}


/// A fee schedule change for an asset.
pub struct PricingChanged {
    pub unique_asset_id: BigNat,
    pub new_fee_amount: BigNat,
    pub event_id: u8,
}

impl PricingChanged {
    /// The wire shape of this record.
    pub open spec fn shape() -> Shape {
        Shape::Tuple(Box::new(spec_sl3(Shape::Nat, Shape::Nat, Shape::N8)))
    }

    /// Well-formed: canonical integers and in-range addresses.
    pub open spec fn wf(&self) -> bool {
        self.unique_asset_id.wf() && self.new_fee_amount.wf()
    }

    /// The ghost model of this record.
    pub open spec fn as_model(&self) -> ValModel {
        ValModel::Tuple(seq![nat_m(self.unique_asset_id), nat_m(self.new_fee_amount), ValModel::N8(self.event_id)])
    }

    /// The wire value of this record.
    pub fn to_value(self) -> (r: TypedValue)
        ensures
            r@ == self.as_model(),
            self.wf() ==> has_shape(r@, Self::shape()),
    {
        let ghost me = self;
        let _len_unique_asset_id: usize = self.unique_asset_id.bytes.len();
        let _len_new_fee_amount: usize = self.new_fee_amount.bytes.len();
        let r = tuple3(TypedValue::Nat(self.unique_asset_id), TypedValue::Nat(self.new_fee_amount), TypedValue::N8(self.event_id));
        proof {
            let vs0 = r@->Tuple_0;
            lemma_fields_cons(vs0, Shape::Nat, spec_sl2(Shape::Nat, Shape::N8));
            let vs1 = vs0.skip(1);
            assert(vs1 =~= seq![nat_m(me.new_fee_amount), ValModel::N8(me.event_id)]);
            lemma_fields_cons(vs1, Shape::Nat, spec_sl1(Shape::N8));
            let vs2 = vs1.skip(1);
            assert(vs2 =~= seq![ValModel::N8(me.event_id)]);
            lemma_fields_cons(vs2, Shape::N8, ShapeList::Nil);
            let vs3 = vs2.skip(1);
            assert(vs3 =~= Seq::<ValModel>::empty());
            lemma_fields_nil(vs3);
        }
        r
    }

    /// The record a conforming wire value denotes; nothing otherwise.
    pub fn from_value(v: TypedValue) -> (r: Option<PricingChanged>)
        ensures
            r matches Some(t) ==> t.wf() && t.as_model() == v@,
            r is Some <==> has_shape(v@, Self::shape()),
    {
        let ghost m = v@;
        let vl0 = match untuple(v) {
            Option::Some(x) => x,
            Option::None => {
                return None;
            },
        };
        let ghost w0 = view_value_list(&vl0);
        proof {
            lemma_fields_cons(w0, Shape::Nat, spec_sl2(Shape::Nat, Shape::N8));
        }
        let (unique_asset_id, vl1) = match field_nat(vl0) {
            Option::Some(x) => x,
            Option::None => {
                return None;
            },
        };
        let ghost w1 = view_value_list(&vl1);
        proof {
            assert(w0.skip(1) =~= w1);
            lemma_fields_cons(w1, Shape::Nat, spec_sl1(Shape::N8));
        }
        let (new_fee_amount, vl2) = match field_nat(vl1) {
            Option::Some(x) => x,
            Option::None => {
                return None;
            },
        };
        let ghost w2 = view_value_list(&vl2);
        proof {
            assert(w1.skip(1) =~= w2);
            lemma_fields_cons(w2, Shape::N8, ShapeList::Nil);
        }
        let (event_id, vl3) = match field_u8(vl2) {
            Option::Some(x) => x,
            Option::None => {
                return None;
            },
        };
        let ghost w3 = view_value_list(&vl3);
        proof {
            assert(w2.skip(1) =~= w3);
            lemma_fields_nil(w3);
        }
        if !is_nil(&vl3) {
            return None;
        }
        proof {
            assert(w0 =~= seq![nat_m(unique_asset_id), nat_m(new_fee_amount), ValModel::N8(event_id)]);
        }
        Some(PricingChanged { unique_asset_id, new_fee_amount, event_id })
    }
}


/// A supply lifecycle event.
pub struct SupplyUpdate {
    pub supply_id: BigNat,
    pub current_amount: BigNat,
    pub event_id: SupplyUpdateCode,
}

impl SupplyUpdate {
    /// The wire shape of this record.
    pub open spec fn shape() -> Shape {
        Shape::Tuple(Box::new(spec_sl3(Shape::Nat, Shape::Nat, SupplyUpdateCode::shape())))
    }

    /// Well-formed: canonical integers and in-range addresses.
    pub open spec fn wf(&self) -> bool {
        self.supply_id.wf() && self.current_amount.wf()
    }

    /// The ghost model of this record.
    pub open spec fn as_model(&self) -> ValModel {
        ValModel::Tuple(seq![nat_m(self.supply_id), nat_m(self.current_amount), self.event_id.as_model()])
    }

    /// The wire value of this record.
    pub fn to_value(self) -> (r: TypedValue)
        ensures
            r@ == self.as_model(),
            self.wf() ==> has_shape(r@, Self::shape()),
    {
        let ghost me = self;
        let _len_supply_id: usize = self.supply_id.bytes.len();
        let _len_current_amount: usize = self.current_amount.bytes.len();
        let r = tuple3(TypedValue::Nat(self.supply_id), TypedValue::Nat(self.current_amount), self.event_id.to_value());
        proof {
            let vs0 = r@->Tuple_0;
            lemma_fields_cons(vs0, Shape::Nat, spec_sl2(Shape::Nat, SupplyUpdateCode::shape()));
            let vs1 = vs0.skip(1);
            assert(vs1 =~= seq![nat_m(me.current_amount), me.event_id.as_model()]);
            lemma_fields_cons(vs1, Shape::Nat, spec_sl1(SupplyUpdateCode::shape()));
            let vs2 = vs1.skip(1);
            assert(vs2 =~= seq![me.event_id.as_model()]);
            lemma_fields_cons(vs2, SupplyUpdateCode::shape(), ShapeList::Nil);
            let vs3 = vs2.skip(1);
            assert(vs3 =~= Seq::<ValModel>::empty());
            lemma_fields_nil(vs3);
            me.event_id.lemma_shape();
        }
        r
    }

    /// The record a conforming wire value denotes; nothing otherwise.
    pub fn from_value(v: TypedValue) -> (r: Option<SupplyUpdate>)
        ensures
            r matches Some(t) ==> t.wf() && t.as_model() == v@,
            r is Some <==> has_shape(v@, Self::shape()),
    {
        let ghost m = v@;
        let vl0 = match untuple(v) {
            Option::Some(x) => x,
            Option::None => {
                return None;
            },
        };
        let ghost w0 = view_value_list(&vl0);
        proof {
            lemma_fields_cons(w0, Shape::Nat, spec_sl2(Shape::Nat, SupplyUpdateCode::shape()));
        }
        let (supply_id, vl1) = match field_nat(vl0) {
            Option::Some(x) => x,
            Option::None => {
                return None;
            },
        };
        let ghost w1 = view_value_list(&vl1);
        proof {
            assert(w0.skip(1) =~= w1);
            lemma_fields_cons(w1, Shape::Nat, spec_sl1(SupplyUpdateCode::shape()));
        }
        let (current_amount, vl2) = match field_nat(vl1) {
            Option::Some(x) => x,
            Option::None => {
                return None;
            },
        };
        let ghost w2 = view_value_list(&vl2);
        proof {
            assert(w1.skip(1) =~= w2);
            lemma_fields_cons(w2, SupplyUpdateCode::shape(), ShapeList::Nil);
        }
        let (tag_event_id, vl3) = match field_unit_variant(vl2, 9) {
            Option::Some(x) => x,
            Option::None => {
                return None;
            },
        };
        let event_id = match SupplyUpdateCode::from_tag(tag_event_id) {
            Option::Some(x) => x,
            Option::None => {
                proof {
                    assert(false);
                }
                return None;
            },
        };
        let ghost w3 = view_value_list(&vl3);
        proof {
            assert(w2.skip(1) =~= w3);
            lemma_fields_nil(w3);
        }
        if !is_nil(&vl3) {
            return None;
        }
        proof {
            assert(w0 =~= seq![nat_m(supply_id), nat_m(current_amount), event_id.as_model()]);
        }
        Some(SupplyUpdate { supply_id, current_amount, event_id })
    }
}


/// Tokens issued for an asset.
pub struct TokensCreated {
    pub unique_asset_id: BigNat,
    pub previous_amount: BigNat,
    pub current_amount: BigNat,
}

impl TokensCreated {
    /// The wire shape of this record.
    pub open spec fn shape() -> Shape {
        Shape::Tuple(Box::new(spec_sl3(Shape::Nat, Shape::Nat, Shape::Nat)))
    }

    /// Well-formed: canonical integers and in-range addresses.
    pub open spec fn wf(&self) -> bool {
        self.unique_asset_id.wf() && self.previous_amount.wf() && self.current_amount.wf()
    }

    /// The ghost model of this record.
    pub open spec fn as_model(&self) -> ValModel {
        ValModel::Tuple(seq![nat_m(self.unique_asset_id), nat_m(self.previous_amount), nat_m(self.current_amount)])
    }

    /// The wire value of this record.
    pub fn to_value(self) -> (r: TypedValue)
        ensures
            r@ == self.as_model(),
            self.wf() ==> has_shape(r@, Self::shape()),
    {
        let ghost me = self;
        let _len_unique_asset_id: usize = self.unique_asset_id.bytes.len();
        let _len_previous_amount: usize = self.previous_amount.bytes.len();
        let _len_current_amount: usize = self.current_amount.bytes.len();
        let r = tuple3(TypedValue::Nat(self.unique_asset_id), TypedValue::Nat(self.previous_amount), TypedValue::Nat(self.current_amount));
        proof {
            let vs0 = r@->Tuple_0;
            lemma_fields_cons(vs0, Shape::Nat, spec_sl2(Shape::Nat, Shape::Nat));
            let vs1 = vs0.skip(1);
            assert(vs1 =~= seq![nat_m(me.previous_amount), nat_m(me.current_amount)]);
            lemma_fields_cons(vs1, Shape::Nat, spec_sl1(Shape::Nat));
            let vs2 = vs1.skip(1);
            assert(vs2 =~= seq![nat_m(me.current_amount)]);
            lemma_fields_cons(vs2, Shape::Nat, ShapeList::Nil);
            let vs3 = vs2.skip(1);
            assert(vs3 =~= Seq::<ValModel>::empty());
            lemma_fields_nil(vs3);
        }
        r
    }

    /// The record a conforming wire value denotes; nothing otherwise.
    pub fn from_value(v: TypedValue) -> (r: Option<TokensCreated>)
        ensures
            r matches Some(t) ==> t.wf() && t.as_model() == v@,
            r is Some <==> has_shape(v@, Self::shape()),
    {
        let ghost m = v@;
        let vl0 = match untuple(v) {
            Option::Some(x) => x,
            Option::None => {
                return None;
            },
        };
        let ghost w0 = view_value_list(&vl0);
        proof {
            lemma_fields_cons(w0, Shape::Nat, spec_sl2(Shape::Nat, Shape::Nat));
        }
        let (unique_asset_id, vl1) = match field_nat(vl0) {
            Option::Some(x) => x,
            Option::None => {
                return None;
            },
        };
        let ghost w1 = view_value_list(&vl1);
        proof {
            assert(w0.skip(1) =~= w1);
            lemma_fields_cons(w1, Shape::Nat, spec_sl1(Shape::Nat));
        }
        let (previous_amount, vl2) = match field_nat(vl1) {
            Option::Some(x) => x,
            Option::None => {
                return None;
            },
        };
        let ghost w2 = view_value_list(&vl2);
        proof {
            assert(w1.skip(1) =~= w2);
            lemma_fields_cons(w2, Shape::Nat, ShapeList::Nil);
        }
        let (current_amount, vl3) = match field_nat(vl2) {
            Option::Some(x) => x,
            Option::None => {
                return None;
            },
        };
        let ghost w3 = view_value_list(&vl3);
        proof {
            assert(w2.skip(1) =~= w3);
            lemma_fields_nil(w3);
        }
        if !is_nil(&vl3) {
            return None;
        }
        proof {
            assert(w0 =~= seq![nat_m(unique_asset_id), nat_m(previous_amount), nat_m(current_amount)]);
        }
        Some(TokensCreated { unique_asset_id, previous_amount, current_amount })
    }
}


/// Tokens destroyed for an asset.
pub struct TokensDestroyed {
    pub unique_asset_id: BigNat,
    pub previous_amount: BigNat,
    pub current_amount: BigNat,
}

impl TokensDestroyed {
    /// The wire shape of this record.
    pub open spec fn shape() -> Shape {
        Shape::Tuple(Box::new(spec_sl3(Shape::Nat, Shape::Nat, Shape::Nat)))
    }

    /// Well-formed: canonical integers and in-range addresses.
    pub open spec fn wf(&self) -> bool {
        self.unique_asset_id.wf() && self.previous_amount.wf() && self.current_amount.wf()
    }

    /// The ghost model of this record.
    pub open spec fn as_model(&self) -> ValModel {
        ValModel::Tuple(seq![nat_m(self.unique_asset_id), nat_m(self.previous_amount), nat_m(self.current_amount)])
    }

    /// The wire value of this record.
    pub fn to_value(self) -> (r: TypedValue)
        ensures
            r@ == self.as_model(),
            self.wf() ==> has_shape(r@, Self::shape()),
    {
        let ghost me = self;
        let _len_unique_asset_id: usize = self.unique_asset_id.bytes.len();
        let _len_previous_amount: usize = self.previous_amount.bytes.len();
        let _len_current_amount: usize = self.current_amount.bytes.len();
        let r = tuple3(TypedValue::Nat(self.unique_asset_id), TypedValue::Nat(self.previous_amount), TypedValue::Nat(self.current_amount));
        proof {
            let vs0 = r@->Tuple_0;
            lemma_fields_cons(vs0, Shape::Nat, spec_sl2(Shape::Nat, Shape::Nat));
            let vs1 = vs0.skip(1);
            assert(vs1 =~= seq![nat_m(me.previous_amount), nat_m(me.current_amount)]);
            lemma_fields_cons(vs1, Shape::Nat, spec_sl1(Shape::Nat));
            let vs2 = vs1.skip(1);
            assert(vs2 =~= seq![nat_m(me.current_amount)]);
            lemma_fields_cons(vs2, Shape::Nat, ShapeList::Nil);
            let vs3 = vs2.skip(1);
            assert(vs3 =~= Seq::<ValModel>::empty());
            lemma_fields_nil(vs3);
        }
        r
    }

    /// The record a conforming wire value denotes; nothing otherwise.
    pub fn from_value(v: TypedValue) -> (r: Option<TokensDestroyed>)
        ensures
            r matches Some(t) ==> t.wf() && t.as_model() == v@,
            r is Some <==> has_shape(v@, Self::shape()),
    {
        let ghost m = v@;
        let vl0 = match untuple(v) {
            Option::Some(x) => x,
            Option::None => {
                return None;
            },
        };
        let ghost w0 = view_value_list(&vl0);
        proof {
            lemma_fields_cons(w0, Shape::Nat, spec_sl2(Shape::Nat, Shape::Nat));
        }
        let (unique_asset_id, vl1) = match field_nat(vl0) {
            Option::Some(x) => x,
            Option::None => {
                return None;
            },
        };
        let ghost w1 = view_value_list(&vl1);
        proof {
            assert(w0.skip(1) =~= w1);
            lemma_fields_cons(w1, Shape::Nat, spec_sl1(Shape::Nat));
        }
        let (previous_amount, vl2) = match field_nat(vl1) {
            Option::Some(x) => x,
            Option::None => {
                return None;
            },
        };
        let ghost w2 = view_value_list(&vl2);
        proof {
            assert(w1.skip(1) =~= w2);
            lemma_fields_cons(w2, Shape::Nat, ShapeList::Nil);
        }
        let (current_amount, vl3) = match field_nat(vl2) {
            Option::Some(x) => x,
            Option::None => {
                return None;
            },
        };
        let ghost w3 = view_value_list(&vl3);
        proof {
            assert(w2.skip(1) =~= w3);
            lemma_fields_nil(w3);
        }
        if !is_nil(&vl3) {
            return None;
        }
        proof {
            assert(w0 =~= seq![nat_m(unique_asset_id), nat_m(previous_amount), nat_m(current_amount)]);
        }
        Some(TokensDestroyed { unique_asset_id, previous_amount, current_amount })
    }
}


/// An acknowledgement carrying the supply it concerns.
pub struct ResponseSupplyId {
    pub tx_id: BigNat,
    pub data: BigNat,
}

impl ResponseSupplyId {
    /// The wire shape of this record.
    pub open spec fn shape() -> Shape {
        Shape::Tuple(Box::new(spec_sl2(Shape::Nat, Shape::Nat)))
    }

    /// Well-formed: canonical integers and in-range addresses.
    pub open spec fn wf(&self) -> bool {
        self.tx_id.wf() && self.data.wf()
    }

    /// The ghost model of this record.
    pub open spec fn as_model(&self) -> ValModel {
        ValModel::Tuple(seq![nat_m(self.tx_id), nat_m(self.data)])
    }

    /// The wire value of this record.
    pub fn to_value(self) -> (r: TypedValue)
        ensures
            r@ == self.as_model(),
            self.wf() ==> has_shape(r@, Self::shape()),
    {
        let ghost me = self;
        let _len_tx_id: usize = self.tx_id.bytes.len();
        let _len_data: usize = self.data.bytes.len();
        let r = tuple2(TypedValue::Nat(self.tx_id), TypedValue::Nat(self.data));
        proof {
            let vs0 = r@->Tuple_0;
            lemma_fields_cons(vs0, Shape::Nat, spec_sl1(Shape::Nat));
            let vs1 = vs0.skip(1);
            assert(vs1 =~= seq![nat_m(me.data)]);
            lemma_fields_cons(vs1, Shape::Nat, ShapeList::Nil);
            let vs2 = vs1.skip(1);
            assert(vs2 =~= Seq::<ValModel>::empty());
            lemma_fields_nil(vs2);
        }
        r
    }

    /// The record a conforming wire value denotes; nothing otherwise.
    pub fn from_value(v: TypedValue) -> (r: Option<ResponseSupplyId>)
        ensures
            r matches Some(t) ==> t.wf() && t.as_model() == v@,
            r is Some <==> has_shape(v@, Self::shape()),
    {
        let ghost m = v@;
        let vl0 = match untuple(v) {
            Option::Some(x) => x,
            Option::None => {
                return None;
            },
        };
        let ghost w0 = view_value_list(&vl0);
        proof {
            lemma_fields_cons(w0, Shape::Nat, spec_sl1(Shape::Nat));
        }
        let (tx_id, vl1) = match field_nat(vl0) {
            Option::Some(x) => x,
            Option::None => {
                return None;
            },
        };
        let ghost w1 = view_value_list(&vl1);
        proof {
            assert(w0.skip(1) =~= w1);
            lemma_fields_cons(w1, Shape::Nat, ShapeList::Nil);
        }
        let (data, vl2) = match field_nat(vl1) {
            Option::Some(x) => x,
            Option::None => {
                return None;
            },
        };
        let ghost w2 = view_value_list(&vl2);
        proof {
            assert(w1.skip(1) =~= w2);
            lemma_fields_nil(w2);
        }
        if !is_nil(&vl2) {
            return None;
        }
        proof {
            assert(w0 =~= seq![nat_m(tx_id), nat_m(data)]);
        }
        Some(ResponseSupplyId { tx_id, data })
    }
}


/// An acknowledgement carrying the amendment it concerns.
pub struct ResponseAmendmentId {
    pub tx_id: BigNat,
    pub data: BigNat,
}

impl ResponseAmendmentId {
    /// The wire shape of this record.
    pub open spec fn shape() -> Shape {
        Shape::Tuple(Box::new(spec_sl2(Shape::Nat, Shape::Nat)))
    }

    /// Well-formed: canonical integers and in-range addresses.
    pub open spec fn wf(&self) -> bool {
        self.tx_id.wf() && self.data.wf()
    }

    /// The ghost model of this record.
    pub open spec fn as_model(&self) -> ValModel {
        ValModel::Tuple(seq![nat_m(self.tx_id), nat_m(self.data)])
    }

    /// The wire value of this record.
    pub fn to_value(self) -> (r: TypedValue)
        ensures
            r@ == self.as_model(),
            self.wf() ==> has_shape(r@, Self::shape()),
    {
        let ghost me = self;
        let _len_tx_id: usize = self.tx_id.bytes.len();
        let _len_data: usize = self.data.bytes.len();
        let r = tuple2(TypedValue::Nat(self.tx_id), TypedValue::Nat(self.data));
        proof {
            let vs0 = r@->Tuple_0;
            lemma_fields_cons(vs0, Shape::Nat, spec_sl1(Shape::Nat));
            let vs1 = vs0.skip(1);
            assert(vs1 =~= seq![nat_m(me.data)]);
            lemma_fields_cons(vs1, Shape::Nat, ShapeList::Nil);
            let vs2 = vs1.skip(1);
            assert(vs2 =~= Seq::<ValModel>::empty());
            lemma_fields_nil(vs2);
        }
        r
    }

    /// The record a conforming wire value denotes; nothing otherwise.
    pub fn from_value(v: TypedValue) -> (r: Option<ResponseAmendmentId>)
        ensures
            r matches Some(t) ==> t.wf() && t.as_model() == v@,
            r is Some <==> has_shape(v@, Self::shape()),
    {
        let ghost m = v@;
        let vl0 = match untuple(v) {
            Option::Some(x) => x,
            Option::None => {
                return None;
            },
        };
        let ghost w0 = view_value_list(&vl0);
        proof {
            lemma_fields_cons(w0, Shape::Nat, spec_sl1(Shape::Nat));
        }
        let (tx_id, vl1) = match field_nat(vl0) {
            Option::Some(x) => x,
            Option::None => {
                return None;
            },
        };
        let ghost w1 = view_value_list(&vl1);
        proof {
            assert(w0.skip(1) =~= w1);
            lemma_fields_cons(w1, Shape::Nat, ShapeList::Nil);
        }
        let (data, vl2) = match field_nat(vl1) {
            Option::Some(x) => x,
            Option::None => {
                return None;
            },
        };
        let ghost w2 = view_value_list(&vl2);
        proof {
            assert(w1.skip(1) =~= w2);
            lemma_fields_nil(w2);
        }
        if !is_nil(&vl2) {
            return None;
        }
        proof {
            assert(w0 =~= seq![nat_m(tx_id), nat_m(data)]);
        }
        Some(ResponseAmendmentId { tx_id, data })
    }
}


/// An acknowledgement carrying the contract it concerns.
pub struct ResponseContractId {
    pub tx_id: BigNat,
    pub data: BigNat,
}

impl ResponseContractId {
    /// The wire shape of this record.
    pub open spec fn shape() -> Shape {
        Shape::Tuple(Box::new(spec_sl2(Shape::Nat, Shape::Nat)))
    }

    /// Well-formed: canonical integers and in-range addresses.
    pub open spec fn wf(&self) -> bool {
        self.tx_id.wf() && self.data.wf()
    }

    /// The ghost model of this record.
    pub open spec fn as_model(&self) -> ValModel {
        ValModel::Tuple(seq![nat_m(self.tx_id), nat_m(self.data)])
    }

    /// The wire value of this record.
    pub fn to_value(self) -> (r: TypedValue)
        ensures
            r@ == self.as_model(),
            self.wf() ==> has_shape(r@, Self::shape()),
    {
        let ghost me = self;
        let _len_tx_id: usize = self.tx_id.bytes.len();
        let _len_data: usize = self.data.bytes.len();
        let r = tuple2(TypedValue::Nat(self.tx_id), TypedValue::Nat(self.data));
        proof {
            let vs0 = r@->Tuple_0;
            lemma_fields_cons(vs0, Shape::Nat, spec_sl1(Shape::Nat));
            let vs1 = vs0.skip(1);
            assert(vs1 =~= seq![nat_m(me.data)]);
            lemma_fields_cons(vs1, Shape::Nat, ShapeList::Nil);
            let vs2 = vs1.skip(1);
            assert(vs2 =~= Seq::<ValModel>::empty());
            lemma_fields_nil(vs2);
        }
        r
    }

    /// The record a conforming wire value denotes; nothing otherwise.
    pub fn from_value(v: TypedValue) -> (r: Option<ResponseContractId>)
        ensures
            r matches Some(t) ==> t.wf() && t.as_model() == v@,
            r is Some <==> has_shape(v@, Self::shape()),
    {
        let ghost m = v@;
        let vl0 = match untuple(v) {
            Option::Some(x) => x,
            Option::None => {
                return None;
            },
        };
        let ghost w0 = view_value_list(&vl0);
        proof {
            lemma_fields_cons(w0, Shape::Nat, spec_sl1(Shape::Nat));
        }
        let (tx_id, vl1) = match field_nat(vl0) {
            Option::Some(x) => x,
            Option::None => {
                return None;
            },
        };
        let ghost w1 = view_value_list(&vl1);
        proof {
            assert(w0.skip(1) =~= w1);
            lemma_fields_cons(w1, Shape::Nat, ShapeList::Nil);
        }
        let (data, vl2) = match field_nat(vl1) {
            Option::Some(x) => x,
            Option::None => {
                return None;
            },
        };
        let ghost w2 = view_value_list(&vl2);
        proof {
            assert(w1.skip(1) =~= w2);
            lemma_fields_nil(w2);
        }
        if !is_nil(&vl2) {
            return None;
        }
        proof {
            assert(w0 =~= seq![nat_m(tx_id), nat_m(data)]);
        }
        Some(ResponseContractId { tx_id, data })
    }
}


/// A stored amendment: its content hash and creation time.
pub struct Amendment {
    pub hash: Vec<u8>,
    pub created_on: u64,
}

impl Amendment {
    /// The wire shape of this record.
    pub open spec fn shape() -> Shape {
        Shape::Tuple(Box::new(spec_sl2(Shape::Bytes, Shape::N64)))
    }

    /// Well-formed: canonical integers and in-range addresses.
    pub open spec fn wf(&self) -> bool {
        true
    }

    /// The ghost model of this record.
    pub open spec fn as_model(&self) -> ValModel {
        ValModel::Tuple(seq![ValModel::Bytes(self.hash@), ValModel::N64(self.created_on)])
    }

    /// The wire value of this record.
    pub fn to_value(self) -> (r: TypedValue)
        ensures
            r@ == self.as_model(),
            self.wf() ==> has_shape(r@, Self::shape()),
    {
        let ghost me = self;
        let _len_hash: usize = self.hash.len();
        let r = tuple2(TypedValue::Bytes(self.hash), TypedValue::N64(self.created_on));
        proof {
            let vs0 = r@->Tuple_0;
            lemma_fields_cons(vs0, Shape::Bytes, spec_sl1(Shape::N64));
            let vs1 = vs0.skip(1);
            assert(vs1 =~= seq![ValModel::N64(me.created_on)]);
            lemma_fields_cons(vs1, Shape::N64, ShapeList::Nil);
            let vs2 = vs1.skip(1);
            assert(vs2 =~= Seq::<ValModel>::empty());
            lemma_fields_nil(vs2);
        }
        r
    }

    /// The record a conforming wire value denotes; nothing otherwise.
    pub fn from_value(v: TypedValue) -> (r: Option<Amendment>)
        ensures
            r matches Some(t) ==> t.wf() && t.as_model() == v@,
            r is Some <==> has_shape(v@, Self::shape()),
    {
        let ghost m = v@;
        let vl0 = match untuple(v) {
            Option::Some(x) => x,
            Option::None => {
                return None;
            },
        };
        let ghost w0 = view_value_list(&vl0);
        proof {
            lemma_fields_cons(w0, Shape::Bytes, spec_sl1(Shape::N64));
        }
        let (hash, vl1) = match field_bytes(vl0) {
            Option::Some(x) => x,
            Option::None => {
                return None;
            },
        };
        let ghost w1 = view_value_list(&vl1);
        proof {
            assert(w0.skip(1) =~= w1);
            lemma_fields_cons(w1, Shape::N64, ShapeList::Nil);
        }
        let (created_on, vl2) = match field_u64(vl1) {
            Option::Some(x) => x,
            Option::None => {
                return None;
            },
        };
        let ghost w2 = view_value_list(&vl2);
        proof {
            assert(w1.skip(1) =~= w2);
            lemma_fields_nil(w2);
        }
        if !is_nil(&vl2) {
            return None;
        }
        proof {
            assert(w0 =~= seq![ValModel::Bytes(hash@), ValModel::N64(created_on)]);
        }
        Some(Amendment { hash, created_on })
    }
}


/// The optional constraints a supply was created with.
pub struct SupplyParameters {
    pub controller: Option<BigNat>,
    pub desired_address: Option<CallerAddress>,
    pub take_all: bool,
}

impl SupplyParameters {
    /// The wire shape of this record.
    pub open spec fn shape() -> Shape {
        Shape::Tuple(Box::new(spec_sl3(Shape::Opt(Box::new(Shape::Nat)), Shape::Opt(Box::new(Shape::Address)), Shape::Bool)))
    }

    /// Well-formed: canonical integers and in-range addresses.
    pub open spec fn wf(&self) -> bool {
        opt_nat_wf(&self.controller) && opt_addr_wf(&self.desired_address)
    }

    /// The ghost model of this record.
    pub open spec fn as_model(&self) -> ValModel {
        ValModel::Tuple(seq![opt_nat_m(self.controller), opt_addr_m(self.desired_address), ValModel::Bool(self.take_all)])
    }

    /// The wire value of this record.
    pub fn to_value(self) -> (r: TypedValue)
        ensures
            r@ == self.as_model(),
            self.wf() ==> has_shape(r@, Self::shape()),
    {
        let ghost me = self;
        match &self.controller {
            Option::Some(n) => {
                let _len_controller: usize = n.bytes.len();
            },
            Option::None => {},
        }
        let r = tuple3(opt_nat_value(self.controller), opt_addr_value(self.desired_address), TypedValue::Bool(self.take_all));
        proof {
            let vs0 = r@->Tuple_0;
            lemma_fields_cons(vs0, Shape::Opt(Box::new(Shape::Nat)), spec_sl2(Shape::Opt(Box::new(Shape::Address)), Shape::Bool));
            let vs1 = vs0.skip(1);
            assert(vs1 =~= seq![opt_addr_m(me.desired_address), ValModel::Bool(me.take_all)]);
            lemma_fields_cons(vs1, Shape::Opt(Box::new(Shape::Address)), spec_sl1(Shape::Bool));
            let vs2 = vs1.skip(1);
            assert(vs2 =~= seq![ValModel::Bool(me.take_all)]);
            lemma_fields_cons(vs2, Shape::Bool, ShapeList::Nil);
            let vs3 = vs2.skip(1);
            assert(vs3 =~= Seq::<ValModel>::empty());
            lemma_fields_nil(vs3);
            lemma_has_shape_opt(opt_nat_m(me.controller), Shape::Nat);
            lemma_has_shape_opt(opt_addr_m(me.desired_address), Shape::Address);
        }
        r
    }

    /// The record a conforming wire value denotes; nothing otherwise.
    pub fn from_value(v: TypedValue) -> (r: Option<SupplyParameters>)
        ensures
            r matches Some(t) ==> t.wf() && t.as_model() == v@,
            r is Some <==> has_shape(v@, Self::shape()),
    {
        let ghost m = v@;
        let vl0 = match untuple(v) {
            Option::Some(x) => x,
            Option::None => {
                return None;
            },
        };
        let ghost w0 = view_value_list(&vl0);
        proof {
            lemma_fields_cons(w0, Shape::Opt(Box::new(Shape::Nat)), spec_sl2(Shape::Opt(Box::new(Shape::Address)), Shape::Bool));
        }
        let (controller, vl1) = match field_opt_nat(vl0) {
            Option::Some(x) => x,
            Option::None => {
                return None;
            },
        };
        let ghost w1 = view_value_list(&vl1);
        proof {
            assert(w0.skip(1) =~= w1);
            lemma_fields_cons(w1, Shape::Opt(Box::new(Shape::Address)), spec_sl1(Shape::Bool));
        }
        let (desired_address, vl2) = match field_opt_addr(vl1) {
            Option::Some(x) => x,
            Option::None => {
                return None;
            },
        };
        let ghost w2 = view_value_list(&vl2);
        proof {
            assert(w1.skip(1) =~= w2);
            lemma_fields_cons(w2, Shape::Bool, ShapeList::Nil);
        }
        let (take_all, vl3) = match field_bool(vl2) {
            Option::Some(x) => x,
            Option::None => {
                return None;
            },
        };
        let ghost w3 = view_value_list(&vl3);
        proof {
            assert(w2.skip(1) =~= w3);
            lemma_fields_nil(w3);
        }
        if !is_nil(&vl3) {
            return None;
        }
        proof {
            assert(w0 =~= seq![opt_nat_m(controller), opt_addr_m(desired_address), ValModel::Bool(take_all)]);
        }
        Some(SupplyParameters { controller, desired_address, take_all })
    }
}


/// The arguments of a supply creation.
pub struct CreateSupplyRequest {
    pub controller: Option<BigNat>,
    pub desired: BigNat,
    pub receiver_address: Option<CallerAddress>,
    pub ext_ref: u32,
    pub valid_until: u64,
    pub offered: BigNat,
    pub take_all: bool,
    pub max_amount: BigNat,
    pub exchange_rate: BigNat,
}

impl CreateSupplyRequest {
    /// The wire shape of this record.
    pub open spec fn shape() -> Shape {
        Shape::Tuple(Box::new(spec_sl9(Shape::Opt(Box::new(Shape::Nat)), Shape::Nat, Shape::Opt(Box::new(Shape::Address)), Shape::N32, Shape::N64, Shape::Nat, Shape::Bool, Shape::Nat, Shape::Nat)))
    }

    /// Well-formed: canonical integers and in-range addresses.
    pub open spec fn wf(&self) -> bool {
        opt_nat_wf(&self.controller) && self.desired.wf() && opt_addr_wf(&self.receiver_address) && self.offered.wf() && self.max_amount.wf() && self.exchange_rate.wf()
    }

    /// The ghost model of this record.
    pub open spec fn as_model(&self) -> ValModel {
        ValModel::Tuple(seq![opt_nat_m(self.controller), nat_m(self.desired), opt_addr_m(self.receiver_address), ValModel::N32(self.ext_ref), ValModel::N64(self.valid_until), nat_m(self.offered), ValModel::Bool(self.take_all), nat_m(self.max_amount), nat_m(self.exchange_rate)])
    }

    /// The wire value of this record.
    pub fn to_value(self) -> (r: TypedValue)
        ensures
            r@ == self.as_model(),
            self.wf() ==> has_shape(r@, Self::shape()),
    {
        let ghost me = self;
        match &self.controller {
            Option::Some(n) => {
                let _len_controller: usize = n.bytes.len();
            },
            Option::None => {},
        }
        let _len_desired: usize = self.desired.bytes.len();
        let _len_offered: usize = self.offered.bytes.len();
        let _len_max_amount: usize = self.max_amount.bytes.len();
        let _len_exchange_rate: usize = self.exchange_rate.bytes.len();
        let r = tuple9(opt_nat_value(self.controller), TypedValue::Nat(self.desired), opt_addr_value(self.receiver_address), TypedValue::N32(self.ext_ref), TypedValue::N64(self.valid_until), TypedValue::Nat(self.offered), TypedValue::Bool(self.take_all), TypedValue::Nat(self.max_amount), TypedValue::Nat(self.exchange_rate));
        proof {
            let vs0 = r@->Tuple_0;
            lemma_fields_cons(vs0, Shape::Opt(Box::new(Shape::Nat)), spec_sl8(Shape::Nat, Shape::Opt(Box::new(Shape::Address)), Shape::N32, Shape::N64, Shape::Nat, Shape::Bool, Shape::Nat, Shape::Nat));
            let vs1 = vs0.skip(1);
            assert(vs1 =~= seq![nat_m(me.desired), opt_addr_m(me.receiver_address), ValModel::N32(me.ext_ref), ValModel::N64(me.valid_until), nat_m(me.offered), ValModel::Bool(me.take_all), nat_m(me.max_amount), nat_m(me.exchange_rate)]);
            lemma_fields_cons(vs1, Shape::Nat, spec_sl7(Shape::Opt(Box::new(Shape::Address)), Shape::N32, Shape::N64, Shape::Nat, Shape::Bool, Shape::Nat, Shape::Nat));
            let vs2 = vs1.skip(1);
            assert(vs2 =~= seq![opt_addr_m(me.receiver_address), ValModel::N32(me.ext_ref), ValModel::N64(me.valid_until), nat_m(me.offered), ValModel::Bool(me.take_all), nat_m(me.max_amount), nat_m(me.exchange_rate)]);
            lemma_fields_cons(vs2, Shape::Opt(Box::new(Shape::Address)), spec_sl6(Shape::N32, Shape::N64, Shape::Nat, Shape::Bool, Shape::Nat, Shape::Nat));
            let vs3 = vs2.skip(1);
            assert(vs3 =~= seq![ValModel::N32(me.ext_ref), ValModel::N64(me.valid_until), nat_m(me.offered), ValModel::Bool(me.take_all), nat_m(me.max_amount), nat_m(me.exchange_rate)]);
            lemma_fields_cons(vs3, Shape::N32, spec_sl5(Shape::N64, Shape::Nat, Shape::Bool, Shape::Nat, Shape::Nat));
            let vs4 = vs3.skip(1);
            assert(vs4 =~= seq![ValModel::N64(me.valid_until), nat_m(me.offered), ValModel::Bool(me.take_all), nat_m(me.max_amount), nat_m(me.exchange_rate)]);
            lemma_fields_cons(vs4, Shape::N64, spec_sl4(Shape::Nat, Shape::Bool, Shape::Nat, Shape::Nat));
            let vs5 = vs4.skip(1);
            assert(vs5 =~= seq![nat_m(me.offered), ValModel::Bool(me.take_all), nat_m(me.max_amount), nat_m(me.exchange_rate)]);
            lemma_fields_cons(vs5, Shape::Nat, spec_sl3(Shape::Bool, Shape::Nat, Shape::Nat));
            let vs6 = vs5.skip(1);
            assert(vs6 =~= seq![ValModel::Bool(me.take_all), nat_m(me.max_amount), nat_m(me.exchange_rate)]);
            lemma_fields_cons(vs6, Shape::Bool, spec_sl2(Shape::Nat, Shape::Nat));
            let vs7 = vs6.skip(1);
            assert(vs7 =~= seq![nat_m(me.max_amount), nat_m(me.exchange_rate)]);
            lemma_fields_cons(vs7, Shape::Nat, spec_sl1(Shape::Nat));
            let vs8 = vs7.skip(1);
            assert(vs8 =~= seq![nat_m(me.exchange_rate)]);
            lemma_fields_cons(vs8, Shape::Nat, ShapeList::Nil);
            let vs9 = vs8.skip(1);
            assert(vs9 =~= Seq::<ValModel>::empty());
            lemma_fields_nil(vs9);
            lemma_has_shape_opt(opt_nat_m(me.controller), Shape::Nat);
            lemma_has_shape_opt(opt_addr_m(me.receiver_address), Shape::Address);
        }
        r
    }
}


/// A stored asset: its kind, content hash, creation time and issuer.
pub struct Asset {
    pub bitwise: bool,
    pub hash: Option<Vec<u8>>,
    pub created_on: Option<u64>,
    pub issuer: CallerAddress,
}

impl Asset {
    /// The wire shape of this record.
    pub open spec fn shape() -> Shape {
        Shape::Tuple(Box::new(spec_sl4(Shape::Bool, Shape::Opt(Box::new(Shape::Bytes)), Shape::Opt(Box::new(Shape::N64)), Shape::Address)))
    }

    /// Well-formed: canonical integers and in-range addresses.
    pub open spec fn wf(&self) -> bool {
        self.issuer.wf()
    }

    /// The ghost model of this record.
    pub open spec fn as_model(&self) -> ValModel {
        ValModel::Tuple(seq![ValModel::Bool(self.bitwise), opt_bytes_m(self.hash), opt_u64_m(self.created_on), addr_m(self.issuer)])
    }

    /// The wire value of this record.
    pub fn to_value(self) -> (r: TypedValue)
        ensures
            r@ == self.as_model(),
            self.wf() ==> has_shape(r@, Self::shape()),
    {
        let ghost me = self;
        match &self.hash {
            Option::Some(b) => {
                let _len_hash: usize = b.len();
            },
            Option::None => {},
        }
        let r = tuple4(TypedValue::Bool(self.bitwise), opt_bytes_value(self.hash), opt_u64_value(self.created_on), TypedValue::Address(self.issuer.bytes));
        proof {
            let vs0 = r@->Tuple_0;
            lemma_fields_cons(vs0, Shape::Bool, spec_sl3(Shape::Opt(Box::new(Shape::Bytes)), Shape::Opt(Box::new(Shape::N64)), Shape::Address));
            let vs1 = vs0.skip(1);
            assert(vs1 =~= seq![opt_bytes_m(me.hash), opt_u64_m(me.created_on), addr_m(me.issuer)]);
            lemma_fields_cons(vs1, Shape::Opt(Box::new(Shape::Bytes)), spec_sl2(Shape::Opt(Box::new(Shape::N64)), Shape::Address));
            let vs2 = vs1.skip(1);
            assert(vs2 =~= seq![opt_u64_m(me.created_on), addr_m(me.issuer)]);
            lemma_fields_cons(vs2, Shape::Opt(Box::new(Shape::N64)), spec_sl1(Shape::Address));
            let vs3 = vs2.skip(1);
            assert(vs3 =~= seq![addr_m(me.issuer)]);
            lemma_fields_cons(vs3, Shape::Address, ShapeList::Nil);
            let vs4 = vs3.skip(1);
            assert(vs4 =~= Seq::<ValModel>::empty());
            lemma_fields_nil(vs4);
            lemma_has_shape_opt(opt_bytes_m(me.hash), Shape::Bytes);
            lemma_has_shape_opt(opt_u64_m(me.created_on), Shape::N64);
        }
        r
    }

    /// The record a conforming wire value denotes; nothing otherwise.
    pub fn from_value(v: TypedValue) -> (r: Option<Asset>)
        ensures
            r matches Some(t) ==> t.wf() && t.as_model() == v@,
            r is Some <==> has_shape(v@, Self::shape()),
    {
        let ghost m = v@;
        let vl0 = match untuple(v) {
            Option::Some(x) => x,
            Option::None => {
                return None;
            },
        };
        let ghost w0 = view_value_list(&vl0);
        proof {
            lemma_fields_cons(w0, Shape::Bool, spec_sl3(Shape::Opt(Box::new(Shape::Bytes)), Shape::Opt(Box::new(Shape::N64)), Shape::Address));
        }
        let (bitwise, vl1) = match field_bool(vl0) {
            Option::Some(x) => x,
            Option::None => {
                return None;
            },
        };
        let ghost w1 = view_value_list(&vl1);
        proof {
            assert(w0.skip(1) =~= w1);
            lemma_fields_cons(w1, Shape::Opt(Box::new(Shape::Bytes)), spec_sl2(Shape::Opt(Box::new(Shape::N64)), Shape::Address));
        }
        let (hash, vl2) = match field_opt_bytes(vl1) {
            Option::Some(x) => x,
            Option::None => {
                return None;
            },
        };
        let ghost w2 = view_value_list(&vl2);
        proof {
            assert(w1.skip(1) =~= w2);
            lemma_fields_cons(w2, Shape::Opt(Box::new(Shape::N64)), spec_sl1(Shape::Address));
        }
        let (created_on, vl3) = match field_opt_u64(vl2) {
            Option::Some(x) => x,
            Option::None => {
                return None;
            },
        };
        let ghost w3 = view_value_list(&vl3);
        proof {
            assert(w2.skip(1) =~= w3);
            lemma_fields_cons(w3, Shape::Address, ShapeList::Nil);
        }
        let (issuer, vl4) = match field_addr(vl3) {
            Option::Some(x) => x,
            Option::None => {
                return None;
            },
        };
        let ghost w4 = view_value_list(&vl4);
        proof {
            assert(w3.skip(1) =~= w4);
            lemma_fields_nil(w4);
        }
        if !is_nil(&vl4) {
            return None;
        }
        proof {
            assert(w0 =~= seq![ValModel::Bool(bitwise), opt_bytes_m(hash), opt_u64_m(created_on), addr_m(issuer)]);
        }
        Some(Asset { bitwise, hash, created_on, issuer })
    }
}


/// One event within a transaction.
pub struct TransactionEvent {
    pub contract_id: Option<BigNat>,
    pub ledger_id: Option<u16>,
    pub event_ix: u64,
    pub event_type: EventType,
}

impl TransactionEvent {
    /// The wire shape of this record.
    pub open spec fn shape() -> Shape {
        Shape::Tuple(Box::new(spec_sl4(Shape::Opt(Box::new(Shape::Nat)), Shape::Opt(Box::new(Shape::N16)), Shape::N64, EventType::shape())))
    }

    /// Well-formed: canonical integers and in-range addresses.
    pub open spec fn wf(&self) -> bool {
        opt_nat_wf(&self.contract_id)
    }

    /// The ghost model of this record.
    pub open spec fn as_model(&self) -> ValModel {
        ValModel::Tuple(seq![opt_nat_m(self.contract_id), opt_u16_m(self.ledger_id), ValModel::N64(self.event_ix), self.event_type.as_model()])
    }

    /// The wire value of this record.
    pub fn to_value(self) -> (r: TypedValue)
        ensures
            r@ == self.as_model(),
            self.wf() ==> has_shape(r@, Self::shape()),
    {
        let ghost me = self;
        match &self.contract_id {
            Option::Some(n) => {
                let _len_contract_id: usize = n.bytes.len();
            },
            Option::None => {},
        }
        let r = tuple4(opt_nat_value(self.contract_id), opt_u16_value(self.ledger_id), TypedValue::N64(self.event_ix), self.event_type.to_value());
        proof {
            let vs0 = r@->Tuple_0;
            lemma_fields_cons(vs0, Shape::Opt(Box::new(Shape::Nat)), spec_sl3(Shape::Opt(Box::new(Shape::N16)), Shape::N64, EventType::shape()));
            let vs1 = vs0.skip(1);
            assert(vs1 =~= seq![opt_u16_m(me.ledger_id), ValModel::N64(me.event_ix), me.event_type.as_model()]);
            lemma_fields_cons(vs1, Shape::Opt(Box::new(Shape::N16)), spec_sl2(Shape::N64, EventType::shape()));
            let vs2 = vs1.skip(1);
            assert(vs2 =~= seq![ValModel::N64(me.event_ix), me.event_type.as_model()]);
            lemma_fields_cons(vs2, Shape::N64, spec_sl1(EventType::shape()));
            let vs3 = vs2.skip(1);
            assert(vs3 =~= seq![me.event_type.as_model()]);
            lemma_fields_cons(vs3, EventType::shape(), ShapeList::Nil);
            let vs4 = vs3.skip(1);
            assert(vs4 =~= Seq::<ValModel>::empty());
            lemma_fields_nil(vs4);
            lemma_has_shape_opt(opt_nat_m(me.contract_id), Shape::Nat);
            lemma_has_shape_opt(opt_u16_m(me.ledger_id), Shape::N16);
            me.event_type.lemma_shape();
        }
        r
    }

    /// The record a conforming wire value denotes; nothing otherwise.
    pub fn from_value(v: TypedValue) -> (r: Option<TransactionEvent>)
        ensures
            r matches Some(t) ==> t.wf() && t.as_model() == v@,
            r is Some <==> has_shape(v@, Self::shape()),
    {
        let ghost m = v@;
        let vl0 = match untuple(v) {
            Option::Some(x) => x,
            Option::None => {
                return None;
            },
        };
        let ghost w0 = view_value_list(&vl0);
        proof {
            lemma_fields_cons(w0, Shape::Opt(Box::new(Shape::Nat)), spec_sl3(Shape::Opt(Box::new(Shape::N16)), Shape::N64, EventType::shape()));
        }
        let (contract_id, vl1) = match field_opt_nat(vl0) {
            Option::Some(x) => x,
            Option::None => {
                return None;
            },
        };
        let ghost w1 = view_value_list(&vl1);
        proof {
            assert(w0.skip(1) =~= w1);
            lemma_fields_cons(w1, Shape::Opt(Box::new(Shape::N16)), spec_sl2(Shape::N64, EventType::shape()));
        }
        let (ledger_id, vl2) = match field_opt_u16(vl1) {
            Option::Some(x) => x,
            Option::None => {
                return None;
            },
        };
        let ghost w2 = view_value_list(&vl2);
        proof {
            assert(w1.skip(1) =~= w2);
            lemma_fields_cons(w2, Shape::N64, spec_sl1(EventType::shape()));
        }
        let (event_ix, vl3) = match field_u64(vl2) {
            Option::Some(x) => x,
            Option::None => {
                return None;
            },
        };
        let ghost w3 = view_value_list(&vl3);
        proof {
            assert(w2.skip(1) =~= w3);
            lemma_fields_cons(w3, EventType::shape(), ShapeList::Nil);
        }
        let (tag_event_type, vl4) = match field_unit_variant(vl3, 15) {
            Option::Some(x) => x,
            Option::None => {
                return None;
            },
        };
        let event_type = match EventType::from_tag(tag_event_type) {
            Option::Some(x) => x,
            Option::None => {
                proof {
                    assert(false);
                }
                return None;
            },
        };
        let ghost w4 = view_value_list(&vl4);
        proof {
            assert(w3.skip(1) =~= w4);
            lemma_fields_nil(w4);
        }
        if !is_nil(&vl4) {
            return None;
        }
        proof {
            assert(w0 =~= seq![opt_nat_m(contract_id), opt_u16_m(ledger_id), ValModel::N64(event_ix), event_type.as_model()]);
        }
        Some(TransactionEvent { contract_id, ledger_id, event_ix, event_type })
    }
}

/// A standing supply: its open amount, owner, optional constraints, expiry
/// and exchange rate.
pub struct Supply {
    pub open_amount: BigNat,
    pub owner: CallerAddress,
    pub parameters: Option<SupplyParameters>,
    pub valid_until: u64,
    pub exchange_rate: BigNat,
}

impl Supply {
    /// The wire shape of this record.
    pub open spec fn shape() -> Shape {
        Shape::Tuple(
            Box::new(
                spec_sl5(
                    Shape::Nat,
                    Shape::Address,
                    Shape::Opt(Box::new(SupplyParameters::shape())),
                    Shape::N64,
                    Shape::Nat,
                ),
            ),
        )
    }

    /// Well-formed: canonical integers and in-range addresses.
    pub open spec fn wf(&self) -> bool {
        self.open_amount.wf() && self.owner.wf() && (match self.parameters {
            Option::None => true,
            Option::Some(p) => p.wf(),
        }) && self.exchange_rate.wf()
    }

    /// The ghost model of this record.
    pub open spec fn as_model(&self) -> ValModel {
        ValModel::Tuple(
            seq![
                nat_m(self.open_amount),
                addr_m(self.owner),
                match self.parameters {
                    Option::None => ValModel::OptNone,
                    Option::Some(p) => ValModel::OptSome(Box::new(p.as_model())),
                },
                ValModel::N64(self.valid_until),
                nat_m(self.exchange_rate),
            ],
        )
    }

    /// The record a conforming wire value denotes; nothing otherwise.
    pub fn from_value(v: TypedValue) -> (r: Option<Supply>)
        ensures
            r matches Some(t) ==> t.wf() && t.as_model() == v@,
            r is Some <==> has_shape(v@, Self::shape()),
    {
        let ghost m = v@;
        let vl0 = match untuple(v) {
            Option::Some(x) => x,
            Option::None => {
                return None;
            },
        };
        let ghost w0 = view_value_list(&vl0);
        proof {
            lemma_fields_cons(
                w0,
                Shape::Nat,
                spec_sl4(
                    Shape::Address,
                    Shape::Opt(Box::new(SupplyParameters::shape())),
                    Shape::N64,
                    Shape::Nat,
                ),
            );
        }
        let (open_amount, vl1) = match field_nat(vl0) {
            Option::Some(x) => x,
            Option::None => {
                return None;
            },
        };
        let ghost w1 = view_value_list(&vl1);
        proof {
            assert(w0.skip(1) =~= w1);
            lemma_fields_cons(
                w1,
                Shape::Address,
                spec_sl3(Shape::Opt(Box::new(SupplyParameters::shape())), Shape::N64, Shape::Nat),
            );
        }
        let (owner, vl2) = match field_addr(vl1) {
            Option::Some(x) => x,
            Option::None => {
                return None;
            },
        };
        let ghost w2 = view_value_list(&vl2);
        proof {
            assert(w1.skip(1) =~= w2);
            lemma_fields_cons(
                w2,
                Shape::Opt(Box::new(SupplyParameters::shape())),
                spec_sl2(Shape::N64, Shape::Nat),
            );
        }
        let (pv, vl3) = match uncons(vl2) {
            Option::Some(x) => x,
            Option::None => {
                return None;
            },
        };
        let ghost pm = pv@;
        let ghost w3 = view_value_list(&vl3);
        proof {
            assert(w2[0] == pm);
            assert(w2.skip(1) =~= w3);
            lemma_has_shape_opt(pm, SupplyParameters::shape());
            lemma_fields_cons(w3, Shape::N64, spec_sl1(Shape::Nat));
        }
        let parameters: Option<SupplyParameters> = match unopt(pv) {
            Option::None => {
                return None;
            },
            Option::Some(inner) => match inner {
                Option::None => {
                    proof {
                        assert(pm == ValModel::OptNone);
                    }
                    None
                },
                Option::Some(payload) => match SupplyParameters::from_value(payload) {
                    Option::None => {
                        return None;
                    },
                    Option::Some(sp) => {
                        proof {
                            assert(sp.wf());
                            assert(pm == ValModel::OptSome(Box::new(sp.as_model())));
                        }
                        Some(sp)
                    },
                },
            },
        };
        let (valid_until, vl4) = match field_u64(vl3) {
            Option::Some(x) => x,
            Option::None => {
                return None;
            },
        };
        let ghost w4 = view_value_list(&vl4);
        proof {
            assert(w3.skip(1) =~= w4);
            lemma_fields_cons(w4, Shape::Nat, ShapeList::Nil);
        }
        let (exchange_rate, vl5) = match field_nat(vl4) {
            Option::Some(x) => x,
            Option::None => {
                return None;
            },
        };
        let ghost w5 = view_value_list(&vl5);
        proof {
            assert(w4.skip(1) =~= w5);
            lemma_fields_nil(w5);
        }
        if !is_nil(&vl5) {
            return None;
        }
        let result = Supply { open_amount, owner, parameters, valid_until, exchange_rate };
        proof {
            assert(match result.parameters {
                Option::None => ValModel::OptNone,
                Option::Some(p) => ValModel::OptSome(Box::new(p.as_model())),
            } == pm);
            assert(w0 =~= seq![
                nat_m(result.open_amount),
                addr_m(result.owner),
                match result.parameters {
                    Option::None => ValModel::OptNone,
                    Option::Some(p) => ValModel::OptSome(Box::new(p.as_model())),
                },
                ValModel::N64(result.valid_until),
                nat_m(result.exchange_rate),
            ]);
        }
        Some(result)
    }
}

/// Converts a parsed element list into transaction events, accepting
/// exactly the lists whose every element conforms to the event shape.
pub fn events_from_list(vl: ValueList) -> (r: Option<Vec<TransactionEvent>>)
    ensures
        r matches Some(es) ==> view_value_list(&vl).len() == es@.len() && (forall|i: int|
            0 <= i < es@.len() ==> view_value_list(&vl)[i] == #[trigger] es@[i].as_model()
                && es@[i].wf()),
        r is Some <==> (forall|i: int|
            0 <= i < view_value_list(&vl).len() ==> has_shape(
                #[trigger] view_value_list(&vl)[i],
                TransactionEvent::shape(),
            )),
    decreases vl,
{
    let ghost w = view_value_list(&vl);
    match vl {
        ValueList::Nil => Some(Vec::new()),
        ValueList::Cons(h, t) => {
            let ghost hm = view_value(&h);
            let ghost tw = view_value_list(&t);
            proof {
                assert(w[0] == hm);
                assert(w.skip(1) =~= tw);
                assert(forall|i: int| 0 <= i < tw.len() ==> w[i + 1] == #[trigger] tw[i]);
            }
            let e = match TransactionEvent::from_value(h) {
                Option::Some(x) => x,
                Option::None => {
                    return None;
                },
            };
            match events_from_list(*t) {
                Option::None => {
                    proof {
                        let j = choose|j: int|
                            0 <= j < tw.len() && !has_shape(
                                #[trigger] tw[j],
                                TransactionEvent::shape(),
                            );
                        assert(w[j + 1] == tw[j]);
                    }
                    None
                },
                Option::Some(mut es) => {
                    es.insert(0, e);
                    proof {
                        assert forall|i: int| 0 <= i < w.len() implies has_shape(
                            #[trigger] w[i],
                            TransactionEvent::shape(),
                        ) by {
                            if i > 0 {
                                assert(w[i] == tw[i - 1]);
                            }
                        }
                    }
                    Some(es)
                },
            }
        },
    }
}

/// A recorded transaction: when it occurred, its identifier, and its events.
pub struct Transaction {
    pub occured_on: u64,
    pub tx_id: BigNat,
    pub events: Vec<TransactionEvent>,
}

impl Transaction {
    /// The wire shape of this record.
    pub open spec fn shape() -> Shape {
        Shape::Tuple(
            Box::new(
                spec_sl3(
                    Shape::N64,
                    Shape::Nat,
                    Shape::List(Box::new(TransactionEvent::shape())),
                ),
            ),
        )
    }

    /// Well-formed: canonical integers, in every event too.
    pub open spec fn wf(&self) -> bool {
        self.tx_id.wf() && (forall|i: int|
            0 <= i < self.events@.len() ==> (#[trigger] self.events@[i]).wf())
    }

    /// The ghost model of this record.
    pub open spec fn as_model(&self) -> ValModel {
        ValModel::Tuple(
            seq![
                ValModel::N64(self.occured_on),
                nat_m(self.tx_id),
                ValModel::List(
                    Seq::new(self.events@.len(), |i: int| self.events@[i].as_model()),
                ),
            ],
        )
    }

    /// The record a conforming wire value denotes; nothing otherwise.
    pub fn from_value(v: TypedValue) -> (r: Option<Transaction>)
        ensures
            r matches Some(t) ==> t.wf() && t.as_model() == v@,
            r is Some <==> has_shape(v@, Self::shape()),
    {
        let ghost m = v@;
        let vl0 = match untuple(v) {
            Option::Some(x) => x,
            Option::None => {
                return None;
            },
        };
        let ghost w0 = view_value_list(&vl0);
        proof {
            lemma_fields_cons(
                w0,
                Shape::N64,
                spec_sl2(Shape::Nat, Shape::List(Box::new(TransactionEvent::shape()))),
            );
        }
        let (occured_on, vl1) = match field_u64(vl0) {
            Option::Some(x) => x,
            Option::None => {
                return None;
            },
        };
        let ghost w1 = view_value_list(&vl1);
        proof {
            assert(w0.skip(1) =~= w1);
            lemma_fields_cons(
                w1,
                Shape::Nat,
                spec_sl1(Shape::List(Box::new(TransactionEvent::shape()))),
            );
        }
        let (tx_id, vl2) = match field_nat(vl1) {
            Option::Some(x) => x,
            Option::None => {
                return None;
            },
        };
        let ghost w2 = view_value_list(&vl2);
        proof {
            assert(w1.skip(1) =~= w2);
            lemma_fields_cons(
                w2,
                Shape::List(Box::new(TransactionEvent::shape())),
                ShapeList::Nil,
            );
        }
        let (lv, vl3) = match uncons(vl2) {
            Option::Some(x) => x,
            Option::None => {
                return None;
            },
        };
        let ghost lm = lv@;
        let ghost w3 = view_value_list(&vl3);
        proof {
            assert(w2[0] == lm);
            assert(w2.skip(1) =~= w3);
            lemma_fields_nil(w3);
        }
        let elements = match unlist(lv) {
            Option::Some(x) => x,
            Option::None => {
                return None;
            },
        };
        let ghost ew = view_value_list(&elements);
        let events = match events_from_list(elements) {
            Option::Some(x) => x,
            Option::None => {
                return None;
            },
        };
        let _count: usize = events.len();
        proof {
            assert(ew.len() == events@.len());
        }
        if !is_nil(&vl3) {
            return None;
        }
        let result = Transaction { occured_on, tx_id, events };
        proof {
            assert forall|i: int| 0 <= i < result.events@.len() implies (
            #[trigger] result.events@[i]).wf() by {
                assert(ew[i] == result.events@[i].as_model());
            }
            assert(Seq::new(result.events@.len(), |i: int| result.events@[i].as_model()) =~= ew);
            assert(w0 =~= seq![
                ValModel::N64(result.occured_on),
                nat_m(result.tx_id),
                ValModel::List(ew),
            ]);
        }
        Some(result)
    }
}

/// Builds the wire list of integers from a vector, starting at `from`.
pub fn nat_list_from(v: &Vec<BigNat>, from: usize) -> (r: ValueList)
    requires
        from <= v@.len(),
    ensures
        view_value_list(&r).len() == v@.len() - from,
        forall|i: int|
            0 <= i < v@.len() - from ==> #[trigger] view_value_list(&r)[i] == nat_m(v@[from + i])
                && (v@[from + i].wf() ==> has_shape(view_value_list(&r)[i], Shape::Nat)),
    decreases v@.len() - from,
{
    if from == v.len() {
        ValueList::Nil
    } else {
        let n = v[from].duplicate();
        let rest = nat_list_from(v, from + 1);
        let ghost rw = view_value_list(&rest);
        let hv = TypedValue::Nat(n);
        let ghost hm = hv@;
        let r = ValueList::Cons(hv, Box::new(rest));
        proof {
            assert(view_value_list(&r) =~= seq![hm] + rw);
            assert(forall|i: int|
                1 <= i < v@.len() - from ==> view_value_list(&r)[i] == #[trigger] rw[i - 1]);
        }
        r
    }
}

/// Builds the wire list of addresses from a vector, starting at `from`.
pub fn addr_list_from(v: &Vec<CallerAddress>, from: usize) -> (r: ValueList)
    requires
        from <= v@.len(),
    ensures
        view_value_list(&r).len() == v@.len() - from,
        forall|i: int|
            0 <= i < v@.len() - from ==> #[trigger] view_value_list(&r)[i] == addr_m(v@[from + i])
                && (v@[from + i].wf() ==> has_shape(view_value_list(&r)[i], Shape::Address)),
    decreases v@.len() - from,
{
    if from == v.len() {
        ValueList::Nil
    } else {
        let a = v[from].duplicate();
        let rest = addr_list_from(v, from + 1);
        let ghost rw = view_value_list(&rest);
        let hv = TypedValue::Address(a.bytes);
        let ghost hm = hv@;
        let r = ValueList::Cons(hv, Box::new(rest));
        proof {
            assert(view_value_list(&r) =~= seq![hm] + rw);
            assert(forall|i: int|
                1 <= i < v@.len() - from ==> view_value_list(&r)[i] == #[trigger] rw[i - 1]);
        }
        r
    }
}

/// Builds the wire list of 8-bit values from a vector, starting at `from`.
pub fn u8_list_from(v: &Vec<u8>, from: usize) -> (r: ValueList)
    requires
        from <= v@.len(),
    ensures
        view_value_list(&r).len() == v@.len() - from,
        forall|i: int|
            0 <= i < v@.len() - from ==> #[trigger] view_value_list(&r)[i] == ValModel::N8(
                v@[from + i],
            ) && has_shape(view_value_list(&r)[i], Shape::N8),
    decreases v@.len() - from,
{
    if from == v.len() {
        ValueList::Nil
    } else {
        let hv = TypedValue::N8(v[from]);
        let rest = u8_list_from(v, from + 1);
        let ghost rw = view_value_list(&rest);
        let ghost hm = hv@;
        let r = ValueList::Cons(hv, Box::new(rest));
        proof {
            assert(view_value_list(&r) =~= seq![hm] + rw);
            assert(forall|i: int|
                1 <= i < v@.len() - from ==> view_value_list(&r)[i] == #[trigger] rw[i - 1]);
        }
        r
    }
}

/// The arguments of a warp run: the input amount, an optional target, and
/// the supplies to run through, in order.
pub struct RunWarpRequest {
    pub input_amount: BigNat,
    pub target_address: Option<CallerAddress>,
    pub supplies: Vec<BigNat>,
}

impl RunWarpRequest {
    /// The wire shape of this record.
    pub open spec fn shape() -> Shape {
        Shape::Tuple(
            Box::new(
                spec_sl3(
                    Shape::Nat,
                    Shape::Opt(Box::new(Shape::Address)),
                    Shape::List(Box::new(Shape::Nat)),
                ),
            ),
        )
    }

    /// Well-formed: canonical integers throughout, in-range address.
    pub open spec fn wf(&self) -> bool {
        self.input_amount.wf() && opt_addr_wf(&self.target_address) && (forall|i: int|
            0 <= i < self.supplies@.len() ==> (#[trigger] self.supplies@[i]).wf())
    }

    /// The ghost model of this record.
    pub open spec fn as_model(&self) -> ValModel {
        ValModel::Tuple(
            seq![
                nat_m(self.input_amount),
                opt_addr_m(self.target_address),
                ValModel::List(
                    Seq::new(self.supplies@.len(), |i: int| nat_m(self.supplies@[i])),
                ),
            ],
        )
    }

    /// The wire value of this record.
    pub fn to_value(self) -> (r: TypedValue)
        ensures
            r@ == self.as_model(),
            self.wf() ==> has_shape(r@, Self::shape()),
    {
        let ghost me = self;
        let _len_input: usize = self.input_amount.bytes.len();
        let _len_supplies: usize = self.supplies.len();
        let lst = nat_list_from(&self.supplies, 0);
        let ghost lw = view_value_list(&lst);
        let r = tuple3(
            TypedValue::Nat(self.input_amount),
            opt_addr_value(self.target_address),
            TypedValue::List(Box::new(lst)),
        );
        proof {
            assert(lw =~= Seq::new(me.supplies@.len(), |i: int| nat_m(me.supplies@[i])));
            let vs0 = r@->Tuple_0;
            lemma_fields_cons(
                vs0,
                Shape::Nat,
                spec_sl2(Shape::Opt(Box::new(Shape::Address)), Shape::List(Box::new(Shape::Nat))),
            );
            let vs1 = vs0.skip(1);
            assert(vs1 =~= seq![opt_addr_m(me.target_address), ValModel::List(lw)]);
            lemma_fields_cons(
                vs1,
                Shape::Opt(Box::new(Shape::Address)),
                spec_sl1(Shape::List(Box::new(Shape::Nat))),
            );
            let vs2 = vs1.skip(1);
            assert(vs2 =~= seq![ValModel::List(lw)]);
            lemma_fields_cons(vs2, Shape::List(Box::new(Shape::Nat)), ShapeList::Nil);
            let vs3 = vs2.skip(1);
            assert(vs3 =~= Seq::<ValModel>::empty());
            lemma_fields_nil(vs3);
            lemma_has_shape_opt(opt_addr_m(me.target_address), Shape::Address);
        }
        r
    }
}


impl AssetUpdateCode {
    /// Builds the wire shape of this kind.
    pub fn build_shape() -> (s: Shape)
        ensures
            s == Self::shape(),
    {
        Shape::Variant(Box::new(unit_variants(8)))
    }
}

impl SupplyUpdateCode {
    /// Builds the wire shape of this kind.
    pub fn build_shape() -> (s: Shape)
        ensures
            s == Self::shape(),
    {
        Shape::Variant(Box::new(unit_variants(9)))
    }
}

impl EventType {
    /// Builds the wire shape of this kind.
    pub fn build_shape() -> (s: Shape)
        ensures
            s == Self::shape(),
    {
        Shape::Variant(Box::new(unit_variants(15)))
    }
}

impl Response {
    /// Builds the wire shape of this record.
    pub fn build_shape() -> (s: Shape)
        ensures
            s == Self::shape(),
    {
        Shape::Tuple(Box::new(sl1(Shape::Nat)))
    }
}

impl AccountUpdate {
    /// Builds the wire shape of this record.
    pub fn build_shape() -> (s: Shape)
        ensures
            s == Self::shape(),
    {
        Shape::Tuple(Box::new(sl3(Shape::Nat, Shape::Nat, Shape::Nat)))
    }
}

impl AdministratorChanged {
    /// Builds the wire shape of this record.
    pub fn build_shape() -> (s: Shape)
        ensures
            s == Self::shape(),
    {
        Shape::Tuple(Box::new(sl2(Shape::Bool, Shape::Address)))
    }
}

impl AmendmentUpdate {
    /// Builds the wire shape of this record.
    pub fn build_shape() -> (s: Shape)
        ensures
            s == Self::shape(),
    {
        Shape::Tuple(Box::new(sl1(Shape::Nat)))
    }
}

impl AssetUpdate {
    /// Builds the wire shape of this record.
    pub fn build_shape() -> (s: Shape)
        ensures
            s == Self::shape(),
    {
        Shape::Tuple(Box::new(sl2(Shape::Variant(Box::new(unit_variants(8))), Shape::Nat)))
    }
}

impl BlacklistChanged {
    /// Builds the wire shape of this record.
    pub fn build_shape() -> (s: Shape)
        ensures
            s == Self::shape(),
    {
        Shape::Tuple(Box::new(sl3(Shape::N8, Shape::Address, Shape::Nat)))
    }
}

impl ControllerCreated {
    /// Builds the wire shape of this record.
    pub fn build_shape() -> (s: Shape)
        ensures
            s == Self::shape(),
    {
        Shape::Tuple(Box::new(sl1(Shape::Nat)))
    }
}

impl LedgerAdded {
    /// Builds the wire shape of this record.
    pub fn build_shape() -> (s: Shape)
        ensures
            s == Self::shape(),
    {
        Shape::Tuple(Box::new(sl1(Shape::Nat)))
    }
}

impl LimitChanged {
    /// Builds the wire shape of this record.
    pub fn build_shape() -> (s: Shape)
        ensures
            s == Self::shape(),
    {
        Shape::Tuple(Box::new(sl3(Shape::Address, Shape::Nat, Shape::Nat)))
    }
}

impl LimitConsumed {
    /// Builds the wire shape of this record.
    pub fn build_shape() -> (s: Shape)
        ensures
            s == Self::shape(),
    {
        Shape::Tuple(Box::new(sl4(Shape::Nat, Shape::Nat, Shape::Address, Shape::Nat)))
    }
}

impl OwnershipTransferred {
    /// Builds the wire shape of this record.
    pub fn build_shape() -> (s: Shape)
        ensures
            s == Self::shape(),
    {
        Shape::Tuple(Box::new(sl2(Shape::Opt(Box::new(Shape::Address)), Shape::Opt(Box::new(Shape::Address)))))
    }
}

impl PauseChanged {
    /// Builds the wire shape of this record.
    pub fn build_shape() -> (s: Shape)
        ensures
            s == Self::shape(),
    {
        Shape::Tuple(Box::new(sl1(Shape::Bool)))
    }
}

impl PricingChanged {
    /// Builds the wire shape of this record.
    pub fn build_shape() -> (s: Shape)
        ensures
            s == Self::shape(),
    {
        Shape::Tuple(Box::new(sl3(Shape::Nat, Shape::Nat, Shape::N8)))
    }
}

impl SupplyUpdate {
    /// Builds the wire shape of this record.
    pub fn build_shape() -> (s: Shape)
        ensures
            s == Self::shape(),
    {
        Shape::Tuple(Box::new(sl3(Shape::Nat, Shape::Nat, Shape::Variant(Box::new(unit_variants(9))))))
    }
}

impl TokensCreated {
    /// Builds the wire shape of this record.
    pub fn build_shape() -> (s: Shape)
        ensures
            s == Self::shape(),
    {
        Shape::Tuple(Box::new(sl3(Shape::Nat, Shape::Nat, Shape::Nat)))
    }
}

impl TokensDestroyed {
    /// Builds the wire shape of this record.
    pub fn build_shape() -> (s: Shape)
        ensures
            s == Self::shape(),
    {
        Shape::Tuple(Box::new(sl3(Shape::Nat, Shape::Nat, Shape::Nat)))
    }
}

impl ResponseSupplyId {
    /// Builds the wire shape of this record.
    pub fn build_shape() -> (s: Shape)
        ensures
            s == Self::shape(),
    {
        Shape::Tuple(Box::new(sl2(Shape::Nat, Shape::Nat)))
    }
}

impl ResponseAmendmentId {
    /// Builds the wire shape of this record.
    pub fn build_shape() -> (s: Shape)
        ensures
            s == Self::shape(),
    {
        Shape::Tuple(Box::new(sl2(Shape::Nat, Shape::Nat)))
    }
}

impl ResponseContractId {
    /// Builds the wire shape of this record.
    pub fn build_shape() -> (s: Shape)
        ensures
            s == Self::shape(),
    {
        Shape::Tuple(Box::new(sl2(Shape::Nat, Shape::Nat)))
    }
}

impl Amendment {
    /// Builds the wire shape of this record.
    pub fn build_shape() -> (s: Shape)
        ensures
            s == Self::shape(),
    {
        Shape::Tuple(Box::new(sl2(Shape::Bytes, Shape::N64)))
    }
}

impl SupplyParameters {
    /// Builds the wire shape of this record.
    pub fn build_shape() -> (s: Shape)
        ensures
            s == Self::shape(),
    {
        Shape::Tuple(Box::new(sl3(Shape::Opt(Box::new(Shape::Nat)), Shape::Opt(Box::new(Shape::Address)), Shape::Bool)))
    }
}

impl CreateSupplyRequest {
    /// Builds the wire shape of this record.
    pub fn build_shape() -> (s: Shape)
        ensures
            s == Self::shape(),
    {
        Shape::Tuple(Box::new(sl9(Shape::Opt(Box::new(Shape::Nat)), Shape::Nat, Shape::Opt(Box::new(Shape::Address)), Shape::N32, Shape::N64, Shape::Nat, Shape::Bool, Shape::Nat, Shape::Nat)))
    }
}

impl Asset {
    /// Builds the wire shape of this record.
    pub fn build_shape() -> (s: Shape)
        ensures
            s == Self::shape(),
    {
        Shape::Tuple(Box::new(sl4(Shape::Bool, Shape::Opt(Box::new(Shape::Bytes)), Shape::Opt(Box::new(Shape::N64)), Shape::Address)))
    }
}

impl TransactionEvent {
    /// Builds the wire shape of this record.
    pub fn build_shape() -> (s: Shape)
        ensures
            s == Self::shape(),
    {
        Shape::Tuple(Box::new(sl4(Shape::Opt(Box::new(Shape::Nat)), Shape::Opt(Box::new(Shape::N16)), Shape::N64, Shape::Variant(Box::new(unit_variants(15))))))
    }
}

impl Supply {
    /// Builds the wire shape of this record.
    pub fn build_shape() -> (s: Shape)
        ensures
            s == Self::shape(),
    {
        Shape::Tuple(Box::new(sl5(Shape::Nat, Shape::Address, Shape::Opt(Box::new(SupplyParameters::build_shape())), Shape::N64, Shape::Nat)))
    }
}

impl Transaction {
    /// Builds the wire shape of this record.
    pub fn build_shape() -> (s: Shape)
        ensures
            s == Self::shape(),
    {
        Shape::Tuple(Box::new(sl3(Shape::N64, Shape::Nat, Shape::List(Box::new(TransactionEvent::build_shape())))))
    }
}

impl RunWarpRequest {
    /// Builds the wire shape of this record.
    pub fn build_shape() -> (s: Shape)
        ensures
            s == Self::shape(),
    {
        Shape::Tuple(Box::new(sl3(Shape::Nat, Shape::Opt(Box::new(Shape::Address)), Shape::List(Box::new(Shape::Nat)))))
    }
}

} // verus!
