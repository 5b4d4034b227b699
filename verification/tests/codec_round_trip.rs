//! Round-trip and exact-bytes tests of the transcoder on boundary values.

use coreledger_client::bignat::BigNat;
use coreledger_client::shape::{Shape, ShapeList, sl0, sl3};
use coreledger_client::value::{TypedValue, ValueList, tuple0, tuple1, tuple3};
use coreledger_client::codec::{encode, decode};
use coreledger_client::errors::InvokeError;

fn round_trips(shape: &Shape, v: TypedValue, expect: TypedValue) {
    let bytes = encode(shape, &v).expect("conforming value must encode");
    let back = decode(shape, &bytes).expect("own encoding must decode");
    assert!(back == expect);
}

#[test]
fn round_trip_zero_nat() {
    round_trips(
        &Shape::Nat,
        TypedValue::Nat(BigNat::zero()),
        TypedValue::Nat(BigNat::zero()),
    );
}

#[test]
fn round_trip_max_u64_nat() {
    let v = BigNat::from_u64(u64::MAX);
    round_trips(
        &Shape::Nat,
        TypedValue::Nat(v),
        TypedValue::Nat(BigNat::from_u64(u64::MAX)),
    );
}

#[test]
fn round_trip_absent_optional() {
    let shape = Shape::Opt(Box::new(Shape::Nat));
    round_trips(&shape, TypedValue::OptNone, TypedValue::OptNone);
}

#[test]
fn round_trip_present_optional() {
    let shape = Shape::Opt(Box::new(Shape::N64));
    round_trips(
        &shape,
        TypedValue::OptSome(Box::new(TypedValue::N64(7))),
        TypedValue::OptSome(Box::new(TypedValue::N64(7))),
    );
}

#[test]
fn round_trip_empty_list() {
    let shape = Shape::List(Box::new(Shape::Nat));
    round_trips(
        &shape,
        TypedValue::List(Box::new(ValueList::Nil)),
        TypedValue::List(Box::new(ValueList::Nil)),
    );
}

#[test]
fn round_trip_list_of_numbers() {
    let shape = Shape::List(Box::new(Shape::N16));
    let mk = || {
        TypedValue::List(Box::new(ValueList::Cons(
            TypedValue::N16(0),
            Box::new(ValueList::Cons(
                TypedValue::N16(65535),
                Box::new(ValueList::Nil),
            )),
        )))
    };
    round_trips(&shape, mk(), mk());
}

#[test]
fn round_trip_record_with_default_fields() {
    let shape = Shape::Tuple(Box::new(sl3(Shape::Nat, Shape::Bool, Shape::Bytes)));
    let mk = || {
        tuple3(
            TypedValue::Nat(BigNat::zero()),
            TypedValue::Bool(false),
            TypedValue::Bytes(Vec::new()),
        )
    };
    round_trips(&shape, mk(), mk());
}

#[test]
fn round_trip_unit_variant() {
    let shape = Shape::Variant(Box::new(sl3(
        Shape::Tuple(Box::new(sl0())),
        Shape::Tuple(Box::new(sl0())),
        Shape::Tuple(Box::new(sl0())),
    )));
    let mk = || TypedValue::Variant(2, Box::new(tuple0()));
    round_trips(&shape, mk(), mk());
}

#[test]
fn round_trip_text_and_address() {
    let shape = Shape::Tuple(Box::new(sl3(Shape::Text, Shape::Address, Shape::N8)));
    let mk = || {
        tuple3(
            TypedValue::Text(vec![104, 105]),
            TypedValue::Address(vec![1, 2, 3]),
            TypedValue::N8(255),
        )
    };
    round_trips(&shape, mk(), mk());
}

#[test]
fn exact_bytes_of_primitives() {
    let one = encode(&Shape::N64, &TypedValue::N64(1)).unwrap();
    assert_eq!(one, vec![0, 0, 0, 0, 0, 0, 0, 1]);

    let t = encode(&Shape::Bool, &TypedValue::Bool(true)).unwrap();
    assert_eq!(t, vec![1]);

    let n16 = encode(&Shape::N16, &TypedValue::N16(0x0102)).unwrap();
    assert_eq!(n16, vec![1, 2]);

    let n32 = encode(&Shape::N32, &TypedValue::N32(0x01020304)).unwrap();
    assert_eq!(n32, vec![1, 2, 3, 4]);
}

#[test]
fn exact_bytes_of_nat() {
    // Eight-byte big-endian length, then the canonical magnitude bytes.
    let v = TypedValue::Nat(BigNat::from_u64(0x0102));
    let bytes = encode(&Shape::Nat, &v).unwrap();
    assert_eq!(bytes, vec![0, 0, 0, 0, 0, 0, 0, 2, 1, 2]);

    // Zero is the empty magnitude.
    let z = TypedValue::Nat(BigNat::zero());
    assert_eq!(encode(&Shape::Nat, &z).unwrap(), vec![0, 0, 0, 0, 0, 0, 0, 0]);
}

#[test]
fn exact_bytes_of_optional_and_address() {
    let absent = encode(&Shape::Opt(Box::new(Shape::N8)), &TypedValue::OptNone).unwrap();
    assert_eq!(absent, vec![0]);

    let present = encode(
        &Shape::Opt(Box::new(Shape::N8)),
        &TypedValue::OptSome(Box::new(TypedValue::N8(9))),
    )
    .unwrap();
    assert_eq!(present, vec![1, 9]);

    let addr = encode(&Shape::Address, &TypedValue::Address(vec![7, 8])).unwrap();
    assert_eq!(addr, vec![2, 7, 8]);
}

#[test]
fn encode_refuses_mismatched_value() {
    let r = encode(&Shape::Nat, &TypedValue::Bool(true));
    assert!(matches!(r, Err(InvokeError::Encoding)));
}

#[test]
fn encode_refuses_non_canonical_nat() {
    let r = encode(&Shape::Nat, &TypedValue::Nat(BigNat { bytes: vec![0, 1] }));
    assert!(matches!(r, Err(InvokeError::Encoding)));
}

#[test]
fn encode_refuses_overlong_address() {
    let r = encode(&Shape::Address, &TypedValue::Address(vec![0u8; 300]));
    assert!(matches!(r, Err(InvokeError::Encoding)));
}

#[test]
fn decode_rejects_truncated_buffers() {
    assert!(matches!(
        decode(&Shape::N64, &vec![1, 2, 3]),
        Err(InvokeError::Decoding)
    ));
    assert!(matches!(
        decode(&Shape::Nat, &vec![0, 0, 0, 0, 0, 0, 0, 5, 1]),
        Err(InvokeError::Decoding)
    ));
    assert!(matches!(
        decode(&Shape::Bool, &Vec::new()),
        Err(InvokeError::Decoding)
    ));
}

#[test]
fn decode_rejects_structural_garbage() {
    // An out-of-range boolean byte.
    assert!(matches!(
        decode(&Shape::Bool, &vec![7]),
        Err(InvokeError::Decoding)
    ));
    // An unknown optional presence tag.
    assert!(matches!(
        decode(&Shape::Opt(Box::new(Shape::N8)), &vec![2, 9]),
        Err(InvokeError::Decoding)
    ));
    // A variant tag past the declared alternatives.
    let shape = Shape::Variant(Box::new(sl3(
        Shape::Tuple(Box::new(sl0())),
        Shape::Tuple(Box::new(sl0())),
        Shape::Tuple(Box::new(sl0())),
    )));
    assert!(matches!(
        decode(&shape, &vec![0, 0, 0, 0, 0, 0, 0, 3]),
        Err(InvokeError::Decoding)
    ));
    // A non-canonical big integer (leading zero byte).
    assert!(matches!(
        decode(&Shape::Nat, &vec![0, 0, 0, 0, 0, 0, 0, 2, 0, 1]),
        Err(InvokeError::Decoding)
    ));
}

#[test]
fn decode_rejects_trailing_bytes() {
    let mut bytes = encode(&Shape::N8, &TypedValue::N8(1)).unwrap();
    bytes.push(0);
    assert!(matches!(
        decode(&Shape::N8, &bytes),
        Err(InvokeError::Decoding)
    ));
}

#[test]
fn decode_of_deeply_nested_value() {
    let shape = Shape::Opt(Box::new(Shape::Tuple(Box::new(sl3(
        Shape::Nat,
        Shape::Opt(Box::new(Shape::Text)),
        Shape::List(Box::new(Shape::Bool)),
    )))));
    let v = TypedValue::OptSome(Box::new(tuple3(
        TypedValue::Nat(BigNat::from_u64(42)),
        TypedValue::OptSome(Box::new(TypedValue::Text(vec![97]))),
        TypedValue::List(Box::new(ValueList::Cons(
            TypedValue::Bool(true),
            Box::new(ValueList::Nil),
        ))),
    )));
    let bytes = encode(&shape, &v).unwrap();
    let back = decode(&shape, &bytes).unwrap();
    assert!(back == v);
    let _ = tuple1(TypedValue::Bool(true));
}
