//! Tests of the domain records over the wire: enum-tagged events, optional
//! addresses, nested records, and the canonical big-integer representation.

use coreledger_client::bignat::BigNat;
use coreledger_client::shape::Shape;
use coreledger_client::value::{TypedValue, tuple0, tuple2, tuple3, tuple5};
use coreledger_client::codec::encode;
use coreledger_client::domain::{
    AssetUpdate, AssetUpdateCode, OwnershipTransferred, Supply, SupplyParameters,
};
use coreledger_client::facade;

#[test]
fn big_integer_from_bytes_strips_leading_zeros() {
    let n = BigNat::from_bytes_be(&vec![0, 0, 1, 2]);
    assert_eq!(n.to_bytes_be(), vec![1, 2]);
    assert_eq!(n, BigNat::from_u64(0x0102));

    let z = BigNat::from_bytes_be(&vec![0, 0, 0]);
    assert_eq!(z, BigNat::zero());
    assert_eq!(z.to_bytes_be(), Vec::<u8>::new());
}

#[test]
fn big_integer_u64_round_trip() {
    for x in [0u64, 1, 255, 256, 0xFFFF_FFFF, u64::MAX] {
        let n = BigNat::from_u64(x);
        let back = BigNat::from_bytes_be(&n.to_bytes_be());
        assert_eq!(n, back);
    }
}

#[test]
fn asset_update_event_carries_its_kind() {
    // An asset event whose kind is the third declared variant.
    let shape = Shape::Opt(Box::new(AssetUpdate::build_shape()));
    let value = TypedValue::OptSome(Box::new(tuple2(
        TypedValue::Variant(3, Box::new(tuple0())),
        TypedValue::Nat(BigNat::from_u64(12)),
    )));
    let reply = encode(&shape, &value).unwrap();
    let event = facade::reply_opt_asset_update(&reply).unwrap().unwrap();
    assert!(event.event_id == AssetUpdateCode::AssetCreationSuccess);
    assert_eq!(event.asset_id, BigNat::from_u64(12));
}

#[test]
fn asset_update_rejects_unknown_kind() {
    // A tag past the declared variants is a decoding failure.
    let shape = Shape::Opt(Box::new(AssetUpdate::build_shape()));
    let value = TypedValue::OptSome(Box::new(tuple2(
        TypedValue::Variant(8, Box::new(tuple0())),
        TypedValue::Nat(BigNat::from_u64(12)),
    )));
    assert!(encode(&shape, &value).is_err());
}

#[test]
fn ownership_event_with_absent_parties() {
    let shape = Shape::Opt(Box::new(OwnershipTransferred::build_shape()));
    let value = TypedValue::OptSome(Box::new(tuple2(
        TypedValue::OptSome(Box::new(TypedValue::Address(vec![5, 6]))),
        TypedValue::OptNone,
    )));
    let reply = encode(&shape, &value).unwrap();
    let event = facade::reply_opt_ownership_transferred(&reply)
        .unwrap()
        .unwrap();
    let new_owner = event.new_owner.expect("a new owner was named");
    assert_eq!(new_owner.bytes, vec![5, 6]);
    assert!(event.previous_owner.is_none());
}

#[test]
fn supply_with_nested_parameters() {
    let params = tuple3(
        TypedValue::OptSome(Box::new(TypedValue::Nat(BigNat::from_u64(4)))),
        TypedValue::OptNone,
        TypedValue::Bool(true),
    );
    let supply = tuple5(
        TypedValue::Nat(BigNat::from_u64(1000)),
        TypedValue::Address(vec![9]),
        TypedValue::OptSome(Box::new(params)),
        TypedValue::N64(777),
        TypedValue::Nat(BigNat::from_u64(5)),
    );
    let shape = Shape::Opt(Box::new(Supply::build_shape()));
    let reply = encode(&shape, &TypedValue::OptSome(Box::new(supply))).unwrap();
    let s = facade::reply_opt_supply(&reply).unwrap().unwrap();
    assert_eq!(s.open_amount, BigNat::from_u64(1000));
    assert_eq!(s.owner.bytes, vec![9]);
    assert_eq!(s.valid_until, 777);
    assert_eq!(s.exchange_rate, BigNat::from_u64(5));
    let p: SupplyParameters = s.parameters.expect("parameters were present");
    assert_eq!(p.controller, Some(BigNat::from_u64(4)));
    assert!(p.desired_address.is_none());
    assert!(p.take_all);
}

#[test]
fn supply_without_parameters() {
    let supply = tuple5(
        TypedValue::Nat(BigNat::zero()),
        TypedValue::Address(Vec::new()),
        TypedValue::OptNone,
        TypedValue::N64(0),
        TypedValue::Nat(BigNat::zero()),
    );
    let shape = Shape::Opt(Box::new(Supply::build_shape()));
    let reply = encode(&shape, &TypedValue::OptSome(Box::new(supply))).unwrap();
    let s = facade::reply_opt_supply(&reply).unwrap().unwrap();
    assert!(s.parameters.is_none());
    assert_eq!(s.open_amount, BigNat::zero());
}
