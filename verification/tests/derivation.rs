//! Tests of the locally derived identifiers: the composite asset identifier
//! formula, content hashes, and fresh identifiers.

use coreledger_client::bignat::BigNat;
use coreledger_client::asset_id::{composite_asset_id, content_hash, fresh_asset_id, CLMP_LEDGER_ID};

#[test]
fn composite_id_concatenates_big_endian_bytes() {
    // Asset bytes [1, 2] followed by the 16-bit ledger identifier 1 read as
    // one big-endian integer: 0x01020001.
    let asset = BigNat::from_u64(0x0102);
    let id = composite_asset_id(&asset, 1);
    assert_eq!(id.to_bytes_be(), vec![1, 2, 0, 1]);
    assert_eq!(id, BigNat::from_u64(0x01020001));
}

#[test]
fn composite_id_formula() {
    // id == asset * 2^16 + ledger, for several concrete values.
    let cases: [(u64, u16); 4] = [(0, 1), (1, 1), (0xFFFF, 2), (123456789, 7)];
    let mut k = 0;
    while k < cases.len() {
        let (a, l) = cases[k];
        let id = composite_asset_id(&BigNat::from_u64(a), l);
        assert_eq!(id, BigNat::from_u64(a * 0x10000 + l as u64));
        k += 1;
    }
}

#[test]
fn composite_id_of_zero_asset() {
    let id = composite_asset_id(&BigNat::zero(), CLMP_LEDGER_ID);
    assert_eq!(id, BigNat::from_u64(1));
}

#[test]
fn composite_ids_of_distinct_assets_differ() {
    let a = composite_asset_id(&BigNat::from_u64(10), 1);
    let b = composite_asset_id(&BigNat::from_u64(11), 1);
    assert_ne!(a, b);
}

#[test]
fn content_hash_of_empty_label() {
    // The SHA-256 digest of the empty string, read big-endian.
    let expected =
        hex::decode("e3b0c44298fc1c149afbf4c8996fb92427ae41e4649b934ca495991b7852b855").unwrap();
    assert_eq!(content_hash("").to_bytes_be(), expected);
}

#[test]
fn content_hash_of_known_label() {
    let expected =
        hex::decode("ba7816bf8f01cfea414140de5dae2223b00361a396177a9cb410ff61f20015ad").unwrap();
    assert_eq!(content_hash("abc").to_bytes_be(), expected);
}

#[test]
fn content_hash_distinguishes_labels() {
    assert_ne!(content_hash("USD"), content_hash("BTC"));
}

#[test]
fn fresh_asset_id_is_canonical_and_bounded() {
    let id = fresh_asset_id();
    let bytes = id.to_bytes_be();
    // At most ten bytes of entropy, stored canonically.
    assert!(bytes.len() <= 10);
    if !bytes.is_empty() {
        assert_ne!(bytes[0], 0);
    }
}
