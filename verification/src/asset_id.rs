//! Locally derived identifiers: the composite asset identifier, content
//! hashes of human-readable labels, and fresh asset identifiers. All are
//! computed on this side of the wire; no remote round trip is involved.

use vstd::prelude::*;
use vstd::arithmetic::power::pow;
use vstd::string::StringSliceAdditionalSpecFns;
use vstd::utf8::encode_utf8;
use crate::bignat::{
    BigNat,
    be_val,
    canonical,
    lemma_be_val_concat,
    lemma_be_val_injective,
    lemma_be_val_bound,
};
use crate::be::{spec_u16_be, push_u16_be, lemma_u16_be_val};
use crate::outside::{sha256_digest, sha256_of, random_bytes_10};

verus! {

/// The ledger identifier of the composite ledger this client targets.
pub const CLMP_LEDGER_ID: u16 = 1;

/// The composite asset identifier: the asset's canonical big-endian bytes,
/// followed by the fixed-width big-endian ledger identifier, read as one
/// big-endian unsigned integer. Deterministic, and injective in the asset
/// for a fixed ledger identifier.
pub fn composite_asset_id(asset_id: &BigNat, ledger_id: u16) -> (r: BigNat)
    requires
        asset_id.wf(),
    ensures
        r.wf(),
        r@ == be_val(asset_id.bytes@ + spec_u16_be(ledger_id)),
        r@ == asset_id@ * 0x10000 + ledger_id,
{
    let mut bytes = asset_id.to_bytes_be();
    push_u16_be(&mut bytes, ledger_id);
    proof {
        lemma_be_val_concat(asset_id.bytes@, spec_u16_be(ledger_id));
        lemma_u16_be_val(ledger_id);
        assert(pow(256, 2) == 0x10000) by {
            reveal_with_fuel(pow, 3);
        }
    }
    BigNat::from_bytes_be(&bytes)
}

/// Two distinct canonical asset byte strings derive distinct composite
/// identifiers under the same ledger identifier.
pub proof fn lemma_composite_asset_id_injective(a1: Seq<u8>, a2: Seq<u8>, l: u16)
    requires
        canonical(a1),
        canonical(a2),
        a1 != a2,
    ensures
        be_val(a1 + spec_u16_be(l)) != be_val(a2 + spec_u16_be(l)),
{
    lemma_be_val_concat(a1, spec_u16_be(l));
    lemma_be_val_concat(a2, spec_u16_be(l));
    lemma_u16_be_val(l);
    assert(pow(256, 2) == 0x10000) by {
        reveal_with_fuel(pow, 3);
    }
    if be_val(a1) == be_val(a2) {
        lemma_be_val_injective(a1, a2);
    }
}

/// The content hash of a human-readable label: the SHA-256 digest of its
/// UTF-8 bytes, read as one big-endian unsigned integer.
pub fn content_hash(label: &str) -> (r: BigNat)
    ensures
        r.wf(),
        r@ == be_val(sha256_of(encode_utf8(label@))),
{
    let bytes = vstd::slice::slice_to_vec(label.as_bytes());
    let digest = sha256_digest(&bytes);
    BigNat::from_bytes_be(&digest)
}

/// A fresh ten-byte asset identifier from the process entropy source;
/// below `256^10` by construction.
pub fn fresh_asset_id() -> (r: BigNat)
    ensures
        r.wf(),
        r@ < pow(256, 10),
{
    let bytes = random_bytes_10();
    proof {
        lemma_be_val_bound(bytes@);
    }
    BigNat::from_bytes_be(&bytes)
}

} // verus!
