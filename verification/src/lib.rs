//! Verified client-side invocation layer for a remote ledger actor.
//!
//! The crate provides a schema catalog of remote method descriptors
//! (`catalog`), a transcoder between typed values and canonical big-endian
//! wire envelopes (`shape`, `value`, `codec`), a swappable-identity
//! invocation context (`context`), the dispatch core around the transport
//! (`invoker`, `errors`), a strongly-typed facade of the remote operations
//! (`facade`, `domain`), and the locally derived identifiers (`asset_id`,
//! `bignat`, `be`). The transport itself, and everything interactive, lives
//! in the surrounding program.

pub mod asset_id;
pub mod be;
pub mod bignat;
pub mod catalog;
pub mod codec;
pub mod context;
pub mod domain;
pub mod errors;
pub mod facade;
pub mod invoker;
pub mod outside;
pub mod shape;
pub mod value;
