//! The failure taxonomy of the invocation layer. Every failure aborts only
//! the single call that produced it; the layer holds no state to roll back
//! and performs no retry.

use vstd::prelude::*;

verus! {

/// A classified failure of one remote invocation.
#[derive(PartialEq, Eq, Debug)]
pub enum InvokeError {
    /// A typed argument does not match its declared shape; a programming
    /// error in how the arguments were built, never expected in correct use.
    Encoding,
    /// A reply's bytes do not parse against the expected response shape;
    /// the primary signal of schema skew between client and remote actor.
    Decoding,
    /// The underlying connection failed; opaque beyond the carried message.
    Transport(String),
    /// The remote actor explicitly rejected or trapped on the call,
    /// carrying a diagnostic message.
    RemoteRejection(String),
}

} // verus!
