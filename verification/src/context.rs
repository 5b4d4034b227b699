//! The invocation context: the active signing identity and the tracing
//! flag. Both are explicit values held by the caller rather than process
//! globals; a caller needing isolated contexts constructs several.

use vstd::prelude::*;

verus! {

/// A signing credential and its derived caller address. Both are opaque to
/// this layer: no local validation of the material is performed.
pub struct CallerIdentity {
    /// Opaque signing material.
    pub credential: Vec<u8>,
    /// The caller address derived from the credential.
    pub address: Vec<u8>,
}

/// The mathematical model of an identity: its two byte strings.
pub struct IdentityModel {
    pub credential: Seq<u8>,
    pub address: Seq<u8>,
}

impl View for CallerIdentity {
    type V = IdentityModel;

    open spec fn view(&self) -> IdentityModel {
        IdentityModel { credential: self.credential@, address: self.address@ }
    }
}

impl CallerIdentity {
    /// An identity with the given material and address.
    pub fn new(credential: Vec<u8>, address: Vec<u8>) -> (r: CallerIdentity)
        ensures
            r@.credential == credential@,
            r@.address == address@,
    {
        CallerIdentity { credential, address }
    }

    /// An exact copy, for capture at dispatch time.
    pub fn duplicate(&self) -> (r: CallerIdentity)
        ensures
            r@ == self@,
    {
        let mut credential: Vec<u8> = Vec::new();
        let mut k: usize = 0;
        while k < self.credential.len()
            invariant
                k <= self.credential@.len(),
                credential@ =~= self.credential@.subrange(0, k as int),
            decreases self.credential@.len() - k,
        {
            credential.push(self.credential[k]);
            k = k + 1;
        }
        let mut address: Vec<u8> = Vec::new();
        let mut j: usize = 0;
        while j < self.address.len()
            invariant
                j <= self.address@.len(),
                address@ =~= self.address@.subrange(0, j as int),
            decreases self.address@.len() - j,
        {
            address.push(self.address[j]);
            j = j + 1;
        }
        proof {
            assert(credential@ =~= self.credential@);
            assert(address@ =~= self.address@);
        }
        CallerIdentity { credential, address }
    }
}

/// The mutable state that dispatch reads: who signs, and whether calls are
/// traced. A swap applies to every call prepared after it and to none
/// prepared before it; the context is not retroactive.
pub struct InvocationContext {
    /// The active signing identity.
    pub identity: CallerIdentity,
    /// Whether dispatches are logged by the surrounding program.
    pub trace_enabled: bool,
}

impl InvocationContext {
    /// A context with the given identity; tracing starts enabled.
    pub fn new(identity: CallerIdentity) -> (r: InvocationContext)
        ensures
            r.identity@ == identity@,
            r.trace_enabled == true,
    {
        InvocationContext { identity, trace_enabled: true }
    }

    /// Replaces the active identity unconditionally. Calls prepared after
    /// this swap capture the new identity; calls prepared before it keep
    /// the identity they captured.
    pub fn set_identity(&mut self, identity: CallerIdentity)
        ensures
            final(self).identity@ == identity@,
            final(self).trace_enabled == old(self).trace_enabled,
    {
        self.identity = identity;
    }

    /// The active identity, as the invoker reads it at dispatch time.
    pub fn current(&self) -> (r: &CallerIdentity)
        ensures
            r@ == self.identity@,
    {
        &self.identity
    }

    /// Sets the tracing flag; takes effect for the next dispatch onward.
    pub fn set_trace(&mut self, on: bool)
        ensures
            final(self).trace_enabled == on,
            final(self).identity@ == old(self).identity@,
    {
        self.trace_enabled = on;
    }
}

} // verus!
