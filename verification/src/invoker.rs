//! The dispatch core. One call runs through two verified halves around the
//! unverified transport: `prepare` encodes the arguments and captures the
//! channel, method name, signer and tracing flag at dispatch time;
//! `complete` decodes the raw reply against the response shape. The
//! transport in between (sending the envelope, awaiting the reply) is the
//! surrounding program's, and any of its failures is surfaced unchanged as
//! a transport or rejection error.

use vstd::prelude::*;
use crate::shape::Shape;
use crate::value::{TypedValue, has_shape};
use crate::codec::{enc, dec_exact, encode, decode};
use crate::context::InvocationContext;
use crate::context::CallerIdentity;
use crate::errors::InvokeError;

verus! {

/// The two channels of the remote actor. A method's channel is a static
/// property of the method, never negotiated per call.
#[derive(Clone, Copy, PartialEq, Eq, Structural, Debug)]
pub enum Channel {
    /// Read-only; no remote state mutation; safe to repeat.
    Query,
    /// State-mutating; goes through the remote actor's durability
    /// mechanism; its effect is ambiguous when the transport fails.
    Update,
}

/// One method of the remote actor's catalog: its wire name, channel, and
/// request and response shapes. Immutable once built.
pub struct MethodDescriptor {
    /// The remote method name, as routed by the remote endpoint.
    pub name: &'static str,
    /// The channel the method is served on.
    pub channel: Channel,
    /// The shape of the argument tuple.
    pub request: Shape,
    /// The shape of the reply value.
    pub response: Shape,
}

/// A call ready for the transport: everything the dispatch step fixed at
/// preparation time. The signer and tracing flag are captured values, not
/// references: a later identity swap or trace toggle does not change a
/// call already prepared.
pub struct PreparedCall {
    /// The remote method name.
    pub name: &'static str,
    /// The channel to send on.
    pub channel: Channel,
    /// The encoded argument envelope.
    pub envelope: Vec<u8>,
    /// The identity captured at preparation time; the transport signs with
    /// exactly this identity.
    pub signer: CallerIdentity,
    /// The tracing flag captured at preparation time.
    pub trace: bool,
}

/// Builds the envelope for one call and captures the dispatch-time state.
/// Fails exactly when the arguments do not conform to the method's request
/// shape, which arguments built by the typed facade never do.
pub fn prepare(ctx: &InvocationContext, d: MethodDescriptor, args: &TypedValue) -> (r: Result<
    PreparedCall,
    InvokeError,
>)
    ensures
        r matches Ok(pc) ==> has_shape(args@, d.request) && pc.envelope@ == enc(d.request, args@)
            && pc.signer@ == ctx.identity@ && pc.channel == d.channel && pc.name == d.name
            && pc.trace == ctx.trace_enabled,
        r is Err <==> !has_shape(args@, d.request),
        r matches Err(e) ==> e == InvokeError::Encoding,
{
    match encode(&d.request, args) {
        Result::Ok(envelope) => Ok(
            PreparedCall {
                name: d.name,
                channel: d.channel,
                envelope,
                signer: ctx.current().duplicate(),
                trace: ctx.trace_enabled,
            },
        ),
        Result::Err(_) => Err(InvokeError::Encoding),
    }
}

/// `prepare` for arguments already known to conform to the request shape,
/// as every typed facade operation builds them: encoding cannot fail.
pub fn prepare_checked(ctx: &InvocationContext, d: MethodDescriptor, args: TypedValue) -> (r:
    PreparedCall)
    requires
        has_shape(args@, d.request),
    ensures
        r.envelope@ == enc(d.request, args@),
        r.signer@ == ctx.identity@,
        r.channel == d.channel,
        r.name == d.name,
        r.trace == ctx.trace_enabled,
{
    let ghost dg = d;
    let name = d.name;
    let channel = d.channel;
    match prepare(ctx, d, &args) {
        Result::Ok(pc) => pc,
        Result::Err(_) => {
            proof {
                assert(false);
            }
            PreparedCall {
                name,
                channel,
                envelope: Vec::new(),
                signer: ctx.current().duplicate(),
                trace: ctx.trace_enabled,
            }
        },
    }
}

/// Decodes a raw reply against the method's response shape. Fails exactly
/// when the bytes do not parse as one whole value of that shape, the
/// signal of schema skew between client and remote actor. Total and free
/// of side effects: safe to retry on the same bytes.
pub fn complete(d: &MethodDescriptor, reply: &Vec<u8>) -> (r: Result<TypedValue, InvokeError>)
    ensures
        r matches Ok(v) ==> dec_exact(d.response, reply@) == Some(v@) && has_shape(v@, d.response),
        r is Err <==> dec_exact(d.response, reply@) is None,
        r matches Err(e) ==> e == InvokeError::Decoding,
{
    decode(&d.response, reply)
}

} // verus!
