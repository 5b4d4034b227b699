//! Dispatch-side tests of the facade: identity capture, channel selection,
//! envelope determinism, and the event-log scenario against simulated
//! replies.

use coreledger_client::bignat::BigNat;
use coreledger_client::shape::Shape;
use coreledger_client::value::{TypedValue, ValueList, tuple0, tuple3, tuple4};
use coreledger_client::codec::encode;
use coreledger_client::context::{CallerIdentity, InvocationContext};
use coreledger_client::invoker::{Channel, prepare, complete};
use coreledger_client::catalog::{Method, descriptor};
use coreledger_client::facade;
use coreledger_client::domain::CallerAddress;
use coreledger_client::errors::InvokeError;

fn ctx_with(name: u8) -> InvocationContext {
    InvocationContext::new(CallerIdentity::new(vec![name; 4], vec![name]))
}

#[test]
fn identity_captured_at_dispatch_time() {
    let mut ctx = ctx_with(1);
    let before = facade::event_tokens_created_count(&ctx);
    ctx.set_identity(CallerIdentity::new(vec![2; 4], vec![2]));
    let after = facade::event_tokens_created_count(&ctx);
    // The call prepared before the swap keeps the identity it captured.
    assert_eq!(before.signer.credential, vec![1; 4]);
    // Every call prepared after the swap captures the new identity.
    assert_eq!(after.signer.credential, vec![2; 4]);
}

#[test]
fn trace_flag_captured_at_dispatch_time() {
    let mut ctx = ctx_with(1);
    assert!(ctx.trace_enabled);
    let traced = facade::event_tokens_created_count(&ctx);
    ctx.set_trace(false);
    let silent = facade::event_tokens_created_count(&ctx);
    assert!(traced.trace);
    assert!(!silent.trace);
}

#[test]
fn count_queries_are_deterministic() {
    let ctx = ctx_with(1);
    let a = facade::event_tokens_created_count(&ctx);
    let b = facade::event_tokens_created_count(&ctx);
    assert_eq!(a.envelope, b.envelope);
    assert_eq!(a.name, b.name);
    assert!(a.channel == Channel::Query);
    assert!(b.channel == Channel::Query);
}

#[test]
fn channels_follow_the_catalog() {
    let ctx = ctx_with(1);
    let q = facade::mng_paused(&ctx, BigNat::from_u64(1));
    assert!(q.channel == Channel::Query);
    assert_eq!(q.name, "mng_paused");
    let u = facade::mng_pause(&ctx, BigNat::from_u64(1));
    assert!(u.channel == Channel::Update);
    assert_eq!(u.name, "mng_pause");
}

#[test]
fn remove_address_array_dispatches_singular_wire_name() {
    let ctx = ctx_with(1);
    let addr = CallerAddress::new(vec![9, 9]).unwrap();
    let single = facade::ctr_remove_address(&ctx, BigNat::from_u64(5), addr);
    assert_eq!(single.name, "ctr_remove_address");
    let addrs = vec![CallerAddress::new(vec![9, 9]).unwrap()];
    let array = facade::ctr_remove_address_array(&ctx, BigNat::from_u64(5), addrs);
    assert_eq!(array.name, "ctr_remove_address");
    let barray = facade::ctr_remove_blacklist_array(
        &ctx,
        BigNat::from_u64(5),
        vec![CallerAddress::new(vec![9, 9]).unwrap()],
    );
    assert_eq!(barray.name, "ctr_remove_blacklist_array");
}

#[test]
fn facade_envelope_matches_direct_encoding() {
    let ctx = ctx_with(1);
    let holder = CallerAddress::new(vec![3, 4, 5]).unwrap();
    let pc = facade::int_get_balance(&ctx, BigNat::from_u64(77), holder);
    let d = descriptor(Method::IntGetBalance);
    let args = tuple3(
        TypedValue::Nat(BigNat::from_u64(77)),
        TypedValue::Address(vec![3, 4, 5]),
        TypedValue::N8(0),
    );
    // Not the same arity: the direct encoding of the true argument tuple.
    let args2 = coreledger_client::value::tuple2(
        TypedValue::Nat(BigNat::from_u64(77)),
        TypedValue::Address(vec![3, 4, 5]),
    );
    assert!(encode(&d.request, &args).is_err());
    assert_eq!(pc.envelope, encode(&d.request, &args2).unwrap());
    assert_eq!(pc.name, "int_get_balance");
}

#[test]
fn prepare_classifies_ill_shaped_arguments() {
    let ctx = ctx_with(1);
    let d = descriptor(Method::EventTokensCreatedCount);
    let r = prepare(&ctx, d, &TypedValue::Bool(true));
    assert!(matches!(r, Err(InvokeError::Encoding)));
}

#[test]
fn complete_classifies_unparsable_reply() {
    let d = descriptor(Method::EventTokensCreatedCount);
    let r = complete(&d, &vec![1, 2, 3]);
    assert!(matches!(r, Err(InvokeError::Decoding)));
}

#[test]
fn event_tokens_created_scenario() {
    // A fresh scope: the remote would report some count, here three.
    let ctx = ctx_with(1);
    let count_call = facade::event_tokens_created_count(&ctx);
    assert_eq!(count_call.name, "event_tokens_created_count");
    assert!(count_call.channel == Channel::Query);

    // Simulated remote reply to the count query.
    let count_reply = encode(&Shape::N64, &TypedValue::N64(3)).unwrap();
    let n = facade::reply_u64(&count_reply).unwrap();
    assert_eq!(n, 3);

    // get(N): the remote reports absence; absence is a value, not an error.
    let get_at_n = facade::event_tokens_created_get(&ctx, n);
    assert_eq!(get_at_n.name, "event_tokens_created_get");
    let shape = Shape::Opt(Box::new(
        coreledger_client::domain::TokensCreated::build_shape(),
    ));
    let absent_reply = encode(&shape, &TypedValue::OptNone).unwrap();
    let absent = facade::reply_opt_tokens_created(&absent_reply).unwrap();
    assert!(absent.is_none());

    // get(N - 1): the remote reports a present event.
    let _get_last = facade::event_tokens_created_get(&ctx, n - 1);
    let event = TypedValue::OptSome(Box::new(tuple3(
        TypedValue::Nat(BigNat::from_u64(10)),
        TypedValue::Nat(BigNat::from_u64(0)),
        TypedValue::Nat(BigNat::from_u64(500)),
    )));
    let present_reply = encode(&shape, &event).unwrap();
    let present = facade::reply_opt_tokens_created(&present_reply).unwrap();
    let t = present.expect("an index below the count is present");
    assert_eq!(t.unique_asset_id, BigNat::from_u64(10));
    assert_eq!(t.previous_amount, BigNat::from_u64(0));
    assert_eq!(t.current_amount, BigNat::from_u64(500));
}

#[test]
fn reply_parsers_read_records_and_primitives() {
    // An acknowledgement record.
    let reply = encode(
        &coreledger_client::domain::Response::build_shape(),
        &coreledger_client::value::tuple1(TypedValue::Nat(BigNat::from_u64(9))),
    )
    .unwrap();
    let resp = facade::reply_response(&reply).unwrap();
    assert_eq!(resp.tx_id, BigNat::from_u64(9));

    // A bare integer reply.
    let nat_reply = encode(&Shape::Nat, &TypedValue::Nat(BigNat::from_u64(1000))).unwrap();
    assert_eq!(facade::reply_nat(&nat_reply).unwrap(), BigNat::from_u64(1000));

    // A boolean reply.
    let bool_reply = encode(&Shape::Bool, &TypedValue::Bool(true)).unwrap();
    assert!(facade::reply_bool(&bool_reply).unwrap());

    // An optional integer reply, absent.
    let opt_reply = encode(&Shape::Opt(Box::new(Shape::Nat)), &TypedValue::OptNone).unwrap();
    assert!(facade::reply_opt_nat(&opt_reply).unwrap().is_none());
}

#[test]
fn reply_text_decodes_utf8_and_rejects_garbage() {
    let ok = encode(&Shape::Text, &TypedValue::Text(vec![104, 105])).unwrap();
    assert_eq!(facade::reply_text(&ok).unwrap(), "hi");

    // 0xFF is never valid UTF-8.
    let bad = encode(&Shape::Text, &TypedValue::Text(vec![0xFF])).unwrap();
    assert!(matches!(
        facade::reply_text(&bad),
        Err(InvokeError::Decoding)
    ));
}

#[test]
fn reply_transaction_reads_event_list() {
    let event = tuple4(
        TypedValue::OptNone,
        TypedValue::OptSome(Box::new(TypedValue::N16(1))),
        TypedValue::N64(0),
        TypedValue::Variant(7, Box::new(tuple0())),
    );
    let tx = tuple3(
        TypedValue::N64(123456),
        TypedValue::Nat(BigNat::from_u64(8)),
        TypedValue::List(Box::new(ValueList::Cons(event, Box::new(ValueList::Nil)))),
    );
    let shape = Shape::Opt(Box::new(
        coreledger_client::domain::Transaction::build_shape(),
    ));
    let reply = encode(&shape, &TypedValue::OptSome(Box::new(tx))).unwrap();
    let t = facade::reply_opt_transaction(&reply).unwrap().unwrap();
    assert_eq!(t.occured_on, 123456);
    assert_eq!(t.tx_id, BigNat::from_u64(8));
    assert_eq!(t.events.len(), 1);
    assert!(t.events[0].event_type == coreledger_client::domain::EventType::TokensCreated);
    assert_eq!(t.events[0].ledger_id, Some(1));
    assert_eq!(t.events[0].event_ix, 0);
    assert!(t.events[0].contract_id.is_none());
}
