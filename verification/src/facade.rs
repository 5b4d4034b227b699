//! The method facade: one strongly-typed operation per catalog method.
//!
//! Each operation builds well-typed arguments by construction, so encoding
//! cannot fail, and captures the context's identity and tracing flag at
//! preparation time. The reply of each operation is read by the parser for
//! its response type (`reply_*` below); the surrounding program carries the
//! prepared call over the transport and hands the raw reply bytes back.

use vstd::prelude::*;
use vstd::string::StringSliceAdditionalSpecFns;
use vstd::utf8::{valid_utf8, encode_utf8};
use crate::outside::string_from_utf8;
use crate::bignat::BigNat;
use crate::shape::{Shape, ShapeList, spec_sl1, spec_sl2, spec_sl3, spec_sl4, spec_sl5, spec_sl9};
use crate::value::{
    TypedValue,
    ValueList,
    ValModel,
    view_value_list,
    has_shape,
    unnat,
    unbool,
    unu8,
    unu16,
    unu64,
    untext,
    unaddress,
    unopt,
    lemma_fields_nil,
    lemma_fields_cons,
    lemma_has_shape_opt,
    tuple0,
    tuple1,
    tuple2,
    tuple3,
    tuple4,
    tuple5,
};
use crate::codec::{enc, dec_exact, decode};

use crate::context::InvocationContext;
use crate::invoker::{Channel, PreparedCall, prepare_checked};
use crate::catalog::{Method, method_name, request_shape, descriptor};
use crate::errors::InvokeError;
use crate::domain::{
    CallerAddress,
    nat_m,
    addr_m,
    opt_nat_m,
    opt_addr_m,
    opt_nat_wf,
    opt_addr_wf,
    opt_nat_value,
    opt_addr_value,
    nat_list_from,
    addr_list_from,
    u8_list_from,
    Response,
    ResponseSupplyId,
    ResponseAmendmentId,
    ResponseContractId,
    AccountUpdate,
    AdministratorChanged,
    AmendmentUpdate,
    AssetUpdate,
    BlacklistChanged,
    ControllerCreated,
    LedgerAdded,
    LimitChanged,
    LimitConsumed,
    OwnershipTransferred,
    PauseChanged,
    PricingChanged,
    SupplyUpdate,
    TokensCreated,
    TokensDestroyed,
    Amendment,
    Asset,
    Supply,
    Transaction,
    CreateSupplyRequest,
    RunWarpRequest,
};

verus! {

/// Prepares the `ctr_get_consume_supply` query with its typed arguments.
pub fn ctr_get_consume_supply(ctx: &InvocationContext, controller_id: BigNat, receiver: CallerAddress, supply_id: BigNat, amount: BigNat) -> (r: PreparedCall)
    requires
        controller_id.wf(),
        receiver.wf(),
        supply_id.wf(),
        amount.wf(),
    ensures
        r.name@ == method_name(Method::CtrGetConsumeSupply),
        r.channel == Channel::Query,
        r.envelope@ == enc(request_shape(Method::CtrGetConsumeSupply), ValModel::Tuple(seq![nat_m(controller_id), addr_m(receiver), nat_m(supply_id), nat_m(amount)])),
        r.signer@ == ctx.identity@,
        r.trace == ctx.trace_enabled,
{
    let _len_controller_id: usize = controller_id.bytes.len();
    let _len_supply_id: usize = supply_id.bytes.len();
    let _len_amount: usize = amount.bytes.len();
    let ghost margs = ValModel::Tuple(seq![nat_m(controller_id), addr_m(receiver), nat_m(supply_id), nat_m(amount)]);
    let args = tuple4(TypedValue::Nat(controller_id), TypedValue::Address(receiver.bytes), TypedValue::Nat(supply_id), TypedValue::Nat(amount));
    proof {
        let vs0 = margs->Tuple_0;
        assert(vs0 =~= seq![nat_m(controller_id), addr_m(receiver), nat_m(supply_id), nat_m(amount)]);
        lemma_fields_cons(vs0, Shape::Nat, spec_sl3(Shape::Address, Shape::Nat, Shape::Nat));
        let vs1 = vs0.skip(1);
        assert(vs1 =~= seq![addr_m(receiver), nat_m(supply_id), nat_m(amount)]);
        lemma_fields_cons(vs1, Shape::Address, spec_sl2(Shape::Nat, Shape::Nat));
        let vs2 = vs1.skip(1);
        assert(vs2 =~= seq![nat_m(supply_id), nat_m(amount)]);
        lemma_fields_cons(vs2, Shape::Nat, spec_sl1(Shape::Nat));
        let vs3 = vs2.skip(1);
        assert(vs3 =~= seq![nat_m(amount)]);
        lemma_fields_cons(vs3, Shape::Nat, ShapeList::Nil);
        let vs4 = vs3.skip(1);
        assert(vs4 =~= Seq::<ValModel>::empty());
        lemma_fields_nil(vs4);
        assert(args@->Tuple_0 =~= margs->Tuple_0);
        assert(args@ =~= margs);
        assert(has_shape(margs, request_shape(Method::CtrGetConsumeSupply)));
    }
    prepare_checked(ctx, descriptor(Method::CtrGetConsumeSupply), args)
}

/// Prepares the `ctr_get_make_supply` query with its typed arguments.
pub fn ctr_get_make_supply(ctx: &InvocationContext, controller_id: BigNat, owner: CallerAddress, offered_unique_asset_id: BigNat, desired_unique_asset_id: BigNat, amount: BigNat) -> (r: PreparedCall)
    requires
        controller_id.wf(),
        owner.wf(),
        offered_unique_asset_id.wf(),
        desired_unique_asset_id.wf(),
        amount.wf(),
    ensures
        r.name@ == method_name(Method::CtrGetMakeSupply),
        r.channel == Channel::Query,
        r.envelope@ == enc(request_shape(Method::CtrGetMakeSupply), ValModel::Tuple(seq![nat_m(controller_id), addr_m(owner), nat_m(offered_unique_asset_id), nat_m(desired_unique_asset_id), nat_m(amount)])),
        r.signer@ == ctx.identity@,
        r.trace == ctx.trace_enabled,
{
    let _len_controller_id: usize = controller_id.bytes.len();
    let _len_offered_unique_asset_id: usize = offered_unique_asset_id.bytes.len();
    let _len_desired_unique_asset_id: usize = desired_unique_asset_id.bytes.len();
    let _len_amount: usize = amount.bytes.len();
    let ghost margs = ValModel::Tuple(seq![nat_m(controller_id), addr_m(owner), nat_m(offered_unique_asset_id), nat_m(desired_unique_asset_id), nat_m(amount)]);
    let args = tuple5(TypedValue::Nat(controller_id), TypedValue::Address(owner.bytes), TypedValue::Nat(offered_unique_asset_id), TypedValue::Nat(desired_unique_asset_id), TypedValue::Nat(amount));
    proof {
        let vs0 = margs->Tuple_0;
        assert(vs0 =~= seq![nat_m(controller_id), addr_m(owner), nat_m(offered_unique_asset_id), nat_m(desired_unique_asset_id), nat_m(amount)]);
        lemma_fields_cons(vs0, Shape::Nat, spec_sl4(Shape::Address, Shape::Nat, Shape::Nat, Shape::Nat));
        let vs1 = vs0.skip(1);
        assert(vs1 =~= seq![addr_m(owner), nat_m(offered_unique_asset_id), nat_m(desired_unique_asset_id), nat_m(amount)]);
        lemma_fields_cons(vs1, Shape::Address, spec_sl3(Shape::Nat, Shape::Nat, Shape::Nat));
        let vs2 = vs1.skip(1);
        assert(vs2 =~= seq![nat_m(offered_unique_asset_id), nat_m(desired_unique_asset_id), nat_m(amount)]);
        lemma_fields_cons(vs2, Shape::Nat, spec_sl2(Shape::Nat, Shape::Nat));
        let vs3 = vs2.skip(1);
        assert(vs3 =~= seq![nat_m(desired_unique_asset_id), nat_m(amount)]);
        lemma_fields_cons(vs3, Shape::Nat, spec_sl1(Shape::Nat));
        let vs4 = vs3.skip(1);
        assert(vs4 =~= seq![nat_m(amount)]);
        lemma_fields_cons(vs4, Shape::Nat, ShapeList::Nil);
        let vs5 = vs4.skip(1);
        assert(vs5 =~= Seq::<ValModel>::empty());
        lemma_fields_nil(vs5);
        assert(args@->Tuple_0 =~= margs->Tuple_0);
        assert(args@ =~= margs);
        assert(has_shape(margs, request_shape(Method::CtrGetMakeSupply)));
    }
    prepare_checked(ctx, descriptor(Method::CtrGetMakeSupply), args)
}

/// Prepares the `ctr_get_send` query with its typed arguments.
pub fn ctr_get_send(ctx: &InvocationContext, controller_id: BigNat, sender: Option<CallerAddress>, receiver: Option<CallerAddress>, amount: BigNat) -> (r: PreparedCall)
    requires
        controller_id.wf(),
        opt_addr_wf(&sender),
        opt_addr_wf(&receiver),
        amount.wf(),
    ensures
        r.name@ == method_name(Method::CtrGetSend),
        r.channel == Channel::Query,
        r.envelope@ == enc(request_shape(Method::CtrGetSend), ValModel::Tuple(seq![nat_m(controller_id), opt_addr_m(sender), opt_addr_m(receiver), nat_m(amount)])),
        r.signer@ == ctx.identity@,
        r.trace == ctx.trace_enabled,
{
    let _len_controller_id: usize = controller_id.bytes.len();
    let _len_amount: usize = amount.bytes.len();
    let ghost margs = ValModel::Tuple(seq![nat_m(controller_id), opt_addr_m(sender), opt_addr_m(receiver), nat_m(amount)]);
    let args = tuple4(TypedValue::Nat(controller_id), opt_addr_value(sender), opt_addr_value(receiver), TypedValue::Nat(amount));
    proof {
        let vs0 = margs->Tuple_0;
        assert(vs0 =~= seq![nat_m(controller_id), opt_addr_m(sender), opt_addr_m(receiver), nat_m(amount)]);
        lemma_fields_cons(vs0, Shape::Nat, spec_sl3(Shape::Opt(Box::new(Shape::Address)), Shape::Opt(Box::new(Shape::Address)), Shape::Nat));
        let vs1 = vs0.skip(1);
        assert(vs1 =~= seq![opt_addr_m(sender), opt_addr_m(receiver), nat_m(amount)]);
        lemma_fields_cons(vs1, Shape::Opt(Box::new(Shape::Address)), spec_sl2(Shape::Opt(Box::new(Shape::Address)), Shape::Nat));
        let vs2 = vs1.skip(1);
        assert(vs2 =~= seq![opt_addr_m(receiver), nat_m(amount)]);
        lemma_fields_cons(vs2, Shape::Opt(Box::new(Shape::Address)), spec_sl1(Shape::Nat));
        let vs3 = vs2.skip(1);
        assert(vs3 =~= seq![nat_m(amount)]);
        lemma_fields_cons(vs3, Shape::Nat, ShapeList::Nil);
        let vs4 = vs3.skip(1);
        assert(vs4 =~= Seq::<ValModel>::empty());
        lemma_fields_nil(vs4);
        lemma_has_shape_opt(opt_addr_m(sender), Shape::Address);
        lemma_has_shape_opt(opt_addr_m(receiver), Shape::Address);
        assert(args@->Tuple_0 =~= margs->Tuple_0);
        assert(args@ =~= margs);
        assert(has_shape(margs, request_shape(Method::CtrGetSend)));
    }
    prepare_checked(ctx, descriptor(Method::CtrGetSend), args)
}

/// Prepares the `ctr_remove_address` update with its typed arguments.
pub fn ctr_remove_address(ctx: &InvocationContext, contract_id: BigNat, address: CallerAddress) -> (r: PreparedCall)
    requires
        contract_id.wf(),
        address.wf(),
    ensures
        r.name@ == method_name(Method::CtrRemoveAddress),
        r.channel == Channel::Update,
        r.envelope@ == enc(request_shape(Method::CtrRemoveAddress), ValModel::Tuple(seq![nat_m(contract_id), addr_m(address)])),
        r.signer@ == ctx.identity@,
        r.trace == ctx.trace_enabled,
{
    let _len_contract_id: usize = contract_id.bytes.len();
    let ghost margs = ValModel::Tuple(seq![nat_m(contract_id), addr_m(address)]);
    let args = tuple2(TypedValue::Nat(contract_id), TypedValue::Address(address.bytes));
    proof {
        let vs0 = margs->Tuple_0;
        assert(vs0 =~= seq![nat_m(contract_id), addr_m(address)]);
        lemma_fields_cons(vs0, Shape::Nat, spec_sl1(Shape::Address));
        let vs1 = vs0.skip(1);
        assert(vs1 =~= seq![addr_m(address)]);
        lemma_fields_cons(vs1, Shape::Address, ShapeList::Nil);
        let vs2 = vs1.skip(1);
        assert(vs2 =~= Seq::<ValModel>::empty());
        lemma_fields_nil(vs2);
        assert(args@->Tuple_0 =~= margs->Tuple_0);
        assert(args@ =~= margs);
        assert(has_shape(margs, request_shape(Method::CtrRemoveAddress)));
    }
    prepare_checked(ctx, descriptor(Method::CtrRemoveAddress), args)
}

/// Prepares the `ctr_remove_address` update with its typed arguments.
/// Note: this operation dispatches the same wire name as its singular
/// form; the remote schema is authoritative on whether that is intended.
pub fn ctr_remove_address_array(ctx: &InvocationContext, contract_id: BigNat, addresses: Vec<CallerAddress>) -> (r: PreparedCall)
    requires
        contract_id.wf(),
        (forall|i: int| 0 <= i < addresses@.len() ==> (#[trigger] addresses@[i]).wf()),
    ensures
        r.name@ == method_name(Method::CtrRemoveAddressArray),
        r.channel == Channel::Update,
        r.envelope@ == enc(request_shape(Method::CtrRemoveAddressArray), ValModel::Tuple(seq![nat_m(contract_id), ValModel::List(Seq::new(addresses@.len(), |i: int| addr_m(addresses@[i])))])),
        r.signer@ == ctx.identity@,
        r.trace == ctx.trace_enabled,
{
    let _len_contract_id: usize = contract_id.bytes.len();
    let _n_addresses: usize = addresses.len();
    let list_addresses = addr_list_from(&addresses, 0);
    let ghost margs = ValModel::Tuple(seq![nat_m(contract_id), ValModel::List(Seq::new(addresses@.len(), |i: int| addr_m(addresses@[i])))]);
    let args = tuple2(TypedValue::Nat(contract_id), TypedValue::List(Box::new(list_addresses)));
    proof {
        let vs0 = margs->Tuple_0;
        assert(vs0 =~= seq![nat_m(contract_id), ValModel::List(Seq::new(addresses@.len(), |i: int| addr_m(addresses@[i])))]);
        lemma_fields_cons(vs0, Shape::Nat, spec_sl1(Shape::List(Box::new(Shape::Address))));
        let vs1 = vs0.skip(1);
        assert(vs1 =~= seq![ValModel::List(Seq::new(addresses@.len(), |i: int| addr_m(addresses@[i])))]);
        lemma_fields_cons(vs1, Shape::List(Box::new(Shape::Address)), ShapeList::Nil);
        let vs2 = vs1.skip(1);
        assert(vs2 =~= Seq::<ValModel>::empty());
        lemma_fields_nil(vs2);
        assert(view_value_list(&list_addresses) =~= Seq::new(addresses@.len(), |i: int| addr_m(addresses@[i])));
        assert forall|i: int|
            0 <= i < view_value_list(&list_addresses).len() implies has_shape(
            #[trigger] view_value_list(&list_addresses)[i],
            Shape::Address,
        ) by {
                assert(addresses@[i].wf());
        }
        assert(args@->Tuple_0 =~= margs->Tuple_0);
        assert(args@ =~= margs);
        assert(has_shape(margs, request_shape(Method::CtrRemoveAddressArray)));
    }
    prepare_checked(ctx, descriptor(Method::CtrRemoveAddressArray), args)
}

/// Prepares the `ctr_remove_blacklist` update with its typed arguments.
pub fn ctr_remove_blacklist(ctx: &InvocationContext, contract_id: BigNat, address: CallerAddress) -> (r: PreparedCall)
    requires
        contract_id.wf(),
        address.wf(),
    ensures
        r.name@ == method_name(Method::CtrRemoveBlacklist),
        r.channel == Channel::Update,
        r.envelope@ == enc(request_shape(Method::CtrRemoveBlacklist), ValModel::Tuple(seq![nat_m(contract_id), addr_m(address)])),
        r.signer@ == ctx.identity@,
        r.trace == ctx.trace_enabled,
{
    let _len_contract_id: usize = contract_id.bytes.len();
    let ghost margs = ValModel::Tuple(seq![nat_m(contract_id), addr_m(address)]);
    let args = tuple2(TypedValue::Nat(contract_id), TypedValue::Address(address.bytes));
    proof {
        let vs0 = margs->Tuple_0;
        assert(vs0 =~= seq![nat_m(contract_id), addr_m(address)]);
        lemma_fields_cons(vs0, Shape::Nat, spec_sl1(Shape::Address));
        let vs1 = vs0.skip(1);
        assert(vs1 =~= seq![addr_m(address)]);
        lemma_fields_cons(vs1, Shape::Address, ShapeList::Nil);
        let vs2 = vs1.skip(1);
        assert(vs2 =~= Seq::<ValModel>::empty());
        lemma_fields_nil(vs2);
        assert(args@->Tuple_0 =~= margs->Tuple_0);
        assert(args@ =~= margs);
        assert(has_shape(margs, request_shape(Method::CtrRemoveBlacklist)));
    }
    prepare_checked(ctx, descriptor(Method::CtrRemoveBlacklist), args)
}

/// Prepares the `ctr_remove_blacklist_array` update with its typed arguments.
pub fn ctr_remove_blacklist_array(ctx: &InvocationContext, contract_id: BigNat, addresses: Vec<CallerAddress>) -> (r: PreparedCall)
    requires
        contract_id.wf(),
        (forall|i: int| 0 <= i < addresses@.len() ==> (#[trigger] addresses@[i]).wf()),
    ensures
        r.name@ == method_name(Method::CtrRemoveBlacklistArray),
        r.channel == Channel::Update,
        r.envelope@ == enc(request_shape(Method::CtrRemoveBlacklistArray), ValModel::Tuple(seq![nat_m(contract_id), ValModel::List(Seq::new(addresses@.len(), |i: int| addr_m(addresses@[i])))])),
        r.signer@ == ctx.identity@,
        r.trace == ctx.trace_enabled,
{
    let _len_contract_id: usize = contract_id.bytes.len();
    let _n_addresses: usize = addresses.len();
    let list_addresses = addr_list_from(&addresses, 0);
    let ghost margs = ValModel::Tuple(seq![nat_m(contract_id), ValModel::List(Seq::new(addresses@.len(), |i: int| addr_m(addresses@[i])))]);
    let args = tuple2(TypedValue::Nat(contract_id), TypedValue::List(Box::new(list_addresses)));
    proof {
        let vs0 = margs->Tuple_0;
        assert(vs0 =~= seq![nat_m(contract_id), ValModel::List(Seq::new(addresses@.len(), |i: int| addr_m(addresses@[i])))]);
        lemma_fields_cons(vs0, Shape::Nat, spec_sl1(Shape::List(Box::new(Shape::Address))));
        let vs1 = vs0.skip(1);
        assert(vs1 =~= seq![ValModel::List(Seq::new(addresses@.len(), |i: int| addr_m(addresses@[i])))]);
        lemma_fields_cons(vs1, Shape::List(Box::new(Shape::Address)), ShapeList::Nil);
        let vs2 = vs1.skip(1);
        assert(vs2 =~= Seq::<ValModel>::empty());
        lemma_fields_nil(vs2);
        assert(view_value_list(&list_addresses) =~= Seq::new(addresses@.len(), |i: int| addr_m(addresses@[i])));
        assert forall|i: int|
            0 <= i < view_value_list(&list_addresses).len() implies has_shape(
            #[trigger] view_value_list(&list_addresses)[i],
            Shape::Address,
        ) by {
                assert(addresses@[i].wf());
        }
        assert(args@->Tuple_0 =~= margs->Tuple_0);
        assert(args@ =~= margs);
        assert(has_shape(margs, request_shape(Method::CtrRemoveBlacklistArray)));
    }
    prepare_checked(ctx, descriptor(Method::CtrRemoveBlacklistArray), args)
}

/// Prepares the `ctr_set_blacklist` update with its typed arguments.
pub fn ctr_set_blacklist(ctx: &InvocationContext, contract_id: BigNat, address: CallerAddress, code: u8) -> (r: PreparedCall)
    requires
        contract_id.wf(),
        address.wf(),
    ensures
        r.name@ == method_name(Method::CtrSetBlacklist),
        r.channel == Channel::Update,
        r.envelope@ == enc(request_shape(Method::CtrSetBlacklist), ValModel::Tuple(seq![nat_m(contract_id), addr_m(address), ValModel::N8(code)])),
        r.signer@ == ctx.identity@,
        r.trace == ctx.trace_enabled,
{
    let _len_contract_id: usize = contract_id.bytes.len();
    let ghost margs = ValModel::Tuple(seq![nat_m(contract_id), addr_m(address), ValModel::N8(code)]);
    let args = tuple3(TypedValue::Nat(contract_id), TypedValue::Address(address.bytes), TypedValue::N8(code));
    proof {
        let vs0 = margs->Tuple_0;
        assert(vs0 =~= seq![nat_m(contract_id), addr_m(address), ValModel::N8(code)]);
        lemma_fields_cons(vs0, Shape::Nat, spec_sl2(Shape::Address, Shape::N8));
        let vs1 = vs0.skip(1);
        assert(vs1 =~= seq![addr_m(address), ValModel::N8(code)]);
        lemma_fields_cons(vs1, Shape::Address, spec_sl1(Shape::N8));
        let vs2 = vs1.skip(1);
        assert(vs2 =~= seq![ValModel::N8(code)]);
        lemma_fields_cons(vs2, Shape::N8, ShapeList::Nil);
        let vs3 = vs2.skip(1);
        assert(vs3 =~= Seq::<ValModel>::empty());
        lemma_fields_nil(vs3);
        assert(args@->Tuple_0 =~= margs->Tuple_0);
        assert(args@ =~= margs);
        assert(has_shape(margs, request_shape(Method::CtrSetBlacklist)));
    }
    prepare_checked(ctx, descriptor(Method::CtrSetBlacklist), args)
}

/// Prepares the `ctr_set_blacklist_array` update with its typed arguments.
pub fn ctr_set_blacklist_array(ctx: &InvocationContext, contract_id: BigNat, addresses: Vec<CallerAddress>, codes: Vec<u8>) -> (r: PreparedCall)
    requires
        contract_id.wf(),
        (forall|i: int| 0 <= i < addresses@.len() ==> (#[trigger] addresses@[i]).wf()),
    ensures
        r.name@ == method_name(Method::CtrSetBlacklistArray),
        r.channel == Channel::Update,
        r.envelope@ == enc(request_shape(Method::CtrSetBlacklistArray), ValModel::Tuple(seq![nat_m(contract_id), ValModel::List(Seq::new(addresses@.len(), |i: int| addr_m(addresses@[i]))), ValModel::List(Seq::new(codes@.len(), |i: int| ValModel::N8(codes@[i])))])),
        r.signer@ == ctx.identity@,
        r.trace == ctx.trace_enabled,
{
    let _len_contract_id: usize = contract_id.bytes.len();
    let _n_addresses: usize = addresses.len();
    let list_addresses = addr_list_from(&addresses, 0);
    let _n_codes: usize = codes.len();
    let list_codes = u8_list_from(&codes, 0);
    let ghost margs = ValModel::Tuple(seq![nat_m(contract_id), ValModel::List(Seq::new(addresses@.len(), |i: int| addr_m(addresses@[i]))), ValModel::List(Seq::new(codes@.len(), |i: int| ValModel::N8(codes@[i])))]);
    let args = tuple3(TypedValue::Nat(contract_id), TypedValue::List(Box::new(list_addresses)), TypedValue::List(Box::new(list_codes)));
    proof {
        let vs0 = margs->Tuple_0;
        assert(vs0 =~= seq![nat_m(contract_id), ValModel::List(Seq::new(addresses@.len(), |i: int| addr_m(addresses@[i]))), ValModel::List(Seq::new(codes@.len(), |i: int| ValModel::N8(codes@[i])))]);
        lemma_fields_cons(vs0, Shape::Nat, spec_sl2(Shape::List(Box::new(Shape::Address)), Shape::List(Box::new(Shape::N8))));
        let vs1 = vs0.skip(1);
        assert(vs1 =~= seq![ValModel::List(Seq::new(addresses@.len(), |i: int| addr_m(addresses@[i]))), ValModel::List(Seq::new(codes@.len(), |i: int| ValModel::N8(codes@[i])))]);
        lemma_fields_cons(vs1, Shape::List(Box::new(Shape::Address)), spec_sl1(Shape::List(Box::new(Shape::N8))));
        let vs2 = vs1.skip(1);
        assert(vs2 =~= seq![ValModel::List(Seq::new(codes@.len(), |i: int| ValModel::N8(codes@[i])))]);
        lemma_fields_cons(vs2, Shape::List(Box::new(Shape::N8)), ShapeList::Nil);
        let vs3 = vs2.skip(1);
        assert(vs3 =~= Seq::<ValModel>::empty());
        lemma_fields_nil(vs3);
        assert(view_value_list(&list_addresses) =~= Seq::new(addresses@.len(), |i: int| addr_m(addresses@[i])));
        assert forall|i: int|
            0 <= i < view_value_list(&list_addresses).len() implies has_shape(
            #[trigger] view_value_list(&list_addresses)[i],
            Shape::Address,
        ) by {
                assert(addresses@[i].wf());
        }
        assert(view_value_list(&list_codes) =~= Seq::new(codes@.len(), |i: int| ValModel::N8(codes@[i])));
        assert forall|i: int|
            0 <= i < view_value_list(&list_codes).len() implies has_shape(
            #[trigger] view_value_list(&list_codes)[i],
            Shape::N8,
        ) by {
        }
        assert(args@->Tuple_0 =~= margs->Tuple_0);
        assert(args@ =~= margs);
        assert(has_shape(margs, request_shape(Method::CtrSetBlacklistArray)));
    }
    prepare_checked(ctx, descriptor(Method::CtrSetBlacklistArray), args)
}

/// Prepares the `ctr_set_limit` update with its typed arguments.
pub fn ctr_set_limit(ctx: &InvocationContext, contract_id: BigNat, address: CallerAddress, limit: BigNat) -> (r: PreparedCall)
    requires
        contract_id.wf(),
        address.wf(),
        limit.wf(),
    ensures
        r.name@ == method_name(Method::CtrSetLimit),
        r.channel == Channel::Update,
        r.envelope@ == enc(request_shape(Method::CtrSetLimit), ValModel::Tuple(seq![nat_m(contract_id), addr_m(address), nat_m(limit)])),
        r.signer@ == ctx.identity@,
        r.trace == ctx.trace_enabled,
{
    let _len_contract_id: usize = contract_id.bytes.len();
    let _len_limit: usize = limit.bytes.len();
    let ghost margs = ValModel::Tuple(seq![nat_m(contract_id), addr_m(address), nat_m(limit)]);
    let args = tuple3(TypedValue::Nat(contract_id), TypedValue::Address(address.bytes), TypedValue::Nat(limit));
    proof {
        let vs0 = margs->Tuple_0;
        assert(vs0 =~= seq![nat_m(contract_id), addr_m(address), nat_m(limit)]);
        lemma_fields_cons(vs0, Shape::Nat, spec_sl2(Shape::Address, Shape::Nat));
        let vs1 = vs0.skip(1);
        assert(vs1 =~= seq![addr_m(address), nat_m(limit)]);
        lemma_fields_cons(vs1, Shape::Address, spec_sl1(Shape::Nat));
        let vs2 = vs1.skip(1);
        assert(vs2 =~= seq![nat_m(limit)]);
        lemma_fields_cons(vs2, Shape::Nat, ShapeList::Nil);
        let vs3 = vs2.skip(1);
        assert(vs3 =~= Seq::<ValModel>::empty());
        lemma_fields_nil(vs3);
        assert(args@->Tuple_0 =~= margs->Tuple_0);
        assert(args@ =~= margs);
        assert(has_shape(margs, request_shape(Method::CtrSetLimit)));
    }
    prepare_checked(ctx, descriptor(Method::CtrSetLimit), args)
}

/// Prepares the `ctr_set_limit_array` update with its typed arguments.
pub fn ctr_set_limit_array(ctx: &InvocationContext, contract_id: BigNat, addresses: Vec<CallerAddress>, limits: Vec<BigNat>) -> (r: PreparedCall)
    requires
        contract_id.wf(),
        (forall|i: int| 0 <= i < addresses@.len() ==> (#[trigger] addresses@[i]).wf()),
        (forall|i: int| 0 <= i < limits@.len() ==> (#[trigger] limits@[i]).wf()),
    ensures
        r.name@ == method_name(Method::CtrSetLimitArray),
        r.channel == Channel::Update,
        r.envelope@ == enc(request_shape(Method::CtrSetLimitArray), ValModel::Tuple(seq![nat_m(contract_id), ValModel::List(Seq::new(addresses@.len(), |i: int| addr_m(addresses@[i]))), ValModel::List(Seq::new(limits@.len(), |i: int| nat_m(limits@[i])))])),
        r.signer@ == ctx.identity@,
        r.trace == ctx.trace_enabled,
{
    let _len_contract_id: usize = contract_id.bytes.len();
    let _n_addresses: usize = addresses.len();
    let list_addresses = addr_list_from(&addresses, 0);
    let _n_limits: usize = limits.len();
    let list_limits = nat_list_from(&limits, 0);
    let ghost margs = ValModel::Tuple(seq![nat_m(contract_id), ValModel::List(Seq::new(addresses@.len(), |i: int| addr_m(addresses@[i]))), ValModel::List(Seq::new(limits@.len(), |i: int| nat_m(limits@[i])))]);
    let args = tuple3(TypedValue::Nat(contract_id), TypedValue::List(Box::new(list_addresses)), TypedValue::List(Box::new(list_limits)));
    proof {
        let vs0 = margs->Tuple_0;
        assert(vs0 =~= seq![nat_m(contract_id), ValModel::List(Seq::new(addresses@.len(), |i: int| addr_m(addresses@[i]))), ValModel::List(Seq::new(limits@.len(), |i: int| nat_m(limits@[i])))]);
        lemma_fields_cons(vs0, Shape::Nat, spec_sl2(Shape::List(Box::new(Shape::Address)), Shape::List(Box::new(Shape::Nat))));
        let vs1 = vs0.skip(1);
        assert(vs1 =~= seq![ValModel::List(Seq::new(addresses@.len(), |i: int| addr_m(addresses@[i]))), ValModel::List(Seq::new(limits@.len(), |i: int| nat_m(limits@[i])))]);
        lemma_fields_cons(vs1, Shape::List(Box::new(Shape::Address)), spec_sl1(Shape::List(Box::new(Shape::Nat))));
        let vs2 = vs1.skip(1);
        assert(vs2 =~= seq![ValModel::List(Seq::new(limits@.len(), |i: int| nat_m(limits@[i])))]);
        lemma_fields_cons(vs2, Shape::List(Box::new(Shape::Nat)), ShapeList::Nil);
        let vs3 = vs2.skip(1);
        assert(vs3 =~= Seq::<ValModel>::empty());
        lemma_fields_nil(vs3);
        assert(view_value_list(&list_addresses) =~= Seq::new(addresses@.len(), |i: int| addr_m(addresses@[i])));
        assert forall|i: int|
            0 <= i < view_value_list(&list_addresses).len() implies has_shape(
            #[trigger] view_value_list(&list_addresses)[i],
            Shape::Address,
        ) by {
                assert(addresses@[i].wf());
        }
        assert(view_value_list(&list_limits) =~= Seq::new(limits@.len(), |i: int| nat_m(limits@[i])));
        assert forall|i: int|
            0 <= i < view_value_list(&list_limits).len() implies has_shape(
            #[trigger] view_value_list(&list_limits)[i],
            Shape::Nat,
        ) by {
                assert(limits@[i].wf());
        }
        assert(args@->Tuple_0 =~= margs->Tuple_0);
        assert(args@ =~= margs);
        assert(has_shape(margs, request_shape(Method::CtrSetLimitArray)));
    }
    prepare_checked(ctx, descriptor(Method::CtrSetLimitArray), args)
}

/// Prepares the `ctr_validate_usage_controller` query with its typed arguments.
pub fn ctr_validate_usage_controller(ctx: &InvocationContext, controller: Option<BigNat>) -> (r: PreparedCall)
    requires
        opt_nat_wf(&controller),
    ensures
        r.name@ == method_name(Method::CtrValidateUsageController),
        r.channel == Channel::Query,
        r.envelope@ == enc(request_shape(Method::CtrValidateUsageController), ValModel::Tuple(seq![opt_nat_m(controller)])),
        r.signer@ == ctx.identity@,
        r.trace == ctx.trace_enabled,
{
    match &controller {
        Option::Some(n) => {
            let _len_controller: usize = n.bytes.len();
        },
        Option::None => {},
    }
    let ghost margs = ValModel::Tuple(seq![opt_nat_m(controller)]);
    let args = tuple1(opt_nat_value(controller));
    proof {
        let vs0 = margs->Tuple_0;
        assert(vs0 =~= seq![opt_nat_m(controller)]);
        lemma_fields_cons(vs0, Shape::Opt(Box::new(Shape::Nat)), ShapeList::Nil);
        let vs1 = vs0.skip(1);
        assert(vs1 =~= Seq::<ValModel>::empty());
        lemma_fields_nil(vs1);
        lemma_has_shape_opt(opt_nat_m(controller), Shape::Nat);
        assert(args@->Tuple_0 =~= margs->Tuple_0);
        assert(args@ =~= margs);
        assert(has_shape(margs, request_shape(Method::CtrValidateUsageController)));
    }
    prepare_checked(ctx, descriptor(Method::CtrValidateUsageController), args)
}

/// Prepares the `event_account_update_count` query with its typed arguments.
pub fn event_account_update_count(ctx: &InvocationContext) -> (r: PreparedCall)
    ensures
        r.name@ == method_name(Method::EventAccountUpdateCount),
        r.channel == Channel::Query,
        r.envelope@ == enc(request_shape(Method::EventAccountUpdateCount), ValModel::Tuple(Seq::<ValModel>::empty())),
        r.signer@ == ctx.identity@,
        r.trace == ctx.trace_enabled,
{
    let ghost margs = ValModel::Tuple(Seq::<ValModel>::empty());
    let args = tuple0();
    proof {
        let vs0 = margs->Tuple_0;
        lemma_fields_nil(vs0);
        assert(args@->Tuple_0 =~= margs->Tuple_0);
        assert(args@ =~= margs);
        assert(has_shape(margs, request_shape(Method::EventAccountUpdateCount)));
    }
    prepare_checked(ctx, descriptor(Method::EventAccountUpdateCount), args)
}

/// Prepares the `event_account_update_get` query with its typed arguments.
pub fn event_account_update_get(ctx: &InvocationContext, event_ix: u64) -> (r: PreparedCall)
    ensures
        r.name@ == method_name(Method::EventAccountUpdateGet),
        r.channel == Channel::Query,
        r.envelope@ == enc(request_shape(Method::EventAccountUpdateGet), ValModel::Tuple(seq![ValModel::N64(event_ix)])),
        r.signer@ == ctx.identity@,
        r.trace == ctx.trace_enabled,
{
    let ghost margs = ValModel::Tuple(seq![ValModel::N64(event_ix)]);
    let args = tuple1(TypedValue::N64(event_ix));
    proof {
        let vs0 = margs->Tuple_0;
        assert(vs0 =~= seq![ValModel::N64(event_ix)]);
        lemma_fields_cons(vs0, Shape::N64, ShapeList::Nil);
        let vs1 = vs0.skip(1);
        assert(vs1 =~= Seq::<ValModel>::empty());
        lemma_fields_nil(vs1);
        assert(args@->Tuple_0 =~= margs->Tuple_0);
        assert(args@ =~= margs);
        assert(has_shape(margs, request_shape(Method::EventAccountUpdateGet)));
    }
    prepare_checked(ctx, descriptor(Method::EventAccountUpdateGet), args)
}

/// Prepares the `event_administrator_changed_count` query with its typed arguments.
pub fn event_administrator_changed_count(ctx: &InvocationContext, contract_id: BigNat) -> (r: PreparedCall)
    requires
        contract_id.wf(),
    ensures
        r.name@ == method_name(Method::EventAdministratorChangedCount),
        r.channel == Channel::Query,
        r.envelope@ == enc(request_shape(Method::EventAdministratorChangedCount), ValModel::Tuple(seq![nat_m(contract_id)])),
        r.signer@ == ctx.identity@,
        r.trace == ctx.trace_enabled,
{
    let _len_contract_id: usize = contract_id.bytes.len();
    let ghost margs = ValModel::Tuple(seq![nat_m(contract_id)]);
    let args = tuple1(TypedValue::Nat(contract_id));
    proof {
        let vs0 = margs->Tuple_0;
        assert(vs0 =~= seq![nat_m(contract_id)]);
        lemma_fields_cons(vs0, Shape::Nat, ShapeList::Nil);
        let vs1 = vs0.skip(1);
        assert(vs1 =~= Seq::<ValModel>::empty());
        lemma_fields_nil(vs1);
        assert(args@->Tuple_0 =~= margs->Tuple_0);
        assert(args@ =~= margs);
        assert(has_shape(margs, request_shape(Method::EventAdministratorChangedCount)));
    }
    prepare_checked(ctx, descriptor(Method::EventAdministratorChangedCount), args)
}

/// Prepares the `event_administrator_changed_get` query with its typed arguments.
pub fn event_administrator_changed_get(ctx: &InvocationContext, contract_id: BigNat, event_ix: u64) -> (r: PreparedCall)
    requires
        contract_id.wf(),
    ensures
        r.name@ == method_name(Method::EventAdministratorChangedGet),
        r.channel == Channel::Query,
        r.envelope@ == enc(request_shape(Method::EventAdministratorChangedGet), ValModel::Tuple(seq![nat_m(contract_id), ValModel::N64(event_ix)])),
        r.signer@ == ctx.identity@,
        r.trace == ctx.trace_enabled,
{
    let _len_contract_id: usize = contract_id.bytes.len();
    let ghost margs = ValModel::Tuple(seq![nat_m(contract_id), ValModel::N64(event_ix)]);
    let args = tuple2(TypedValue::Nat(contract_id), TypedValue::N64(event_ix));
    proof {
        let vs0 = margs->Tuple_0;
        assert(vs0 =~= seq![nat_m(contract_id), ValModel::N64(event_ix)]);
        lemma_fields_cons(vs0, Shape::Nat, spec_sl1(Shape::N64));
        let vs1 = vs0.skip(1);
        assert(vs1 =~= seq![ValModel::N64(event_ix)]);
        lemma_fields_cons(vs1, Shape::N64, ShapeList::Nil);
        let vs2 = vs1.skip(1);
        assert(vs2 =~= Seq::<ValModel>::empty());
        lemma_fields_nil(vs2);
        assert(args@->Tuple_0 =~= margs->Tuple_0);
        assert(args@ =~= margs);
        assert(has_shape(margs, request_shape(Method::EventAdministratorChangedGet)));
    }
    prepare_checked(ctx, descriptor(Method::EventAdministratorChangedGet), args)
}

/// Prepares the `event_amendment_update_count` query with its typed arguments.
pub fn event_amendment_update_count(ctx: &InvocationContext, ledger_id: u16) -> (r: PreparedCall)
    ensures
        r.name@ == method_name(Method::EventAmendmentUpdateCount),
        r.channel == Channel::Query,
        r.envelope@ == enc(request_shape(Method::EventAmendmentUpdateCount), ValModel::Tuple(seq![ValModel::N16(ledger_id)])),
        r.signer@ == ctx.identity@,
        r.trace == ctx.trace_enabled,
{
    let ghost margs = ValModel::Tuple(seq![ValModel::N16(ledger_id)]);
    let args = tuple1(TypedValue::N16(ledger_id));
    proof {
        let vs0 = margs->Tuple_0;
        assert(vs0 =~= seq![ValModel::N16(ledger_id)]);
        lemma_fields_cons(vs0, Shape::N16, ShapeList::Nil);
        let vs1 = vs0.skip(1);
        assert(vs1 =~= Seq::<ValModel>::empty());
        lemma_fields_nil(vs1);
        assert(args@->Tuple_0 =~= margs->Tuple_0);
        assert(args@ =~= margs);
        assert(has_shape(margs, request_shape(Method::EventAmendmentUpdateCount)));
    }
    prepare_checked(ctx, descriptor(Method::EventAmendmentUpdateCount), args)
}

/// Prepares the `event_amendment_update_get` query with its typed arguments.
pub fn event_amendment_update_get(ctx: &InvocationContext, ledger_id: u16, event_ix: u64) -> (r: PreparedCall)
    ensures
        r.name@ == method_name(Method::EventAmendmentUpdateGet),
        r.channel == Channel::Query,
        r.envelope@ == enc(request_shape(Method::EventAmendmentUpdateGet), ValModel::Tuple(seq![ValModel::N16(ledger_id), ValModel::N64(event_ix)])),
        r.signer@ == ctx.identity@,
        r.trace == ctx.trace_enabled,
{
    let ghost margs = ValModel::Tuple(seq![ValModel::N16(ledger_id), ValModel::N64(event_ix)]);
    let args = tuple2(TypedValue::N16(ledger_id), TypedValue::N64(event_ix));
    proof {
        let vs0 = margs->Tuple_0;
        assert(vs0 =~= seq![ValModel::N16(ledger_id), ValModel::N64(event_ix)]);
        lemma_fields_cons(vs0, Shape::N16, spec_sl1(Shape::N64));
        let vs1 = vs0.skip(1);
        assert(vs1 =~= seq![ValModel::N64(event_ix)]);
        lemma_fields_cons(vs1, Shape::N64, ShapeList::Nil);
        let vs2 = vs1.skip(1);
        assert(vs2 =~= Seq::<ValModel>::empty());
        lemma_fields_nil(vs2);
        assert(args@->Tuple_0 =~= margs->Tuple_0);
        assert(args@ =~= margs);
        assert(has_shape(margs, request_shape(Method::EventAmendmentUpdateGet)));
    }
    prepare_checked(ctx, descriptor(Method::EventAmendmentUpdateGet), args)
}

/// Prepares the `event_asset_update_count` query with its typed arguments.
pub fn event_asset_update_count(ctx: &InvocationContext, ledger_id: u16) -> (r: PreparedCall)
    ensures
        r.name@ == method_name(Method::EventAssetUpdateCount),
        r.channel == Channel::Query,
        r.envelope@ == enc(request_shape(Method::EventAssetUpdateCount), ValModel::Tuple(seq![ValModel::N16(ledger_id)])),
        r.signer@ == ctx.identity@,
        r.trace == ctx.trace_enabled,
{
    let ghost margs = ValModel::Tuple(seq![ValModel::N16(ledger_id)]);
    let args = tuple1(TypedValue::N16(ledger_id));
    proof {
        let vs0 = margs->Tuple_0;
        assert(vs0 =~= seq![ValModel::N16(ledger_id)]);
        lemma_fields_cons(vs0, Shape::N16, ShapeList::Nil);
        let vs1 = vs0.skip(1);
        assert(vs1 =~= Seq::<ValModel>::empty());
        lemma_fields_nil(vs1);
        assert(args@->Tuple_0 =~= margs->Tuple_0);
        assert(args@ =~= margs);
        assert(has_shape(margs, request_shape(Method::EventAssetUpdateCount)));
    }
    prepare_checked(ctx, descriptor(Method::EventAssetUpdateCount), args)
}

/// Prepares the `event_asset_update_get` query with its typed arguments.
pub fn event_asset_update_get(ctx: &InvocationContext, ledger_id: u16, event_ix: u64) -> (r: PreparedCall)
    ensures
        r.name@ == method_name(Method::EventAssetUpdateGet),
        r.channel == Channel::Query,
        r.envelope@ == enc(request_shape(Method::EventAssetUpdateGet), ValModel::Tuple(seq![ValModel::N16(ledger_id), ValModel::N64(event_ix)])),
        r.signer@ == ctx.identity@,
        r.trace == ctx.trace_enabled,
{
    let ghost margs = ValModel::Tuple(seq![ValModel::N16(ledger_id), ValModel::N64(event_ix)]);
    let args = tuple2(TypedValue::N16(ledger_id), TypedValue::N64(event_ix));
    proof {
        let vs0 = margs->Tuple_0;
        assert(vs0 =~= seq![ValModel::N16(ledger_id), ValModel::N64(event_ix)]);
        lemma_fields_cons(vs0, Shape::N16, spec_sl1(Shape::N64));
        let vs1 = vs0.skip(1);
        assert(vs1 =~= seq![ValModel::N64(event_ix)]);
        lemma_fields_cons(vs1, Shape::N64, ShapeList::Nil);
        let vs2 = vs1.skip(1);
        assert(vs2 =~= Seq::<ValModel>::empty());
        lemma_fields_nil(vs2);
        assert(args@->Tuple_0 =~= margs->Tuple_0);
        assert(args@ =~= margs);
        assert(has_shape(margs, request_shape(Method::EventAssetUpdateGet)));
    }
    prepare_checked(ctx, descriptor(Method::EventAssetUpdateGet), args)
}

/// Prepares the `event_blacklist_changed_count` query with its typed arguments.
pub fn event_blacklist_changed_count(ctx: &InvocationContext, contract_id: BigNat) -> (r: PreparedCall)
    requires
        contract_id.wf(),
    ensures
        r.name@ == method_name(Method::EventBlacklistChangedCount),
        r.channel == Channel::Query,
        r.envelope@ == enc(request_shape(Method::EventBlacklistChangedCount), ValModel::Tuple(seq![nat_m(contract_id)])),
        r.signer@ == ctx.identity@,
        r.trace == ctx.trace_enabled,
{
    let _len_contract_id: usize = contract_id.bytes.len();
    let ghost margs = ValModel::Tuple(seq![nat_m(contract_id)]);
    let args = tuple1(TypedValue::Nat(contract_id));
    proof {
        let vs0 = margs->Tuple_0;
        assert(vs0 =~= seq![nat_m(contract_id)]);
        lemma_fields_cons(vs0, Shape::Nat, ShapeList::Nil);
        let vs1 = vs0.skip(1);
        assert(vs1 =~= Seq::<ValModel>::empty());
        lemma_fields_nil(vs1);
        assert(args@->Tuple_0 =~= margs->Tuple_0);
        assert(args@ =~= margs);
        assert(has_shape(margs, request_shape(Method::EventBlacklistChangedCount)));
    }
    prepare_checked(ctx, descriptor(Method::EventBlacklistChangedCount), args)
}

/// Prepares the `event_blacklist_changed_get` query with its typed arguments.
pub fn event_blacklist_changed_get(ctx: &InvocationContext, contract_id: BigNat, event_ix: u64) -> (r: PreparedCall)
    requires
        contract_id.wf(),
    ensures
        r.name@ == method_name(Method::EventBlacklistChangedGet),
        r.channel == Channel::Query,
        r.envelope@ == enc(request_shape(Method::EventBlacklistChangedGet), ValModel::Tuple(seq![nat_m(contract_id), ValModel::N64(event_ix)])),
        r.signer@ == ctx.identity@,
        r.trace == ctx.trace_enabled,
{
    let _len_contract_id: usize = contract_id.bytes.len();
    let ghost margs = ValModel::Tuple(seq![nat_m(contract_id), ValModel::N64(event_ix)]);
    let args = tuple2(TypedValue::Nat(contract_id), TypedValue::N64(event_ix));
    proof {
        let vs0 = margs->Tuple_0;
        assert(vs0 =~= seq![nat_m(contract_id), ValModel::N64(event_ix)]);
        lemma_fields_cons(vs0, Shape::Nat, spec_sl1(Shape::N64));
        let vs1 = vs0.skip(1);
        assert(vs1 =~= seq![ValModel::N64(event_ix)]);
        lemma_fields_cons(vs1, Shape::N64, ShapeList::Nil);
        let vs2 = vs1.skip(1);
        assert(vs2 =~= Seq::<ValModel>::empty());
        lemma_fields_nil(vs2);
        assert(args@->Tuple_0 =~= margs->Tuple_0);
        assert(args@ =~= margs);
        assert(has_shape(margs, request_shape(Method::EventBlacklistChangedGet)));
    }
    prepare_checked(ctx, descriptor(Method::EventBlacklistChangedGet), args)
}

/// Prepares the `event_controller_created_count` query with its typed arguments.
pub fn event_controller_created_count(ctx: &InvocationContext) -> (r: PreparedCall)
    ensures
        r.name@ == method_name(Method::EventControllerCreatedCount),
        r.channel == Channel::Query,
        r.envelope@ == enc(request_shape(Method::EventControllerCreatedCount), ValModel::Tuple(Seq::<ValModel>::empty())),
        r.signer@ == ctx.identity@,
        r.trace == ctx.trace_enabled,
{
    let ghost margs = ValModel::Tuple(Seq::<ValModel>::empty());
    let args = tuple0();
    proof {
        let vs0 = margs->Tuple_0;
        lemma_fields_nil(vs0);
        assert(args@->Tuple_0 =~= margs->Tuple_0);
        assert(args@ =~= margs);
        assert(has_shape(margs, request_shape(Method::EventControllerCreatedCount)));
    }
    prepare_checked(ctx, descriptor(Method::EventControllerCreatedCount), args)
}

/// Prepares the `event_controller_created_get` query with its typed arguments.
pub fn event_controller_created_get(ctx: &InvocationContext, event_ix: u64) -> (r: PreparedCall)
    ensures
        r.name@ == method_name(Method::EventControllerCreatedGet),
        r.channel == Channel::Query,
        r.envelope@ == enc(request_shape(Method::EventControllerCreatedGet), ValModel::Tuple(seq![ValModel::N64(event_ix)])),
        r.signer@ == ctx.identity@,
        r.trace == ctx.trace_enabled,
{
    let ghost margs = ValModel::Tuple(seq![ValModel::N64(event_ix)]);
    let args = tuple1(TypedValue::N64(event_ix));
    proof {
        let vs0 = margs->Tuple_0;
        assert(vs0 =~= seq![ValModel::N64(event_ix)]);
        lemma_fields_cons(vs0, Shape::N64, ShapeList::Nil);
        let vs1 = vs0.skip(1);
        assert(vs1 =~= Seq::<ValModel>::empty());
        lemma_fields_nil(vs1);
        assert(args@->Tuple_0 =~= margs->Tuple_0);
        assert(args@ =~= margs);
        assert(has_shape(margs, request_shape(Method::EventControllerCreatedGet)));
    }
    prepare_checked(ctx, descriptor(Method::EventControllerCreatedGet), args)
}

/// Prepares the `event_ledger_added_count` query with its typed arguments.
pub fn event_ledger_added_count(ctx: &InvocationContext) -> (r: PreparedCall)
    ensures
        r.name@ == method_name(Method::EventLedgerAddedCount),
        r.channel == Channel::Query,
        r.envelope@ == enc(request_shape(Method::EventLedgerAddedCount), ValModel::Tuple(Seq::<ValModel>::empty())),
        r.signer@ == ctx.identity@,
        r.trace == ctx.trace_enabled,
{
    let ghost margs = ValModel::Tuple(Seq::<ValModel>::empty());
    let args = tuple0();
    proof {
        let vs0 = margs->Tuple_0;
        lemma_fields_nil(vs0);
        assert(args@->Tuple_0 =~= margs->Tuple_0);
        assert(args@ =~= margs);
        assert(has_shape(margs, request_shape(Method::EventLedgerAddedCount)));
    }
    prepare_checked(ctx, descriptor(Method::EventLedgerAddedCount), args)
}

/// Prepares the `event_ledger_added_get` query with its typed arguments.
pub fn event_ledger_added_get(ctx: &InvocationContext, event_ix: u64) -> (r: PreparedCall)
    ensures
        r.name@ == method_name(Method::EventLedgerAddedGet),
        r.channel == Channel::Query,
        r.envelope@ == enc(request_shape(Method::EventLedgerAddedGet), ValModel::Tuple(seq![ValModel::N64(event_ix)])),
        r.signer@ == ctx.identity@,
        r.trace == ctx.trace_enabled,
{
    let ghost margs = ValModel::Tuple(seq![ValModel::N64(event_ix)]);
    let args = tuple1(TypedValue::N64(event_ix));
    proof {
        let vs0 = margs->Tuple_0;
        assert(vs0 =~= seq![ValModel::N64(event_ix)]);
        lemma_fields_cons(vs0, Shape::N64, ShapeList::Nil);
        let vs1 = vs0.skip(1);
        assert(vs1 =~= Seq::<ValModel>::empty());
        lemma_fields_nil(vs1);
        assert(args@->Tuple_0 =~= margs->Tuple_0);
        assert(args@ =~= margs);
        assert(has_shape(margs, request_shape(Method::EventLedgerAddedGet)));
    }
    prepare_checked(ctx, descriptor(Method::EventLedgerAddedGet), args)
}

/// Prepares the `event_limit_changed_count` query with its typed arguments.
pub fn event_limit_changed_count(ctx: &InvocationContext, contract_id: BigNat) -> (r: PreparedCall)
    requires
        contract_id.wf(),
    ensures
        r.name@ == method_name(Method::EventLimitChangedCount),
        r.channel == Channel::Query,
        r.envelope@ == enc(request_shape(Method::EventLimitChangedCount), ValModel::Tuple(seq![nat_m(contract_id)])),
        r.signer@ == ctx.identity@,
        r.trace == ctx.trace_enabled,
{
    let _len_contract_id: usize = contract_id.bytes.len();
    let ghost margs = ValModel::Tuple(seq![nat_m(contract_id)]);
    let args = tuple1(TypedValue::Nat(contract_id));
    proof {
        let vs0 = margs->Tuple_0;
        assert(vs0 =~= seq![nat_m(contract_id)]);
        lemma_fields_cons(vs0, Shape::Nat, ShapeList::Nil);
        let vs1 = vs0.skip(1);
        assert(vs1 =~= Seq::<ValModel>::empty());
        lemma_fields_nil(vs1);
        assert(args@->Tuple_0 =~= margs->Tuple_0);
        assert(args@ =~= margs);
        assert(has_shape(margs, request_shape(Method::EventLimitChangedCount)));
    }
    prepare_checked(ctx, descriptor(Method::EventLimitChangedCount), args)
}

/// Prepares the `event_limit_changed_get` query with its typed arguments.
pub fn event_limit_changed_get(ctx: &InvocationContext, contract_id: BigNat, event_ix: u64) -> (r: PreparedCall)
    requires
        contract_id.wf(),
    ensures
        r.name@ == method_name(Method::EventLimitChangedGet),
        r.channel == Channel::Query,
        r.envelope@ == enc(request_shape(Method::EventLimitChangedGet), ValModel::Tuple(seq![nat_m(contract_id), ValModel::N64(event_ix)])),
        r.signer@ == ctx.identity@,
        r.trace == ctx.trace_enabled,
{
    let _len_contract_id: usize = contract_id.bytes.len();
    let ghost margs = ValModel::Tuple(seq![nat_m(contract_id), ValModel::N64(event_ix)]);
    let args = tuple2(TypedValue::Nat(contract_id), TypedValue::N64(event_ix));
    proof {
        let vs0 = margs->Tuple_0;
        assert(vs0 =~= seq![nat_m(contract_id), ValModel::N64(event_ix)]);
        lemma_fields_cons(vs0, Shape::Nat, spec_sl1(Shape::N64));
        let vs1 = vs0.skip(1);
        assert(vs1 =~= seq![ValModel::N64(event_ix)]);
        lemma_fields_cons(vs1, Shape::N64, ShapeList::Nil);
        let vs2 = vs1.skip(1);
        assert(vs2 =~= Seq::<ValModel>::empty());
        lemma_fields_nil(vs2);
        assert(args@->Tuple_0 =~= margs->Tuple_0);
        assert(args@ =~= margs);
        assert(has_shape(margs, request_shape(Method::EventLimitChangedGet)));
    }
    prepare_checked(ctx, descriptor(Method::EventLimitChangedGet), args)
}

/// Prepares the `event_limit_consumed_count` query with its typed arguments.
pub fn event_limit_consumed_count(ctx: &InvocationContext, contract_id: BigNat) -> (r: PreparedCall)
    requires
        contract_id.wf(),
    ensures
        r.name@ == method_name(Method::EventLimitConsumedCount),
        r.channel == Channel::Query,
        r.envelope@ == enc(request_shape(Method::EventLimitConsumedCount), ValModel::Tuple(seq![nat_m(contract_id)])),
        r.signer@ == ctx.identity@,
        r.trace == ctx.trace_enabled,
{
    let _len_contract_id: usize = contract_id.bytes.len();
    let ghost margs = ValModel::Tuple(seq![nat_m(contract_id)]);
    let args = tuple1(TypedValue::Nat(contract_id));
    proof {
        let vs0 = margs->Tuple_0;
        assert(vs0 =~= seq![nat_m(contract_id)]);
        lemma_fields_cons(vs0, Shape::Nat, ShapeList::Nil);
        let vs1 = vs0.skip(1);
        assert(vs1 =~= Seq::<ValModel>::empty());
        lemma_fields_nil(vs1);
        assert(args@->Tuple_0 =~= margs->Tuple_0);
        assert(args@ =~= margs);
        assert(has_shape(margs, request_shape(Method::EventLimitConsumedCount)));
    }
    prepare_checked(ctx, descriptor(Method::EventLimitConsumedCount), args)
}

/// Prepares the `event_limit_consumed_get` query with its typed arguments.
pub fn event_limit_consumed_get(ctx: &InvocationContext, contract_id: BigNat, event_ix: u64) -> (r: PreparedCall)
    requires
        contract_id.wf(),
    ensures
        r.name@ == method_name(Method::EventLimitConsumedGet),
        r.channel == Channel::Query,
        r.envelope@ == enc(request_shape(Method::EventLimitConsumedGet), ValModel::Tuple(seq![nat_m(contract_id), ValModel::N64(event_ix)])),
        r.signer@ == ctx.identity@,
        r.trace == ctx.trace_enabled,
{
    let _len_contract_id: usize = contract_id.bytes.len();
    let ghost margs = ValModel::Tuple(seq![nat_m(contract_id), ValModel::N64(event_ix)]);
    let args = tuple2(TypedValue::Nat(contract_id), TypedValue::N64(event_ix));
    proof {
        let vs0 = margs->Tuple_0;
        assert(vs0 =~= seq![nat_m(contract_id), ValModel::N64(event_ix)]);
        lemma_fields_cons(vs0, Shape::Nat, spec_sl1(Shape::N64));
        let vs1 = vs0.skip(1);
        assert(vs1 =~= seq![ValModel::N64(event_ix)]);
        lemma_fields_cons(vs1, Shape::N64, ShapeList::Nil);
        let vs2 = vs1.skip(1);
        assert(vs2 =~= Seq::<ValModel>::empty());
        lemma_fields_nil(vs2);
        assert(args@->Tuple_0 =~= margs->Tuple_0);
        assert(args@ =~= margs);
        assert(has_shape(margs, request_shape(Method::EventLimitConsumedGet)));
    }
    prepare_checked(ctx, descriptor(Method::EventLimitConsumedGet), args)
}

/// Prepares the `event_ownership_transferred_count` query with its typed arguments.
pub fn event_ownership_transferred_count(ctx: &InvocationContext, contract_id: BigNat) -> (r: PreparedCall)
    requires
        contract_id.wf(),
    ensures
        r.name@ == method_name(Method::EventOwnershipTransferredCount),
        r.channel == Channel::Query,
        r.envelope@ == enc(request_shape(Method::EventOwnershipTransferredCount), ValModel::Tuple(seq![nat_m(contract_id)])),
        r.signer@ == ctx.identity@,
        r.trace == ctx.trace_enabled,
{
    let _len_contract_id: usize = contract_id.bytes.len();
    let ghost margs = ValModel::Tuple(seq![nat_m(contract_id)]);
    let args = tuple1(TypedValue::Nat(contract_id));
    proof {
        let vs0 = margs->Tuple_0;
        assert(vs0 =~= seq![nat_m(contract_id)]);
        lemma_fields_cons(vs0, Shape::Nat, ShapeList::Nil);
        let vs1 = vs0.skip(1);
        assert(vs1 =~= Seq::<ValModel>::empty());
        lemma_fields_nil(vs1);
        assert(args@->Tuple_0 =~= margs->Tuple_0);
        assert(args@ =~= margs);
        assert(has_shape(margs, request_shape(Method::EventOwnershipTransferredCount)));
    }
    prepare_checked(ctx, descriptor(Method::EventOwnershipTransferredCount), args)
}

/// Prepares the `event_ownership_transferred_get` query with its typed arguments.
pub fn event_ownership_transferred_get(ctx: &InvocationContext, contract_id: BigNat, event_ix: u64) -> (r: PreparedCall)
    requires
        contract_id.wf(),
    ensures
        r.name@ == method_name(Method::EventOwnershipTransferredGet),
        r.channel == Channel::Query,
        r.envelope@ == enc(request_shape(Method::EventOwnershipTransferredGet), ValModel::Tuple(seq![nat_m(contract_id), ValModel::N64(event_ix)])),
        r.signer@ == ctx.identity@,
        r.trace == ctx.trace_enabled,
{
    let _len_contract_id: usize = contract_id.bytes.len();
    let ghost margs = ValModel::Tuple(seq![nat_m(contract_id), ValModel::N64(event_ix)]);
    let args = tuple2(TypedValue::Nat(contract_id), TypedValue::N64(event_ix));
    proof {
        let vs0 = margs->Tuple_0;
        assert(vs0 =~= seq![nat_m(contract_id), ValModel::N64(event_ix)]);
        lemma_fields_cons(vs0, Shape::Nat, spec_sl1(Shape::N64));
        let vs1 = vs0.skip(1);
        assert(vs1 =~= seq![ValModel::N64(event_ix)]);
        lemma_fields_cons(vs1, Shape::N64, ShapeList::Nil);
        let vs2 = vs1.skip(1);
        assert(vs2 =~= Seq::<ValModel>::empty());
        lemma_fields_nil(vs2);
        assert(args@->Tuple_0 =~= margs->Tuple_0);
        assert(args@ =~= margs);
        assert(has_shape(margs, request_shape(Method::EventOwnershipTransferredGet)));
    }
    prepare_checked(ctx, descriptor(Method::EventOwnershipTransferredGet), args)
}

/// Prepares the `event_pause_changed_count` query with its typed arguments.
pub fn event_pause_changed_count(ctx: &InvocationContext, contract_id: BigNat) -> (r: PreparedCall)
    requires
        contract_id.wf(),
    ensures
        r.name@ == method_name(Method::EventPauseChangedCount),
        r.channel == Channel::Query,
        r.envelope@ == enc(request_shape(Method::EventPauseChangedCount), ValModel::Tuple(seq![nat_m(contract_id)])),
        r.signer@ == ctx.identity@,
        r.trace == ctx.trace_enabled,
{
    let _len_contract_id: usize = contract_id.bytes.len();
    let ghost margs = ValModel::Tuple(seq![nat_m(contract_id)]);
    let args = tuple1(TypedValue::Nat(contract_id));
    proof {
        let vs0 = margs->Tuple_0;
        assert(vs0 =~= seq![nat_m(contract_id)]);
        lemma_fields_cons(vs0, Shape::Nat, ShapeList::Nil);
        let vs1 = vs0.skip(1);
        assert(vs1 =~= Seq::<ValModel>::empty());
        lemma_fields_nil(vs1);
        assert(args@->Tuple_0 =~= margs->Tuple_0);
        assert(args@ =~= margs);
        assert(has_shape(margs, request_shape(Method::EventPauseChangedCount)));
    }
    prepare_checked(ctx, descriptor(Method::EventPauseChangedCount), args)
}

/// Prepares the `event_pause_changed_get` query with its typed arguments.
pub fn event_pause_changed_get(ctx: &InvocationContext, contract_id: BigNat, event_ix: u64) -> (r: PreparedCall)
    requires
        contract_id.wf(),
    ensures
        r.name@ == method_name(Method::EventPauseChangedGet),
        r.channel == Channel::Query,
        r.envelope@ == enc(request_shape(Method::EventPauseChangedGet), ValModel::Tuple(seq![nat_m(contract_id), ValModel::N64(event_ix)])),
        r.signer@ == ctx.identity@,
        r.trace == ctx.trace_enabled,
{
    let _len_contract_id: usize = contract_id.bytes.len();
    let ghost margs = ValModel::Tuple(seq![nat_m(contract_id), ValModel::N64(event_ix)]);
    let args = tuple2(TypedValue::Nat(contract_id), TypedValue::N64(event_ix));
    proof {
        let vs0 = margs->Tuple_0;
        assert(vs0 =~= seq![nat_m(contract_id), ValModel::N64(event_ix)]);
        lemma_fields_cons(vs0, Shape::Nat, spec_sl1(Shape::N64));
        let vs1 = vs0.skip(1);
        assert(vs1 =~= seq![ValModel::N64(event_ix)]);
        lemma_fields_cons(vs1, Shape::N64, ShapeList::Nil);
        let vs2 = vs1.skip(1);
        assert(vs2 =~= Seq::<ValModel>::empty());
        lemma_fields_nil(vs2);
        assert(args@->Tuple_0 =~= margs->Tuple_0);
        assert(args@ =~= margs);
        assert(has_shape(margs, request_shape(Method::EventPauseChangedGet)));
    }
    prepare_checked(ctx, descriptor(Method::EventPauseChangedGet), args)
}

/// Prepares the `event_pricing_changed_count` query with its typed arguments.
pub fn event_pricing_changed_count(ctx: &InvocationContext) -> (r: PreparedCall)
    ensures
        r.name@ == method_name(Method::EventPricingChangedCount),
        r.channel == Channel::Query,
        r.envelope@ == enc(request_shape(Method::EventPricingChangedCount), ValModel::Tuple(Seq::<ValModel>::empty())),
        r.signer@ == ctx.identity@,
        r.trace == ctx.trace_enabled,
{
    let ghost margs = ValModel::Tuple(Seq::<ValModel>::empty());
    let args = tuple0();
    proof {
        let vs0 = margs->Tuple_0;
        lemma_fields_nil(vs0);
        assert(args@->Tuple_0 =~= margs->Tuple_0);
        assert(args@ =~= margs);
        assert(has_shape(margs, request_shape(Method::EventPricingChangedCount)));
    }
    prepare_checked(ctx, descriptor(Method::EventPricingChangedCount), args)
}

/// Prepares the `event_pricing_changed_get` query with its typed arguments.
pub fn event_pricing_changed_get(ctx: &InvocationContext, event_ix: u64) -> (r: PreparedCall)
    ensures
        r.name@ == method_name(Method::EventPricingChangedGet),
        r.channel == Channel::Query,
        r.envelope@ == enc(request_shape(Method::EventPricingChangedGet), ValModel::Tuple(seq![ValModel::N64(event_ix)])),
        r.signer@ == ctx.identity@,
        r.trace == ctx.trace_enabled,
{
    let ghost margs = ValModel::Tuple(seq![ValModel::N64(event_ix)]);
    let args = tuple1(TypedValue::N64(event_ix));
    proof {
        let vs0 = margs->Tuple_0;
        assert(vs0 =~= seq![ValModel::N64(event_ix)]);
        lemma_fields_cons(vs0, Shape::N64, ShapeList::Nil);
        let vs1 = vs0.skip(1);
        assert(vs1 =~= Seq::<ValModel>::empty());
        lemma_fields_nil(vs1);
        assert(args@->Tuple_0 =~= margs->Tuple_0);
        assert(args@ =~= margs);
        assert(has_shape(margs, request_shape(Method::EventPricingChangedGet)));
    }
    prepare_checked(ctx, descriptor(Method::EventPricingChangedGet), args)
}

/// Prepares the `event_supply_update_count` query with its typed arguments.
pub fn event_supply_update_count(ctx: &InvocationContext) -> (r: PreparedCall)
    ensures
        r.name@ == method_name(Method::EventSupplyUpdateCount),
        r.channel == Channel::Query,
        r.envelope@ == enc(request_shape(Method::EventSupplyUpdateCount), ValModel::Tuple(Seq::<ValModel>::empty())),
        r.signer@ == ctx.identity@,
        r.trace == ctx.trace_enabled,
{
    let ghost margs = ValModel::Tuple(Seq::<ValModel>::empty());
    let args = tuple0();
    proof {
        let vs0 = margs->Tuple_0;
        lemma_fields_nil(vs0);
        assert(args@->Tuple_0 =~= margs->Tuple_0);
        assert(args@ =~= margs);
        assert(has_shape(margs, request_shape(Method::EventSupplyUpdateCount)));
    }
    prepare_checked(ctx, descriptor(Method::EventSupplyUpdateCount), args)
}

/// Prepares the `event_supply_update_get` query with its typed arguments.
pub fn event_supply_update_get(ctx: &InvocationContext, event_ix: u64) -> (r: PreparedCall)
    ensures
        r.name@ == method_name(Method::EventSupplyUpdateGet),
        r.channel == Channel::Query,
        r.envelope@ == enc(request_shape(Method::EventSupplyUpdateGet), ValModel::Tuple(seq![ValModel::N64(event_ix)])),
        r.signer@ == ctx.identity@,
        r.trace == ctx.trace_enabled,
{
    let ghost margs = ValModel::Tuple(seq![ValModel::N64(event_ix)]);
    let args = tuple1(TypedValue::N64(event_ix));
    proof {
        let vs0 = margs->Tuple_0;
        assert(vs0 =~= seq![ValModel::N64(event_ix)]);
        lemma_fields_cons(vs0, Shape::N64, ShapeList::Nil);
        let vs1 = vs0.skip(1);
        assert(vs1 =~= Seq::<ValModel>::empty());
        lemma_fields_nil(vs1);
        assert(args@->Tuple_0 =~= margs->Tuple_0);
        assert(args@ =~= margs);
        assert(has_shape(margs, request_shape(Method::EventSupplyUpdateGet)));
    }
    prepare_checked(ctx, descriptor(Method::EventSupplyUpdateGet), args)
}

/// Prepares the `event_tokens_created_count` query with its typed arguments.
pub fn event_tokens_created_count(ctx: &InvocationContext) -> (r: PreparedCall)
    ensures
        r.name@ == method_name(Method::EventTokensCreatedCount),
        r.channel == Channel::Query,
        r.envelope@ == enc(request_shape(Method::EventTokensCreatedCount), ValModel::Tuple(Seq::<ValModel>::empty())),
        r.signer@ == ctx.identity@,
        r.trace == ctx.trace_enabled,
{
    let ghost margs = ValModel::Tuple(Seq::<ValModel>::empty());
    let args = tuple0();
    proof {
        let vs0 = margs->Tuple_0;
        lemma_fields_nil(vs0);
        assert(args@->Tuple_0 =~= margs->Tuple_0);
        assert(args@ =~= margs);
        assert(has_shape(margs, request_shape(Method::EventTokensCreatedCount)));
    }
    prepare_checked(ctx, descriptor(Method::EventTokensCreatedCount), args)
}

/// Prepares the `event_tokens_created_get` query with its typed arguments.
pub fn event_tokens_created_get(ctx: &InvocationContext, event_ix: u64) -> (r: PreparedCall)
    ensures
        r.name@ == method_name(Method::EventTokensCreatedGet),
        r.channel == Channel::Query,
        r.envelope@ == enc(request_shape(Method::EventTokensCreatedGet), ValModel::Tuple(seq![ValModel::N64(event_ix)])),
        r.signer@ == ctx.identity@,
        r.trace == ctx.trace_enabled,
{
    let ghost margs = ValModel::Tuple(seq![ValModel::N64(event_ix)]);
    let args = tuple1(TypedValue::N64(event_ix));
    proof {
        let vs0 = margs->Tuple_0;
        assert(vs0 =~= seq![ValModel::N64(event_ix)]);
        lemma_fields_cons(vs0, Shape::N64, ShapeList::Nil);
        let vs1 = vs0.skip(1);
        assert(vs1 =~= Seq::<ValModel>::empty());
        lemma_fields_nil(vs1);
        assert(args@->Tuple_0 =~= margs->Tuple_0);
        assert(args@ =~= margs);
        assert(has_shape(margs, request_shape(Method::EventTokensCreatedGet)));
    }
    prepare_checked(ctx, descriptor(Method::EventTokensCreatedGet), args)
}

/// Prepares the `event_tokens_destroyed_count` query with its typed arguments.
pub fn event_tokens_destroyed_count(ctx: &InvocationContext) -> (r: PreparedCall)
    ensures
        r.name@ == method_name(Method::EventTokensDestroyedCount),
        r.channel == Channel::Query,
        r.envelope@ == enc(request_shape(Method::EventTokensDestroyedCount), ValModel::Tuple(Seq::<ValModel>::empty())),
        r.signer@ == ctx.identity@,
        r.trace == ctx.trace_enabled,
{
    let ghost margs = ValModel::Tuple(Seq::<ValModel>::empty());
    let args = tuple0();
    proof {
        let vs0 = margs->Tuple_0;
        lemma_fields_nil(vs0);
        assert(args@->Tuple_0 =~= margs->Tuple_0);
        assert(args@ =~= margs);
        assert(has_shape(margs, request_shape(Method::EventTokensDestroyedCount)));
    }
    prepare_checked(ctx, descriptor(Method::EventTokensDestroyedCount), args)
}

/// Prepares the `event_tokens_destroyed_get` query with its typed arguments.
pub fn event_tokens_destroyed_get(ctx: &InvocationContext, event_ix: u64) -> (r: PreparedCall)
    ensures
        r.name@ == method_name(Method::EventTokensDestroyedGet),
        r.channel == Channel::Query,
        r.envelope@ == enc(request_shape(Method::EventTokensDestroyedGet), ValModel::Tuple(seq![ValModel::N64(event_ix)])),
        r.signer@ == ctx.identity@,
        r.trace == ctx.trace_enabled,
{
    let ghost margs = ValModel::Tuple(seq![ValModel::N64(event_ix)]);
    let args = tuple1(TypedValue::N64(event_ix));
    proof {
        let vs0 = margs->Tuple_0;
        assert(vs0 =~= seq![ValModel::N64(event_ix)]);
        lemma_fields_cons(vs0, Shape::N64, ShapeList::Nil);
        let vs1 = vs0.skip(1);
        assert(vs1 =~= Seq::<ValModel>::empty());
        lemma_fields_nil(vs1);
        assert(args@->Tuple_0 =~= margs->Tuple_0);
        assert(args@ =~= margs);
        assert(has_shape(margs, request_shape(Method::EventTokensDestroyedGet)));
    }
    prepare_checked(ctx, descriptor(Method::EventTokensDestroyedGet), args)
}

/// Prepares the `get_tx` query with its typed arguments.
pub fn get_tx(ctx: &InvocationContext, tx_id: BigNat) -> (r: PreparedCall)
    requires
        tx_id.wf(),
    ensures
        r.name@ == method_name(Method::GetTx),
        r.channel == Channel::Query,
        r.envelope@ == enc(request_shape(Method::GetTx), ValModel::Tuple(seq![nat_m(tx_id)])),
        r.signer@ == ctx.identity@,
        r.trace == ctx.trace_enabled,
{
    let _len_tx_id: usize = tx_id.bytes.len();
    let ghost margs = ValModel::Tuple(seq![nat_m(tx_id)]);
    let args = tuple1(TypedValue::Nat(tx_id));
    proof {
        let vs0 = margs->Tuple_0;
        assert(vs0 =~= seq![nat_m(tx_id)]);
        lemma_fields_cons(vs0, Shape::Nat, ShapeList::Nil);
        let vs1 = vs0.skip(1);
        assert(vs1 =~= Seq::<ValModel>::empty());
        lemma_fields_nil(vs1);
        assert(args@->Tuple_0 =~= margs->Tuple_0);
        assert(args@ =~= margs);
        assert(has_shape(margs, request_shape(Method::GetTx)));
    }
    prepare_checked(ctx, descriptor(Method::GetTx), args)
}

/// Prepares the `int_create_supply` update with its typed arguments.
pub fn int_create_supply(ctx: &InvocationContext, request: CreateSupplyRequest) -> (r: PreparedCall)
    requires
        request.wf(),
    ensures
        r.name@ == method_name(Method::IntCreateSupply),
        r.channel == Channel::Update,
        r.envelope@ == enc(request_shape(Method::IntCreateSupply), ValModel::Tuple(seq![request.as_model()])),
        r.signer@ == ctx.identity@,
        r.trace == ctx.trace_enabled,
{
    let ghost g_request = request;
    let value_request = request.to_value();
    let ghost margs = ValModel::Tuple(seq![request.as_model()]);
    let args = tuple1(value_request);
    proof {
        let vs0 = margs->Tuple_0;
        assert(vs0 =~= seq![request.as_model()]);
        lemma_fields_cons(vs0, CreateSupplyRequest::shape(), ShapeList::Nil);
        let vs1 = vs0.skip(1);
        assert(vs1 =~= Seq::<ValModel>::empty());
        lemma_fields_nil(vs1);
        assert(args@->Tuple_0 =~= margs->Tuple_0);
        assert(args@ =~= margs);
        assert(has_shape(margs, request_shape(Method::IntCreateSupply)));
    }
    prepare_checked(ctx, descriptor(Method::IntCreateSupply), args)
}

/// Prepares the `int_get_balance` query with its typed arguments.
pub fn int_get_balance(ctx: &InvocationContext, unique_asset_id: BigNat, holder: CallerAddress) -> (r: PreparedCall)
    requires
        unique_asset_id.wf(),
        holder.wf(),
    ensures
        r.name@ == method_name(Method::IntGetBalance),
        r.channel == Channel::Query,
        r.envelope@ == enc(request_shape(Method::IntGetBalance), ValModel::Tuple(seq![nat_m(unique_asset_id), addr_m(holder)])),
        r.signer@ == ctx.identity@,
        r.trace == ctx.trace_enabled,
{
    let _len_unique_asset_id: usize = unique_asset_id.bytes.len();
    let ghost margs = ValModel::Tuple(seq![nat_m(unique_asset_id), addr_m(holder)]);
    let args = tuple2(TypedValue::Nat(unique_asset_id), TypedValue::Address(holder.bytes));
    proof {
        let vs0 = margs->Tuple_0;
        assert(vs0 =~= seq![nat_m(unique_asset_id), addr_m(holder)]);
        lemma_fields_cons(vs0, Shape::Nat, spec_sl1(Shape::Address));
        let vs1 = vs0.skip(1);
        assert(vs1 =~= seq![addr_m(holder)]);
        lemma_fields_cons(vs1, Shape::Address, ShapeList::Nil);
        let vs2 = vs1.skip(1);
        assert(vs2 =~= Seq::<ValModel>::empty());
        lemma_fields_nil(vs2);
        assert(args@->Tuple_0 =~= margs->Tuple_0);
        assert(args@ =~= margs);
        assert(has_shape(margs, request_shape(Method::IntGetBalance)));
    }
    prepare_checked(ctx, descriptor(Method::IntGetBalance), args)
}

/// Prepares the `int_get_decimal_ptr` query with its typed arguments.
pub fn int_get_decimal_ptr(ctx: &InvocationContext) -> (r: PreparedCall)
    ensures
        r.name@ == method_name(Method::IntGetDecimalPtr),
        r.channel == Channel::Query,
        r.envelope@ == enc(request_shape(Method::IntGetDecimalPtr), ValModel::Tuple(Seq::<ValModel>::empty())),
        r.signer@ == ctx.identity@,
        r.trace == ctx.trace_enabled,
{
    let ghost margs = ValModel::Tuple(Seq::<ValModel>::empty());
    let args = tuple0();
    proof {
        let vs0 = margs->Tuple_0;
        lemma_fields_nil(vs0);
        assert(args@->Tuple_0 =~= margs->Tuple_0);
        assert(args@ =~= margs);
        assert(has_shape(margs, request_shape(Method::IntGetDecimalPtr)));
    }
    prepare_checked(ctx, descriptor(Method::IntGetDecimalPtr), args)
}

/// Prepares the `int_get_ledger_id` query with its typed arguments.
pub fn int_get_ledger_id(ctx: &InvocationContext, contract_id: BigNat) -> (r: PreparedCall)
    requires
        contract_id.wf(),
    ensures
        r.name@ == method_name(Method::IntGetLedgerId),
        r.channel == Channel::Query,
        r.envelope@ == enc(request_shape(Method::IntGetLedgerId), ValModel::Tuple(seq![nat_m(contract_id)])),
        r.signer@ == ctx.identity@,
        r.trace == ctx.trace_enabled,
{
    let _len_contract_id: usize = contract_id.bytes.len();
    let ghost margs = ValModel::Tuple(seq![nat_m(contract_id)]);
    let args = tuple1(TypedValue::Nat(contract_id));
    proof {
        let vs0 = margs->Tuple_0;
        assert(vs0 =~= seq![nat_m(contract_id)]);
        lemma_fields_cons(vs0, Shape::Nat, ShapeList::Nil);
        let vs1 = vs0.skip(1);
        assert(vs1 =~= Seq::<ValModel>::empty());
        lemma_fields_nil(vs1);
        assert(args@->Tuple_0 =~= margs->Tuple_0);
        assert(args@ =~= margs);
        assert(has_shape(margs, request_shape(Method::IntGetLedgerId)));
    }
    prepare_checked(ctx, descriptor(Method::IntGetLedgerId), args)
}

/// Prepares the `int_get_ledger_contract_id` query with its typed arguments.
pub fn int_get_ledger_contract_id(ctx: &InvocationContext, ledger_id: u16) -> (r: PreparedCall)
    ensures
        r.name@ == method_name(Method::IntGetLedgerContractId),
        r.channel == Channel::Query,
        r.envelope@ == enc(request_shape(Method::IntGetLedgerContractId), ValModel::Tuple(seq![ValModel::N16(ledger_id)])),
        r.signer@ == ctx.identity@,
        r.trace == ctx.trace_enabled,
{
    let ghost margs = ValModel::Tuple(seq![ValModel::N16(ledger_id)]);
    let args = tuple1(TypedValue::N16(ledger_id));
    proof {
        let vs0 = margs->Tuple_0;
        assert(vs0 =~= seq![ValModel::N16(ledger_id)]);
        lemma_fields_cons(vs0, Shape::N16, ShapeList::Nil);
        let vs1 = vs0.skip(1);
        assert(vs1 =~= Seq::<ValModel>::empty());
        lemma_fields_nil(vs1);
        assert(args@->Tuple_0 =~= margs->Tuple_0);
        assert(args@ =~= margs);
        assert(has_shape(margs, request_shape(Method::IntGetLedgerContractId)));
    }
    prepare_checked(ctx, descriptor(Method::IntGetLedgerContractId), args)
}

/// Prepares the `int_get_supply` query with its typed arguments.
pub fn int_get_supply(ctx: &InvocationContext, supply_id: BigNat) -> (r: PreparedCall)
    requires
        supply_id.wf(),
    ensures
        r.name@ == method_name(Method::IntGetSupply),
        r.channel == Channel::Query,
        r.envelope@ == enc(request_shape(Method::IntGetSupply), ValModel::Tuple(seq![nat_m(supply_id)])),
        r.signer@ == ctx.identity@,
        r.trace == ctx.trace_enabled,
{
    let _len_supply_id: usize = supply_id.bytes.len();
    let ghost margs = ValModel::Tuple(seq![nat_m(supply_id)]);
    let args = tuple1(TypedValue::Nat(supply_id));
    proof {
        let vs0 = margs->Tuple_0;
        assert(vs0 =~= seq![nat_m(supply_id)]);
        lemma_fields_cons(vs0, Shape::Nat, ShapeList::Nil);
        let vs1 = vs0.skip(1);
        assert(vs1 =~= Seq::<ValModel>::empty());
        lemma_fields_nil(vs1);
        assert(args@->Tuple_0 =~= margs->Tuple_0);
        assert(args@ =~= margs);
        assert(has_shape(margs, request_shape(Method::IntGetSupply)));
    }
    prepare_checked(ctx, descriptor(Method::IntGetSupply), args)
}

/// Prepares the `int_get_tokens` query with its typed arguments.
pub fn int_get_tokens(ctx: &InvocationContext, contract_id: BigNat, asset_id: BigNat) -> (r: PreparedCall)
    requires
        contract_id.wf(),
        asset_id.wf(),
    ensures
        r.name@ == method_name(Method::IntGetTokens),
        r.channel == Channel::Query,
        r.envelope@ == enc(request_shape(Method::IntGetTokens), ValModel::Tuple(seq![nat_m(contract_id), nat_m(asset_id)])),
        r.signer@ == ctx.identity@,
        r.trace == ctx.trace_enabled,
{
    let _len_contract_id: usize = contract_id.bytes.len();
    let _len_asset_id: usize = asset_id.bytes.len();
    let ghost margs = ValModel::Tuple(seq![nat_m(contract_id), nat_m(asset_id)]);
    let args = tuple2(TypedValue::Nat(contract_id), TypedValue::Nat(asset_id));
    proof {
        let vs0 = margs->Tuple_0;
        assert(vs0 =~= seq![nat_m(contract_id), nat_m(asset_id)]);
        lemma_fields_cons(vs0, Shape::Nat, spec_sl1(Shape::Nat));
        let vs1 = vs0.skip(1);
        assert(vs1 =~= seq![nat_m(asset_id)]);
        lemma_fields_cons(vs1, Shape::Nat, ShapeList::Nil);
        let vs2 = vs1.skip(1);
        assert(vs2 =~= Seq::<ValModel>::empty());
        lemma_fields_nil(vs2);
        assert(args@->Tuple_0 =~= margs->Tuple_0);
        assert(args@ =~= margs);
        assert(has_shape(margs, request_shape(Method::IntGetTokens)));
    }
    prepare_checked(ctx, descriptor(Method::IntGetTokens), args)
}

/// Prepares the `int_run_warp` update with its typed arguments.
pub fn int_run_warp(ctx: &InvocationContext, request: RunWarpRequest) -> (r: PreparedCall)
    requires
        request.wf(),
    ensures
        r.name@ == method_name(Method::IntRunWarp),
        r.channel == Channel::Update,
        r.envelope@ == enc(request_shape(Method::IntRunWarp), ValModel::Tuple(seq![request.as_model()])),
        r.signer@ == ctx.identity@,
        r.trace == ctx.trace_enabled,
{
    let ghost g_request = request;
    let value_request = request.to_value();
    let ghost margs = ValModel::Tuple(seq![request.as_model()]);
    let args = tuple1(value_request);
    proof {
        let vs0 = margs->Tuple_0;
        assert(vs0 =~= seq![request.as_model()]);
        lemma_fields_cons(vs0, RunWarpRequest::shape(), ShapeList::Nil);
        let vs1 = vs0.skip(1);
        assert(vs1 =~= Seq::<ValModel>::empty());
        lemma_fields_nil(vs1);
        assert(args@->Tuple_0 =~= margs->Tuple_0);
        assert(args@ =~= margs);
        assert(has_shape(margs, request_shape(Method::IntRunWarp)));
    }
    prepare_checked(ctx, descriptor(Method::IntRunWarp), args)
}

/// Prepares the `int_set_contract` update with its typed arguments.
pub fn int_set_contract(ctx: &InvocationContext, ledger_contract_id: BigNat, ledger_id: u16) -> (r: PreparedCall)
    requires
        ledger_contract_id.wf(),
    ensures
        r.name@ == method_name(Method::IntSetContract),
        r.channel == Channel::Update,
        r.envelope@ == enc(request_shape(Method::IntSetContract), ValModel::Tuple(seq![nat_m(ledger_contract_id), ValModel::N16(ledger_id)])),
        r.signer@ == ctx.identity@,
        r.trace == ctx.trace_enabled,
{
    let _len_ledger_contract_id: usize = ledger_contract_id.bytes.len();
    let ghost margs = ValModel::Tuple(seq![nat_m(ledger_contract_id), ValModel::N16(ledger_id)]);
    let args = tuple2(TypedValue::Nat(ledger_contract_id), TypedValue::N16(ledger_id));
    proof {
        let vs0 = margs->Tuple_0;
        assert(vs0 =~= seq![nat_m(ledger_contract_id), ValModel::N16(ledger_id)]);
        lemma_fields_cons(vs0, Shape::Nat, spec_sl1(Shape::N16));
        let vs1 = vs0.skip(1);
        assert(vs1 =~= seq![ValModel::N16(ledger_id)]);
        lemma_fields_cons(vs1, Shape::N16, ShapeList::Nil);
        let vs2 = vs1.skip(1);
        assert(vs2 =~= Seq::<ValModel>::empty());
        lemma_fields_nil(vs2);
        assert(args@->Tuple_0 =~= margs->Tuple_0);
        assert(args@ =~= margs);
        assert(has_shape(margs, request_shape(Method::IntSetContract)));
    }
    prepare_checked(ctx, descriptor(Method::IntSetContract), args)
}

/// Prepares the `int_set_price` update with its typed arguments.
pub fn int_set_price(ctx: &InvocationContext, fee_type: u8, unique_asset_id: BigNat, fee_amount: BigNat, wallet: CallerAddress) -> (r: PreparedCall)
    requires
        unique_asset_id.wf(),
        fee_amount.wf(),
        wallet.wf(),
    ensures
        r.name@ == method_name(Method::IntSetPrice),
        r.channel == Channel::Update,
        r.envelope@ == enc(request_shape(Method::IntSetPrice), ValModel::Tuple(seq![ValModel::N8(fee_type), nat_m(unique_asset_id), nat_m(fee_amount), addr_m(wallet)])),
        r.signer@ == ctx.identity@,
        r.trace == ctx.trace_enabled,
{
    let _len_unique_asset_id: usize = unique_asset_id.bytes.len();
    let _len_fee_amount: usize = fee_amount.bytes.len();
    let ghost margs = ValModel::Tuple(seq![ValModel::N8(fee_type), nat_m(unique_asset_id), nat_m(fee_amount), addr_m(wallet)]);
    let args = tuple4(TypedValue::N8(fee_type), TypedValue::Nat(unique_asset_id), TypedValue::Nat(fee_amount), TypedValue::Address(wallet.bytes));
    proof {
        let vs0 = margs->Tuple_0;
        assert(vs0 =~= seq![ValModel::N8(fee_type), nat_m(unique_asset_id), nat_m(fee_amount), addr_m(wallet)]);
        lemma_fields_cons(vs0, Shape::N8, spec_sl3(Shape::Nat, Shape::Nat, Shape::Address));
        let vs1 = vs0.skip(1);
        assert(vs1 =~= seq![nat_m(unique_asset_id), nat_m(fee_amount), addr_m(wallet)]);
        lemma_fields_cons(vs1, Shape::Nat, spec_sl2(Shape::Nat, Shape::Address));
        let vs2 = vs1.skip(1);
        assert(vs2 =~= seq![nat_m(fee_amount), addr_m(wallet)]);
        lemma_fields_cons(vs2, Shape::Nat, spec_sl1(Shape::Address));
        let vs3 = vs2.skip(1);
        assert(vs3 =~= seq![addr_m(wallet)]);
        lemma_fields_cons(vs3, Shape::Address, ShapeList::Nil);
        let vs4 = vs3.skip(1);
        assert(vs4 =~= Seq::<ValModel>::empty());
        lemma_fields_nil(vs4);
        assert(args@->Tuple_0 =~= margs->Tuple_0);
        assert(args@ =~= margs);
        assert(has_shape(margs, request_shape(Method::IntSetPrice)));
    }
    prepare_checked(ctx, descriptor(Method::IntSetPrice), args)
}

/// Prepares the `int_set_supply_controller` update with its typed arguments.
pub fn int_set_supply_controller(ctx: &InvocationContext, supply_id: BigNat, controller_id: Option<BigNat>) -> (r: PreparedCall)
    requires
        supply_id.wf(),
        opt_nat_wf(&controller_id),
    ensures
        r.name@ == method_name(Method::IntSetSupplyController),
        r.channel == Channel::Update,
        r.envelope@ == enc(request_shape(Method::IntSetSupplyController), ValModel::Tuple(seq![nat_m(supply_id), opt_nat_m(controller_id)])),
        r.signer@ == ctx.identity@,
        r.trace == ctx.trace_enabled,
{
    let _len_supply_id: usize = supply_id.bytes.len();
    match &controller_id {
        Option::Some(n) => {
            let _len_controller_id: usize = n.bytes.len();
        },
        Option::None => {},
    }
    let ghost margs = ValModel::Tuple(seq![nat_m(supply_id), opt_nat_m(controller_id)]);
    let args = tuple2(TypedValue::Nat(supply_id), opt_nat_value(controller_id));
    proof {
        let vs0 = margs->Tuple_0;
        assert(vs0 =~= seq![nat_m(supply_id), opt_nat_m(controller_id)]);
        lemma_fields_cons(vs0, Shape::Nat, spec_sl1(Shape::Opt(Box::new(Shape::Nat))));
        let vs1 = vs0.skip(1);
        assert(vs1 =~= seq![opt_nat_m(controller_id)]);
        lemma_fields_cons(vs1, Shape::Opt(Box::new(Shape::Nat)), ShapeList::Nil);
        let vs2 = vs1.skip(1);
        assert(vs2 =~= Seq::<ValModel>::empty());
        lemma_fields_nil(vs2);
        lemma_has_shape_opt(opt_nat_m(controller_id), Shape::Nat);
        assert(args@->Tuple_0 =~= margs->Tuple_0);
        assert(args@ =~= margs);
        assert(has_shape(margs, request_shape(Method::IntSetSupplyController)));
    }
    prepare_checked(ctx, descriptor(Method::IntSetSupplyController), args)
}

/// Prepares the `int_terminate_supply` update with its typed arguments.
pub fn int_terminate_supply(ctx: &InvocationContext, supply_id: BigNat) -> (r: PreparedCall)
    requires
        supply_id.wf(),
    ensures
        r.name@ == method_name(Method::IntTerminateSupply),
        r.channel == Channel::Update,
        r.envelope@ == enc(request_shape(Method::IntTerminateSupply), ValModel::Tuple(seq![nat_m(supply_id)])),
        r.signer@ == ctx.identity@,
        r.trace == ctx.trace_enabled,
{
    let _len_supply_id: usize = supply_id.bytes.len();
    let ghost margs = ValModel::Tuple(seq![nat_m(supply_id)]);
    let args = tuple1(TypedValue::Nat(supply_id));
    proof {
        let vs0 = margs->Tuple_0;
        assert(vs0 =~= seq![nat_m(supply_id)]);
        lemma_fields_cons(vs0, Shape::Nat, ShapeList::Nil);
        let vs1 = vs0.skip(1);
        assert(vs1 =~= Seq::<ValModel>::empty());
        lemma_fields_nil(vs1);
        assert(args@->Tuple_0 =~= margs->Tuple_0);
        assert(args@ =~= margs);
        assert(has_shape(margs, request_shape(Method::IntTerminateSupply)));
    }
    prepare_checked(ctx, descriptor(Method::IntTerminateSupply), args)
}

/// Prepares the `int_transfer_tokens` update with its typed arguments.
pub fn int_transfer_tokens(ctx: &InvocationContext, unique_asset_id: BigNat, receiver: CallerAddress, amount: BigNat) -> (r: PreparedCall)
    requires
        unique_asset_id.wf(),
        receiver.wf(),
        amount.wf(),
    ensures
        r.name@ == method_name(Method::IntTransferTokens),
        r.channel == Channel::Update,
        r.envelope@ == enc(request_shape(Method::IntTransferTokens), ValModel::Tuple(seq![nat_m(unique_asset_id), addr_m(receiver), nat_m(amount)])),
        r.signer@ == ctx.identity@,
        r.trace == ctx.trace_enabled,
{
    let _len_unique_asset_id: usize = unique_asset_id.bytes.len();
    let _len_amount: usize = amount.bytes.len();
    let ghost margs = ValModel::Tuple(seq![nat_m(unique_asset_id), addr_m(receiver), nat_m(amount)]);
    let args = tuple3(TypedValue::Nat(unique_asset_id), TypedValue::Address(receiver.bytes), TypedValue::Nat(amount));
    proof {
        let vs0 = margs->Tuple_0;
        assert(vs0 =~= seq![nat_m(unique_asset_id), addr_m(receiver), nat_m(amount)]);
        lemma_fields_cons(vs0, Shape::Nat, spec_sl2(Shape::Address, Shape::Nat));
        let vs1 = vs0.skip(1);
        assert(vs1 =~= seq![addr_m(receiver), nat_m(amount)]);
        lemma_fields_cons(vs1, Shape::Address, spec_sl1(Shape::Nat));
        let vs2 = vs1.skip(1);
        assert(vs2 =~= seq![nat_m(amount)]);
        lemma_fields_cons(vs2, Shape::Nat, ShapeList::Nil);
        let vs3 = vs2.skip(1);
        assert(vs3 =~= Seq::<ValModel>::empty());
        lemma_fields_nil(vs3);
        assert(args@->Tuple_0 =~= margs->Tuple_0);
        assert(args@ =~= margs);
        assert(has_shape(margs, request_shape(Method::IntTransferTokens)));
    }
    prepare_checked(ctx, descriptor(Method::IntTransferTokens), args)
}

/// Prepares the `int_update_supply_amount` update with its typed arguments.
pub fn int_update_supply_amount(ctx: &InvocationContext, supply_id: BigNat, new_total_amount: BigNat, additional_amount: BigNat) -> (r: PreparedCall)
    requires
        supply_id.wf(),
        new_total_amount.wf(),
        additional_amount.wf(),
    ensures
        r.name@ == method_name(Method::IntUpdateSupplyAmount),
        r.channel == Channel::Update,
        r.envelope@ == enc(request_shape(Method::IntUpdateSupplyAmount), ValModel::Tuple(seq![nat_m(supply_id), nat_m(new_total_amount), nat_m(additional_amount)])),
        r.signer@ == ctx.identity@,
        r.trace == ctx.trace_enabled,
{
    let _len_supply_id: usize = supply_id.bytes.len();
    let _len_new_total_amount: usize = new_total_amount.bytes.len();
    let _len_additional_amount: usize = additional_amount.bytes.len();
    let ghost margs = ValModel::Tuple(seq![nat_m(supply_id), nat_m(new_total_amount), nat_m(additional_amount)]);
    let args = tuple3(TypedValue::Nat(supply_id), TypedValue::Nat(new_total_amount), TypedValue::Nat(additional_amount));
    proof {
        let vs0 = margs->Tuple_0;
        assert(vs0 =~= seq![nat_m(supply_id), nat_m(new_total_amount), nat_m(additional_amount)]);
        lemma_fields_cons(vs0, Shape::Nat, spec_sl2(Shape::Nat, Shape::Nat));
        let vs1 = vs0.skip(1);
        assert(vs1 =~= seq![nat_m(new_total_amount), nat_m(additional_amount)]);
        lemma_fields_cons(vs1, Shape::Nat, spec_sl1(Shape::Nat));
        let vs2 = vs1.skip(1);
        assert(vs2 =~= seq![nat_m(additional_amount)]);
        lemma_fields_cons(vs2, Shape::Nat, ShapeList::Nil);
        let vs3 = vs2.skip(1);
        assert(vs3 =~= Seq::<ValModel>::empty());
        lemma_fields_nil(vs3);
        assert(args@->Tuple_0 =~= margs->Tuple_0);
        assert(args@ =~= margs);
        assert(has_shape(margs, request_shape(Method::IntUpdateSupplyAmount)));
    }
    prepare_checked(ctx, descriptor(Method::IntUpdateSupplyAmount), args)
}

/// Prepares the `int_update_supply_exchange_rate` update with its typed arguments.
pub fn int_update_supply_exchange_rate(ctx: &InvocationContext, supply_id: BigNat, exchange_rate: BigNat) -> (r: PreparedCall)
    requires
        supply_id.wf(),
        exchange_rate.wf(),
    ensures
        r.name@ == method_name(Method::IntUpdateSupplyExchangeRate),
        r.channel == Channel::Update,
        r.envelope@ == enc(request_shape(Method::IntUpdateSupplyExchangeRate), ValModel::Tuple(seq![nat_m(supply_id), nat_m(exchange_rate)])),
        r.signer@ == ctx.identity@,
        r.trace == ctx.trace_enabled,
{
    let _len_supply_id: usize = supply_id.bytes.len();
    let _len_exchange_rate: usize = exchange_rate.bytes.len();
    let ghost margs = ValModel::Tuple(seq![nat_m(supply_id), nat_m(exchange_rate)]);
    let args = tuple2(TypedValue::Nat(supply_id), TypedValue::Nat(exchange_rate));
    proof {
        let vs0 = margs->Tuple_0;
        assert(vs0 =~= seq![nat_m(supply_id), nat_m(exchange_rate)]);
        lemma_fields_cons(vs0, Shape::Nat, spec_sl1(Shape::Nat));
        let vs1 = vs0.skip(1);
        assert(vs1 =~= seq![nat_m(exchange_rate)]);
        lemma_fields_cons(vs1, Shape::Nat, ShapeList::Nil);
        let vs2 = vs1.skip(1);
        assert(vs2 =~= Seq::<ValModel>::empty());
        lemma_fields_nil(vs2);
        assert(args@->Tuple_0 =~= margs->Tuple_0);
        assert(args@ =~= margs);
        assert(has_shape(margs, request_shape(Method::IntUpdateSupplyExchangeRate)));
    }
    prepare_checked(ctx, descriptor(Method::IntUpdateSupplyExchangeRate), args)
}

/// Prepares the `int_update_supply_expiry_date` update with its typed arguments.
pub fn int_update_supply_expiry_date(ctx: &InvocationContext, supply_id: BigNat, valid_until: u64) -> (r: PreparedCall)
    requires
        supply_id.wf(),
    ensures
        r.name@ == method_name(Method::IntUpdateSupplyExpiryDate),
        r.channel == Channel::Update,
        r.envelope@ == enc(request_shape(Method::IntUpdateSupplyExpiryDate), ValModel::Tuple(seq![nat_m(supply_id), ValModel::N64(valid_until)])),
        r.signer@ == ctx.identity@,
        r.trace == ctx.trace_enabled,
{
    let _len_supply_id: usize = supply_id.bytes.len();
    let ghost margs = ValModel::Tuple(seq![nat_m(supply_id), ValModel::N64(valid_until)]);
    let args = tuple2(TypedValue::Nat(supply_id), TypedValue::N64(valid_until));
    proof {
        let vs0 = margs->Tuple_0;
        assert(vs0 =~= seq![nat_m(supply_id), ValModel::N64(valid_until)]);
        lemma_fields_cons(vs0, Shape::Nat, spec_sl1(Shape::N64));
        let vs1 = vs0.skip(1);
        assert(vs1 =~= seq![ValModel::N64(valid_until)]);
        lemma_fields_cons(vs1, Shape::N64, ShapeList::Nil);
        let vs2 = vs1.skip(1);
        assert(vs2 =~= Seq::<ValModel>::empty());
        lemma_fields_nil(vs2);
        assert(args@->Tuple_0 =~= margs->Tuple_0);
        assert(args@ =~= margs);
        assert(has_shape(margs, request_shape(Method::IntUpdateSupplyExpiryDate)));
    }
    prepare_checked(ctx, descriptor(Method::IntUpdateSupplyExpiryDate), args)
}

/// Prepares the `led_amen_change_issuer` update with its typed arguments.
pub fn led_amen_change_issuer(ctx: &InvocationContext, contract_id: BigNat, asset_id: BigNat, hash: BigNat, new_issuer: CallerAddress) -> (r: PreparedCall)
    requires
        contract_id.wf(),
        asset_id.wf(),
        hash.wf(),
        new_issuer.wf(),
    ensures
        r.name@ == method_name(Method::LedAmenChangeIssuer),
        r.channel == Channel::Update,
        r.envelope@ == enc(request_shape(Method::LedAmenChangeIssuer), ValModel::Tuple(seq![nat_m(contract_id), nat_m(asset_id), nat_m(hash), addr_m(new_issuer)])),
        r.signer@ == ctx.identity@,
        r.trace == ctx.trace_enabled,
{
    let _len_contract_id: usize = contract_id.bytes.len();
    let _len_asset_id: usize = asset_id.bytes.len();
    let _len_hash: usize = hash.bytes.len();
    let ghost margs = ValModel::Tuple(seq![nat_m(contract_id), nat_m(asset_id), nat_m(hash), addr_m(new_issuer)]);
    let args = tuple4(TypedValue::Nat(contract_id), TypedValue::Nat(asset_id), TypedValue::Nat(hash), TypedValue::Address(new_issuer.bytes));
    proof {
        let vs0 = margs->Tuple_0;
        assert(vs0 =~= seq![nat_m(contract_id), nat_m(asset_id), nat_m(hash), addr_m(new_issuer)]);
        lemma_fields_cons(vs0, Shape::Nat, spec_sl3(Shape::Nat, Shape::Nat, Shape::Address));
        let vs1 = vs0.skip(1);
        assert(vs1 =~= seq![nat_m(asset_id), nat_m(hash), addr_m(new_issuer)]);
        lemma_fields_cons(vs1, Shape::Nat, spec_sl2(Shape::Nat, Shape::Address));
        let vs2 = vs1.skip(1);
        assert(vs2 =~= seq![nat_m(hash), addr_m(new_issuer)]);
        lemma_fields_cons(vs2, Shape::Nat, spec_sl1(Shape::Address));
        let vs3 = vs2.skip(1);
        assert(vs3 =~= seq![addr_m(new_issuer)]);
        lemma_fields_cons(vs3, Shape::Address, ShapeList::Nil);
        let vs4 = vs3.skip(1);
        assert(vs4 =~= Seq::<ValModel>::empty());
        lemma_fields_nil(vs4);
        assert(args@->Tuple_0 =~= margs->Tuple_0);
        assert(args@ =~= margs);
        assert(has_shape(margs, request_shape(Method::LedAmenChangeIssuer)));
    }
    prepare_checked(ctx, descriptor(Method::LedAmenChangeIssuer), args)
}

/// Prepares the `led_amen_create_amendment` update with its typed arguments.
pub fn led_amen_create_amendment(ctx: &InvocationContext, contract_id: BigNat, asset_id: BigNat, hash: BigNat) -> (r: PreparedCall)
    requires
        contract_id.wf(),
        asset_id.wf(),
        hash.wf(),
    ensures
        r.name@ == method_name(Method::LedAmenCreateAmendment),
        r.channel == Channel::Update,
        r.envelope@ == enc(request_shape(Method::LedAmenCreateAmendment), ValModel::Tuple(seq![nat_m(contract_id), nat_m(asset_id), nat_m(hash)])),
        r.signer@ == ctx.identity@,
        r.trace == ctx.trace_enabled,
{
    let _len_contract_id: usize = contract_id.bytes.len();
    let _len_asset_id: usize = asset_id.bytes.len();
    let _len_hash: usize = hash.bytes.len();
    let ghost margs = ValModel::Tuple(seq![nat_m(contract_id), nat_m(asset_id), nat_m(hash)]);
    let args = tuple3(TypedValue::Nat(contract_id), TypedValue::Nat(asset_id), TypedValue::Nat(hash));
    proof {
        let vs0 = margs->Tuple_0;
        assert(vs0 =~= seq![nat_m(contract_id), nat_m(asset_id), nat_m(hash)]);
        lemma_fields_cons(vs0, Shape::Nat, spec_sl2(Shape::Nat, Shape::Nat));
        let vs1 = vs0.skip(1);
        assert(vs1 =~= seq![nat_m(asset_id), nat_m(hash)]);
        lemma_fields_cons(vs1, Shape::Nat, spec_sl1(Shape::Nat));
        let vs2 = vs1.skip(1);
        assert(vs2 =~= seq![nat_m(hash)]);
        lemma_fields_cons(vs2, Shape::Nat, ShapeList::Nil);
        let vs3 = vs2.skip(1);
        assert(vs3 =~= Seq::<ValModel>::empty());
        lemma_fields_nil(vs3);
        assert(args@->Tuple_0 =~= margs->Tuple_0);
        assert(args@ =~= margs);
        assert(has_shape(margs, request_shape(Method::LedAmenCreateAmendment)));
    }
    prepare_checked(ctx, descriptor(Method::LedAmenCreateAmendment), args)
}

/// Prepares the `led_amen_get_amendment` query with its typed arguments.
pub fn led_amen_get_amendment(ctx: &InvocationContext, amendment_id: BigNat) -> (r: PreparedCall)
    requires
        amendment_id.wf(),
    ensures
        r.name@ == method_name(Method::LedAmenGetAmendment),
        r.channel == Channel::Query,
        r.envelope@ == enc(request_shape(Method::LedAmenGetAmendment), ValModel::Tuple(seq![nat_m(amendment_id)])),
        r.signer@ == ctx.identity@,
        r.trace == ctx.trace_enabled,
{
    let _len_amendment_id: usize = amendment_id.bytes.len();
    let ghost margs = ValModel::Tuple(seq![nat_m(amendment_id)]);
    let args = tuple1(TypedValue::Nat(amendment_id));
    proof {
        let vs0 = margs->Tuple_0;
        assert(vs0 =~= seq![nat_m(amendment_id)]);
        lemma_fields_cons(vs0, Shape::Nat, ShapeList::Nil);
        let vs1 = vs0.skip(1);
        assert(vs1 =~= Seq::<ValModel>::empty());
        lemma_fields_nil(vs1);
        assert(args@->Tuple_0 =~= margs->Tuple_0);
        assert(args@ =~= margs);
        assert(has_shape(margs, request_shape(Method::LedAmenGetAmendment)));
    }
    prepare_checked(ctx, descriptor(Method::LedAmenGetAmendment), args)
}

/// Prepares the `led_base_activate_asset` update with its typed arguments.
pub fn led_base_activate_asset(ctx: &InvocationContext, contract_id: BigNat, asset_id: BigNat, hash: BigNat, bitwise: bool, controller: Option<BigNat>) -> (r: PreparedCall)
    requires
        contract_id.wf(),
        asset_id.wf(),
        hash.wf(),
        opt_nat_wf(&controller),
    ensures
        r.name@ == method_name(Method::LedBaseActivateAsset),
        r.channel == Channel::Update,
        r.envelope@ == enc(request_shape(Method::LedBaseActivateAsset), ValModel::Tuple(seq![nat_m(contract_id), nat_m(asset_id), nat_m(hash), ValModel::Bool(bitwise), opt_nat_m(controller)])),
        r.signer@ == ctx.identity@,
        r.trace == ctx.trace_enabled,
{
    let _len_contract_id: usize = contract_id.bytes.len();
    let _len_asset_id: usize = asset_id.bytes.len();
    let _len_hash: usize = hash.bytes.len();
    match &controller {
        Option::Some(n) => {
            let _len_controller: usize = n.bytes.len();
        },
        Option::None => {},
    }
    let ghost margs = ValModel::Tuple(seq![nat_m(contract_id), nat_m(asset_id), nat_m(hash), ValModel::Bool(bitwise), opt_nat_m(controller)]);
    let args = tuple5(TypedValue::Nat(contract_id), TypedValue::Nat(asset_id), TypedValue::Nat(hash), TypedValue::Bool(bitwise), opt_nat_value(controller));
    proof {
        let vs0 = margs->Tuple_0;
        assert(vs0 =~= seq![nat_m(contract_id), nat_m(asset_id), nat_m(hash), ValModel::Bool(bitwise), opt_nat_m(controller)]);
        lemma_fields_cons(vs0, Shape::Nat, spec_sl4(Shape::Nat, Shape::Nat, Shape::Bool, Shape::Opt(Box::new(Shape::Nat))));
        let vs1 = vs0.skip(1);
        assert(vs1 =~= seq![nat_m(asset_id), nat_m(hash), ValModel::Bool(bitwise), opt_nat_m(controller)]);
        lemma_fields_cons(vs1, Shape::Nat, spec_sl3(Shape::Nat, Shape::Bool, Shape::Opt(Box::new(Shape::Nat))));
        let vs2 = vs1.skip(1);
        assert(vs2 =~= seq![nat_m(hash), ValModel::Bool(bitwise), opt_nat_m(controller)]);
        lemma_fields_cons(vs2, Shape::Nat, spec_sl2(Shape::Bool, Shape::Opt(Box::new(Shape::Nat))));
        let vs3 = vs2.skip(1);
        assert(vs3 =~= seq![ValModel::Bool(bitwise), opt_nat_m(controller)]);
        lemma_fields_cons(vs3, Shape::Bool, spec_sl1(Shape::Opt(Box::new(Shape::Nat))));
        let vs4 = vs3.skip(1);
        assert(vs4 =~= seq![opt_nat_m(controller)]);
        lemma_fields_cons(vs4, Shape::Opt(Box::new(Shape::Nat)), ShapeList::Nil);
        let vs5 = vs4.skip(1);
        assert(vs5 =~= Seq::<ValModel>::empty());
        lemma_fields_nil(vs5);
        lemma_has_shape_opt(opt_nat_m(controller), Shape::Nat);
        assert(args@->Tuple_0 =~= margs->Tuple_0);
        assert(args@ =~= margs);
        assert(has_shape(margs, request_shape(Method::LedBaseActivateAsset)));
    }
    prepare_checked(ctx, descriptor(Method::LedBaseActivateAsset), args)
}

/// Prepares the `led_base_create_asset` update with its typed arguments.
pub fn led_base_create_asset(ctx: &InvocationContext, contract_id: BigNat, asset_id: BigNat) -> (r: PreparedCall)
    requires
        contract_id.wf(),
        asset_id.wf(),
    ensures
        r.name@ == method_name(Method::LedBaseCreateAsset),
        r.channel == Channel::Update,
        r.envelope@ == enc(request_shape(Method::LedBaseCreateAsset), ValModel::Tuple(seq![nat_m(contract_id), nat_m(asset_id)])),
        r.signer@ == ctx.identity@,
        r.trace == ctx.trace_enabled,
{
    let _len_contract_id: usize = contract_id.bytes.len();
    let _len_asset_id: usize = asset_id.bytes.len();
    let ghost margs = ValModel::Tuple(seq![nat_m(contract_id), nat_m(asset_id)]);
    let args = tuple2(TypedValue::Nat(contract_id), TypedValue::Nat(asset_id));
    proof {
        let vs0 = margs->Tuple_0;
        assert(vs0 =~= seq![nat_m(contract_id), nat_m(asset_id)]);
        lemma_fields_cons(vs0, Shape::Nat, spec_sl1(Shape::Nat));
        let vs1 = vs0.skip(1);
        assert(vs1 =~= seq![nat_m(asset_id)]);
        lemma_fields_cons(vs1, Shape::Nat, ShapeList::Nil);
        let vs2 = vs1.skip(1);
        assert(vs2 =~= Seq::<ValModel>::empty());
        lemma_fields_nil(vs2);
        assert(args@->Tuple_0 =~= margs->Tuple_0);
        assert(args@ =~= margs);
        assert(has_shape(margs, request_shape(Method::LedBaseCreateAsset)));
    }
    prepare_checked(ctx, descriptor(Method::LedBaseCreateAsset), args)
}

/// Prepares the `led_base_destroy_tokens` update with its typed arguments.
pub fn led_base_destroy_tokens(ctx: &InvocationContext, contract_id: BigNat, asset_id: BigNat, amount: BigNat) -> (r: PreparedCall)
    requires
        contract_id.wf(),
        asset_id.wf(),
        amount.wf(),
    ensures
        r.name@ == method_name(Method::LedBaseDestroyTokens),
        r.channel == Channel::Update,
        r.envelope@ == enc(request_shape(Method::LedBaseDestroyTokens), ValModel::Tuple(seq![nat_m(contract_id), nat_m(asset_id), nat_m(amount)])),
        r.signer@ == ctx.identity@,
        r.trace == ctx.trace_enabled,
{
    let _len_contract_id: usize = contract_id.bytes.len();
    let _len_asset_id: usize = asset_id.bytes.len();
    let _len_amount: usize = amount.bytes.len();
    let ghost margs = ValModel::Tuple(seq![nat_m(contract_id), nat_m(asset_id), nat_m(amount)]);
    let args = tuple3(TypedValue::Nat(contract_id), TypedValue::Nat(asset_id), TypedValue::Nat(amount));
    proof {
        let vs0 = margs->Tuple_0;
        assert(vs0 =~= seq![nat_m(contract_id), nat_m(asset_id), nat_m(amount)]);
        lemma_fields_cons(vs0, Shape::Nat, spec_sl2(Shape::Nat, Shape::Nat));
        let vs1 = vs0.skip(1);
        assert(vs1 =~= seq![nat_m(asset_id), nat_m(amount)]);
        lemma_fields_cons(vs1, Shape::Nat, spec_sl1(Shape::Nat));
        let vs2 = vs1.skip(1);
        assert(vs2 =~= seq![nat_m(amount)]);
        lemma_fields_cons(vs2, Shape::Nat, ShapeList::Nil);
        let vs3 = vs2.skip(1);
        assert(vs3 =~= Seq::<ValModel>::empty());
        lemma_fields_nil(vs3);
        assert(args@->Tuple_0 =~= margs->Tuple_0);
        assert(args@ =~= margs);
        assert(has_shape(margs, request_shape(Method::LedBaseDestroyTokens)));
    }
    prepare_checked(ctx, descriptor(Method::LedBaseDestroyTokens), args)
}

/// Prepares the `led_base_get_asset` query with its typed arguments.
pub fn led_base_get_asset(ctx: &InvocationContext, contract_id: BigNat, asset_id: BigNat) -> (r: PreparedCall)
    requires
        contract_id.wf(),
        asset_id.wf(),
    ensures
        r.name@ == method_name(Method::LedBaseGetAsset),
        r.channel == Channel::Query,
        r.envelope@ == enc(request_shape(Method::LedBaseGetAsset), ValModel::Tuple(seq![nat_m(contract_id), nat_m(asset_id)])),
        r.signer@ == ctx.identity@,
        r.trace == ctx.trace_enabled,
{
    let _len_contract_id: usize = contract_id.bytes.len();
    let _len_asset_id: usize = asset_id.bytes.len();
    let ghost margs = ValModel::Tuple(seq![nat_m(contract_id), nat_m(asset_id)]);
    let args = tuple2(TypedValue::Nat(contract_id), TypedValue::Nat(asset_id));
    proof {
        let vs0 = margs->Tuple_0;
        assert(vs0 =~= seq![nat_m(contract_id), nat_m(asset_id)]);
        lemma_fields_cons(vs0, Shape::Nat, spec_sl1(Shape::Nat));
        let vs1 = vs0.skip(1);
        assert(vs1 =~= seq![nat_m(asset_id)]);
        lemma_fields_cons(vs1, Shape::Nat, ShapeList::Nil);
        let vs2 = vs1.skip(1);
        assert(vs2 =~= Seq::<ValModel>::empty());
        lemma_fields_nil(vs2);
        assert(args@->Tuple_0 =~= margs->Tuple_0);
        assert(args@ =~= margs);
        assert(has_shape(margs, request_shape(Method::LedBaseGetAsset)));
    }
    prepare_checked(ctx, descriptor(Method::LedBaseGetAsset), args)
}

/// Prepares the `led_base_issue_tokens` update with its typed arguments.
pub fn led_base_issue_tokens(ctx: &InvocationContext, contract_id: BigNat, asset_id: BigNat, amount: BigNat) -> (r: PreparedCall)
    requires
        contract_id.wf(),
        asset_id.wf(),
        amount.wf(),
    ensures
        r.name@ == method_name(Method::LedBaseIssueTokens),
        r.channel == Channel::Update,
        r.envelope@ == enc(request_shape(Method::LedBaseIssueTokens), ValModel::Tuple(seq![nat_m(contract_id), nat_m(asset_id), nat_m(amount)])),
        r.signer@ == ctx.identity@,
        r.trace == ctx.trace_enabled,
{
    let _len_contract_id: usize = contract_id.bytes.len();
    let _len_asset_id: usize = asset_id.bytes.len();
    let _len_amount: usize = amount.bytes.len();
    let ghost margs = ValModel::Tuple(seq![nat_m(contract_id), nat_m(asset_id), nat_m(amount)]);
    let args = tuple3(TypedValue::Nat(contract_id), TypedValue::Nat(asset_id), TypedValue::Nat(amount));
    proof {
        let vs0 = margs->Tuple_0;
        assert(vs0 =~= seq![nat_m(contract_id), nat_m(asset_id), nat_m(amount)]);
        lemma_fields_cons(vs0, Shape::Nat, spec_sl2(Shape::Nat, Shape::Nat));
        let vs1 = vs0.skip(1);
        assert(vs1 =~= seq![nat_m(asset_id), nat_m(amount)]);
        lemma_fields_cons(vs1, Shape::Nat, spec_sl1(Shape::Nat));
        let vs2 = vs1.skip(1);
        assert(vs2 =~= seq![nat_m(amount)]);
        lemma_fields_cons(vs2, Shape::Nat, ShapeList::Nil);
        let vs3 = vs2.skip(1);
        assert(vs3 =~= Seq::<ValModel>::empty());
        lemma_fields_nil(vs3);
        assert(args@->Tuple_0 =~= margs->Tuple_0);
        assert(args@ =~= margs);
        assert(has_shape(margs, request_shape(Method::LedBaseIssueTokens)));
    }
    prepare_checked(ctx, descriptor(Method::LedBaseIssueTokens), args)
}

/// Prepares the `led_kyc_remove_usage_controller` update with its typed arguments.
pub fn led_kyc_remove_usage_controller(ctx: &InvocationContext, ledger_contract_id: BigNat, asset_id: BigNat) -> (r: PreparedCall)
    requires
        ledger_contract_id.wf(),
        asset_id.wf(),
    ensures
        r.name@ == method_name(Method::LedKycRemoveUsageController),
        r.channel == Channel::Update,
        r.envelope@ == enc(request_shape(Method::LedKycRemoveUsageController), ValModel::Tuple(seq![nat_m(ledger_contract_id), nat_m(asset_id)])),
        r.signer@ == ctx.identity@,
        r.trace == ctx.trace_enabled,
{
    let _len_ledger_contract_id: usize = ledger_contract_id.bytes.len();
    let _len_asset_id: usize = asset_id.bytes.len();
    let ghost margs = ValModel::Tuple(seq![nat_m(ledger_contract_id), nat_m(asset_id)]);
    let args = tuple2(TypedValue::Nat(ledger_contract_id), TypedValue::Nat(asset_id));
    proof {
        let vs0 = margs->Tuple_0;
        assert(vs0 =~= seq![nat_m(ledger_contract_id), nat_m(asset_id)]);
        lemma_fields_cons(vs0, Shape::Nat, spec_sl1(Shape::Nat));
        let vs1 = vs0.skip(1);
        assert(vs1 =~= seq![nat_m(asset_id)]);
        lemma_fields_cons(vs1, Shape::Nat, ShapeList::Nil);
        let vs2 = vs1.skip(1);
        assert(vs2 =~= Seq::<ValModel>::empty());
        lemma_fields_nil(vs2);
        assert(args@->Tuple_0 =~= margs->Tuple_0);
        assert(args@ =~= margs);
        assert(has_shape(margs, request_shape(Method::LedKycRemoveUsageController)));
    }
    prepare_checked(ctx, descriptor(Method::LedKycRemoveUsageController), args)
}

/// Prepares the `led_kyc_set_usage_controller` update with its typed arguments.
pub fn led_kyc_set_usage_controller(ctx: &InvocationContext, ledger_contract_id: BigNat, asset_id: BigNat, controller_contract_id: BigNat) -> (r: PreparedCall)
    requires
        ledger_contract_id.wf(),
        asset_id.wf(),
        controller_contract_id.wf(),
    ensures
        r.name@ == method_name(Method::LedKycSetUsageController),
        r.channel == Channel::Update,
        r.envelope@ == enc(request_shape(Method::LedKycSetUsageController), ValModel::Tuple(seq![nat_m(ledger_contract_id), nat_m(asset_id), nat_m(controller_contract_id)])),
        r.signer@ == ctx.identity@,
        r.trace == ctx.trace_enabled,
{
    let _len_ledger_contract_id: usize = ledger_contract_id.bytes.len();
    let _len_asset_id: usize = asset_id.bytes.len();
    let _len_controller_contract_id: usize = controller_contract_id.bytes.len();
    let ghost margs = ValModel::Tuple(seq![nat_m(ledger_contract_id), nat_m(asset_id), nat_m(controller_contract_id)]);
    let args = tuple3(TypedValue::Nat(ledger_contract_id), TypedValue::Nat(asset_id), TypedValue::Nat(controller_contract_id));
    proof {
        let vs0 = margs->Tuple_0;
        assert(vs0 =~= seq![nat_m(ledger_contract_id), nat_m(asset_id), nat_m(controller_contract_id)]);
        lemma_fields_cons(vs0, Shape::Nat, spec_sl2(Shape::Nat, Shape::Nat));
        let vs1 = vs0.skip(1);
        assert(vs1 =~= seq![nat_m(asset_id), nat_m(controller_contract_id)]);
        lemma_fields_cons(vs1, Shape::Nat, spec_sl1(Shape::Nat));
        let vs2 = vs1.skip(1);
        assert(vs2 =~= seq![nat_m(controller_contract_id)]);
        lemma_fields_cons(vs2, Shape::Nat, ShapeList::Nil);
        let vs3 = vs2.skip(1);
        assert(vs3 =~= Seq::<ValModel>::empty());
        lemma_fields_nil(vs3);
        assert(args@->Tuple_0 =~= margs->Tuple_0);
        assert(args@ =~= margs);
        assert(has_shape(margs, request_shape(Method::LedKycSetUsageController)));
    }
    prepare_checked(ctx, descriptor(Method::LedKycSetUsageController), args)
}

/// Prepares the `mng_contract_deployment_code` query with its typed arguments.
pub fn mng_contract_deployment_code(ctx: &InvocationContext, contract_id: BigNat) -> (r: PreparedCall)
    requires
        contract_id.wf(),
    ensures
        r.name@ == method_name(Method::MngContractDeploymentCode),
        r.channel == Channel::Query,
        r.envelope@ == enc(request_shape(Method::MngContractDeploymentCode), ValModel::Tuple(seq![nat_m(contract_id)])),
        r.signer@ == ctx.identity@,
        r.trace == ctx.trace_enabled,
{
    let _len_contract_id: usize = contract_id.bytes.len();
    let ghost margs = ValModel::Tuple(seq![nat_m(contract_id)]);
    let args = tuple1(TypedValue::Nat(contract_id));
    proof {
        let vs0 = margs->Tuple_0;
        assert(vs0 =~= seq![nat_m(contract_id)]);
        lemma_fields_cons(vs0, Shape::Nat, ShapeList::Nil);
        let vs1 = vs0.skip(1);
        assert(vs1 =~= Seq::<ValModel>::empty());
        lemma_fields_nil(vs1);
        assert(args@->Tuple_0 =~= margs->Tuple_0);
        assert(args@ =~= margs);
        assert(has_shape(margs, request_shape(Method::MngContractDeploymentCode)));
    }
    prepare_checked(ctx, descriptor(Method::MngContractDeploymentCode), args)
}

/// Prepares the `mng_contract_name` query with its typed arguments.
pub fn mng_contract_name(ctx: &InvocationContext, contract_id: BigNat) -> (r: PreparedCall)
    requires
        contract_id.wf(),
    ensures
        r.name@ == method_name(Method::MngContractName),
        r.channel == Channel::Query,
        r.envelope@ == enc(request_shape(Method::MngContractName), ValModel::Tuple(seq![nat_m(contract_id)])),
        r.signer@ == ctx.identity@,
        r.trace == ctx.trace_enabled,
{
    let _len_contract_id: usize = contract_id.bytes.len();
    let ghost margs = ValModel::Tuple(seq![nat_m(contract_id)]);
    let args = tuple1(TypedValue::Nat(contract_id));
    proof {
        let vs0 = margs->Tuple_0;
        assert(vs0 =~= seq![nat_m(contract_id)]);
        lemma_fields_cons(vs0, Shape::Nat, ShapeList::Nil);
        let vs1 = vs0.skip(1);
        assert(vs1 =~= Seq::<ValModel>::empty());
        lemma_fields_nil(vs1);
        assert(args@->Tuple_0 =~= margs->Tuple_0);
        assert(args@ =~= margs);
        assert(has_shape(margs, request_shape(Method::MngContractName)));
    }
    prepare_checked(ctx, descriptor(Method::MngContractName), args)
}

/// Prepares the `mng_contract_version` query with its typed arguments.
pub fn mng_contract_version(ctx: &InvocationContext, contract_id: BigNat) -> (r: PreparedCall)
    requires
        contract_id.wf(),
    ensures
        r.name@ == method_name(Method::MngContractVersion),
        r.channel == Channel::Query,
        r.envelope@ == enc(request_shape(Method::MngContractVersion), ValModel::Tuple(seq![nat_m(contract_id)])),
        r.signer@ == ctx.identity@,
        r.trace == ctx.trace_enabled,
{
    let _len_contract_id: usize = contract_id.bytes.len();
    let ghost margs = ValModel::Tuple(seq![nat_m(contract_id)]);
    let args = tuple1(TypedValue::Nat(contract_id));
    proof {
        let vs0 = margs->Tuple_0;
        assert(vs0 =~= seq![nat_m(contract_id)]);
        lemma_fields_cons(vs0, Shape::Nat, ShapeList::Nil);
        let vs1 = vs0.skip(1);
        assert(vs1 =~= Seq::<ValModel>::empty());
        lemma_fields_nil(vs1);
        assert(args@->Tuple_0 =~= margs->Tuple_0);
        assert(args@ =~= margs);
        assert(has_shape(margs, request_shape(Method::MngContractVersion)));
    }
    prepare_checked(ctx, descriptor(Method::MngContractVersion), args)
}

/// Prepares the `mng_create_clmp` update with its typed arguments.
pub fn mng_create_clmp(ctx: &InvocationContext, deployment_code: &str) -> (r: PreparedCall)
    ensures
        r.name@ == method_name(Method::MngCreateClmp),
        r.channel == Channel::Update,
        r.envelope@ == enc(request_shape(Method::MngCreateClmp), ValModel::Tuple(seq![ValModel::Text(deployment_code.spec_bytes())])),
        r.signer@ == ctx.identity@,
        r.trace == ctx.trace_enabled,
{
    let bytes_deployment_code = vstd::slice::slice_to_vec(deployment_code.as_bytes());
    let _len_deployment_code: usize = bytes_deployment_code.len();
    let ghost margs = ValModel::Tuple(seq![ValModel::Text(deployment_code.spec_bytes())]);
    let args = tuple1(TypedValue::Text(bytes_deployment_code));
    proof {
        let vs0 = margs->Tuple_0;
        assert(vs0 =~= seq![ValModel::Text(deployment_code.spec_bytes())]);
        lemma_fields_cons(vs0, Shape::Text, ShapeList::Nil);
        let vs1 = vs0.skip(1);
        assert(vs1 =~= Seq::<ValModel>::empty());
        lemma_fields_nil(vs1);
        assert(args@->Tuple_0 =~= margs->Tuple_0);
        assert(args@ =~= margs);
        assert(has_shape(margs, request_shape(Method::MngCreateClmp)));
    }
    prepare_checked(ctx, descriptor(Method::MngCreateClmp), args)
}

/// Prepares the `mng_create_controller` update with its typed arguments.
pub fn mng_create_controller(ctx: &InvocationContext, deployment_code: &str, owner: CallerAddress) -> (r: PreparedCall)
    requires
        owner.wf(),
    ensures
        r.name@ == method_name(Method::MngCreateController),
        r.channel == Channel::Update,
        r.envelope@ == enc(request_shape(Method::MngCreateController), ValModel::Tuple(seq![ValModel::Text(deployment_code.spec_bytes()), addr_m(owner)])),
        r.signer@ == ctx.identity@,
        r.trace == ctx.trace_enabled,
{
    let bytes_deployment_code = vstd::slice::slice_to_vec(deployment_code.as_bytes());
    let _len_deployment_code: usize = bytes_deployment_code.len();
    let ghost margs = ValModel::Tuple(seq![ValModel::Text(deployment_code.spec_bytes()), addr_m(owner)]);
    let args = tuple2(TypedValue::Text(bytes_deployment_code), TypedValue::Address(owner.bytes));
    proof {
        let vs0 = margs->Tuple_0;
        assert(vs0 =~= seq![ValModel::Text(deployment_code.spec_bytes()), addr_m(owner)]);
        lemma_fields_cons(vs0, Shape::Text, spec_sl1(Shape::Address));
        let vs1 = vs0.skip(1);
        assert(vs1 =~= seq![addr_m(owner)]);
        lemma_fields_cons(vs1, Shape::Address, ShapeList::Nil);
        let vs2 = vs1.skip(1);
        assert(vs2 =~= Seq::<ValModel>::empty());
        lemma_fields_nil(vs2);
        assert(args@->Tuple_0 =~= margs->Tuple_0);
        assert(args@ =~= margs);
        assert(has_shape(margs, request_shape(Method::MngCreateController)));
    }
    prepare_checked(ctx, descriptor(Method::MngCreateController), args)
}

/// Prepares the `mng_create_integration` update with its typed arguments.
pub fn mng_create_integration(ctx: &InvocationContext, deployment_code: &str, decimal_pointer: BigNat) -> (r: PreparedCall)
    requires
        decimal_pointer.wf(),
    ensures
        r.name@ == method_name(Method::MngCreateIntegration),
        r.channel == Channel::Update,
        r.envelope@ == enc(request_shape(Method::MngCreateIntegration), ValModel::Tuple(seq![ValModel::Text(deployment_code.spec_bytes()), nat_m(decimal_pointer)])),
        r.signer@ == ctx.identity@,
        r.trace == ctx.trace_enabled,
{
    let bytes_deployment_code = vstd::slice::slice_to_vec(deployment_code.as_bytes());
    let _len_deployment_code: usize = bytes_deployment_code.len();
    let _len_decimal_pointer: usize = decimal_pointer.bytes.len();
    let ghost margs = ValModel::Tuple(seq![ValModel::Text(deployment_code.spec_bytes()), nat_m(decimal_pointer)]);
    let args = tuple2(TypedValue::Text(bytes_deployment_code), TypedValue::Nat(decimal_pointer));
    proof {
        let vs0 = margs->Tuple_0;
        assert(vs0 =~= seq![ValModel::Text(deployment_code.spec_bytes()), nat_m(decimal_pointer)]);
        lemma_fields_cons(vs0, Shape::Text, spec_sl1(Shape::Nat));
        let vs1 = vs0.skip(1);
        assert(vs1 =~= seq![nat_m(decimal_pointer)]);
        lemma_fields_cons(vs1, Shape::Nat, ShapeList::Nil);
        let vs2 = vs1.skip(1);
        assert(vs2 =~= Seq::<ValModel>::empty());
        lemma_fields_nil(vs2);
        assert(args@->Tuple_0 =~= margs->Tuple_0);
        assert(args@ =~= margs);
        assert(has_shape(margs, request_shape(Method::MngCreateIntegration)));
    }
    prepare_checked(ctx, descriptor(Method::MngCreateIntegration), args)
}

/// Prepares the `mng_grant_admin` query with its typed arguments.
pub fn mng_grant_admin(ctx: &InvocationContext, contract_id: BigNat, user: CallerAddress) -> (r: PreparedCall)
    requires
        contract_id.wf(),
        user.wf(),
    ensures
        r.name@ == method_name(Method::MngGrantAdmin),
        r.channel == Channel::Query,
        r.envelope@ == enc(request_shape(Method::MngGrantAdmin), ValModel::Tuple(seq![nat_m(contract_id), addr_m(user)])),
        r.signer@ == ctx.identity@,
        r.trace == ctx.trace_enabled,
{
    let _len_contract_id: usize = contract_id.bytes.len();
    let ghost margs = ValModel::Tuple(seq![nat_m(contract_id), addr_m(user)]);
    let args = tuple2(TypedValue::Nat(contract_id), TypedValue::Address(user.bytes));
    proof {
        let vs0 = margs->Tuple_0;
        assert(vs0 =~= seq![nat_m(contract_id), addr_m(user)]);
        lemma_fields_cons(vs0, Shape::Nat, spec_sl1(Shape::Address));
        let vs1 = vs0.skip(1);
        assert(vs1 =~= seq![addr_m(user)]);
        lemma_fields_cons(vs1, Shape::Address, ShapeList::Nil);
        let vs2 = vs1.skip(1);
        assert(vs2 =~= Seq::<ValModel>::empty());
        lemma_fields_nil(vs2);
        assert(args@->Tuple_0 =~= margs->Tuple_0);
        assert(args@ =~= margs);
        assert(has_shape(margs, request_shape(Method::MngGrantAdmin)));
    }
    prepare_checked(ctx, descriptor(Method::MngGrantAdmin), args)
}

/// Prepares the `mng_get_integration` query with its typed arguments.
pub fn mng_get_integration(ctx: &InvocationContext) -> (r: PreparedCall)
    ensures
        r.name@ == method_name(Method::MngGetIntegration),
        r.channel == Channel::Query,
        r.envelope@ == enc(request_shape(Method::MngGetIntegration), ValModel::Tuple(Seq::<ValModel>::empty())),
        r.signer@ == ctx.identity@,
        r.trace == ctx.trace_enabled,
{
    let ghost margs = ValModel::Tuple(Seq::<ValModel>::empty());
    let args = tuple0();
    proof {
        let vs0 = margs->Tuple_0;
        lemma_fields_nil(vs0);
        assert(args@->Tuple_0 =~= margs->Tuple_0);
        assert(args@ =~= margs);
        assert(has_shape(margs, request_shape(Method::MngGetIntegration)));
    }
    prepare_checked(ctx, descriptor(Method::MngGetIntegration), args)
}

/// Prepares the `mng_is_admin` query with its typed arguments.
pub fn mng_is_admin(ctx: &InvocationContext, contract_id: BigNat, user: CallerAddress) -> (r: PreparedCall)
    requires
        contract_id.wf(),
        user.wf(),
    ensures
        r.name@ == method_name(Method::MngIsAdmin),
        r.channel == Channel::Query,
        r.envelope@ == enc(request_shape(Method::MngIsAdmin), ValModel::Tuple(seq![nat_m(contract_id), addr_m(user)])),
        r.signer@ == ctx.identity@,
        r.trace == ctx.trace_enabled,
{
    let _len_contract_id: usize = contract_id.bytes.len();
    let ghost margs = ValModel::Tuple(seq![nat_m(contract_id), addr_m(user)]);
    let args = tuple2(TypedValue::Nat(contract_id), TypedValue::Address(user.bytes));
    proof {
        let vs0 = margs->Tuple_0;
        assert(vs0 =~= seq![nat_m(contract_id), addr_m(user)]);
        lemma_fields_cons(vs0, Shape::Nat, spec_sl1(Shape::Address));
        let vs1 = vs0.skip(1);
        assert(vs1 =~= seq![addr_m(user)]);
        lemma_fields_cons(vs1, Shape::Address, ShapeList::Nil);
        let vs2 = vs1.skip(1);
        assert(vs2 =~= Seq::<ValModel>::empty());
        lemma_fields_nil(vs2);
        assert(args@->Tuple_0 =~= margs->Tuple_0);
        assert(args@ =~= margs);
        assert(has_shape(margs, request_shape(Method::MngIsAdmin)));
    }
    prepare_checked(ctx, descriptor(Method::MngIsAdmin), args)
}

/// Prepares the `mng_is_owner` query with its typed arguments.
pub fn mng_is_owner(ctx: &InvocationContext, contract_id: BigNat, user: CallerAddress) -> (r: PreparedCall)
    requires
        contract_id.wf(),
        user.wf(),
    ensures
        r.name@ == method_name(Method::MngIsOwner),
        r.channel == Channel::Query,
        r.envelope@ == enc(request_shape(Method::MngIsOwner), ValModel::Tuple(seq![nat_m(contract_id), addr_m(user)])),
        r.signer@ == ctx.identity@,
        r.trace == ctx.trace_enabled,
{
    let _len_contract_id: usize = contract_id.bytes.len();
    let ghost margs = ValModel::Tuple(seq![nat_m(contract_id), addr_m(user)]);
    let args = tuple2(TypedValue::Nat(contract_id), TypedValue::Address(user.bytes));
    proof {
        let vs0 = margs->Tuple_0;
        assert(vs0 =~= seq![nat_m(contract_id), addr_m(user)]);
        lemma_fields_cons(vs0, Shape::Nat, spec_sl1(Shape::Address));
        let vs1 = vs0.skip(1);
        assert(vs1 =~= seq![addr_m(user)]);
        lemma_fields_cons(vs1, Shape::Address, ShapeList::Nil);
        let vs2 = vs1.skip(1);
        assert(vs2 =~= Seq::<ValModel>::empty());
        lemma_fields_nil(vs2);
        assert(args@->Tuple_0 =~= margs->Tuple_0);
        assert(args@ =~= margs);
        assert(has_shape(margs, request_shape(Method::MngIsOwner)));
    }
    prepare_checked(ctx, descriptor(Method::MngIsOwner), args)
}

/// Prepares the `mng_owner` query with its typed arguments.
pub fn mng_owner(ctx: &InvocationContext, contract_id: BigNat) -> (r: PreparedCall)
    requires
        contract_id.wf(),
    ensures
        r.name@ == method_name(Method::MngOwner),
        r.channel == Channel::Query,
        r.envelope@ == enc(request_shape(Method::MngOwner), ValModel::Tuple(seq![nat_m(contract_id)])),
        r.signer@ == ctx.identity@,
        r.trace == ctx.trace_enabled,
{
    let _len_contract_id: usize = contract_id.bytes.len();
    let ghost margs = ValModel::Tuple(seq![nat_m(contract_id)]);
    let args = tuple1(TypedValue::Nat(contract_id));
    proof {
        let vs0 = margs->Tuple_0;
        assert(vs0 =~= seq![nat_m(contract_id)]);
        lemma_fields_cons(vs0, Shape::Nat, ShapeList::Nil);
        let vs1 = vs0.skip(1);
        assert(vs1 =~= Seq::<ValModel>::empty());
        lemma_fields_nil(vs1);
        assert(args@->Tuple_0 =~= margs->Tuple_0);
        assert(args@ =~= margs);
        assert(has_shape(margs, request_shape(Method::MngOwner)));
    }
    prepare_checked(ctx, descriptor(Method::MngOwner), args)
}

/// Prepares the `mng_pause` update with its typed arguments.
pub fn mng_pause(ctx: &InvocationContext, contract_id: BigNat) -> (r: PreparedCall)
    requires
        contract_id.wf(),
    ensures
        r.name@ == method_name(Method::MngPause),
        r.channel == Channel::Update,
        r.envelope@ == enc(request_shape(Method::MngPause), ValModel::Tuple(seq![nat_m(contract_id)])),
        r.signer@ == ctx.identity@,
        r.trace == ctx.trace_enabled,
{
    let _len_contract_id: usize = contract_id.bytes.len();
    let ghost margs = ValModel::Tuple(seq![nat_m(contract_id)]);
    let args = tuple1(TypedValue::Nat(contract_id));
    proof {
        let vs0 = margs->Tuple_0;
        assert(vs0 =~= seq![nat_m(contract_id)]);
        lemma_fields_cons(vs0, Shape::Nat, ShapeList::Nil);
        let vs1 = vs0.skip(1);
        assert(vs1 =~= Seq::<ValModel>::empty());
        lemma_fields_nil(vs1);
        assert(args@->Tuple_0 =~= margs->Tuple_0);
        assert(args@ =~= margs);
        assert(has_shape(margs, request_shape(Method::MngPause)));
    }
    prepare_checked(ctx, descriptor(Method::MngPause), args)
}

/// Prepares the `mng_paused` query with its typed arguments.
pub fn mng_paused(ctx: &InvocationContext, contract_id: BigNat) -> (r: PreparedCall)
    requires
        contract_id.wf(),
    ensures
        r.name@ == method_name(Method::MngPaused),
        r.channel == Channel::Query,
        r.envelope@ == enc(request_shape(Method::MngPaused), ValModel::Tuple(seq![nat_m(contract_id)])),
        r.signer@ == ctx.identity@,
        r.trace == ctx.trace_enabled,
{
    let _len_contract_id: usize = contract_id.bytes.len();
    let ghost margs = ValModel::Tuple(seq![nat_m(contract_id)]);
    let args = tuple1(TypedValue::Nat(contract_id));
    proof {
        let vs0 = margs->Tuple_0;
        assert(vs0 =~= seq![nat_m(contract_id)]);
        lemma_fields_cons(vs0, Shape::Nat, ShapeList::Nil);
        let vs1 = vs0.skip(1);
        assert(vs1 =~= Seq::<ValModel>::empty());
        lemma_fields_nil(vs1);
        assert(args@->Tuple_0 =~= margs->Tuple_0);
        assert(args@ =~= margs);
        assert(has_shape(margs, request_shape(Method::MngPaused)));
    }
    prepare_checked(ctx, descriptor(Method::MngPaused), args)
}

/// Prepares the `mng_renounce_ownership` update with its typed arguments.
pub fn mng_renounce_ownership(ctx: &InvocationContext, contract_id: BigNat) -> (r: PreparedCall)
    requires
        contract_id.wf(),
    ensures
        r.name@ == method_name(Method::MngRenounceOwnership),
        r.channel == Channel::Update,
        r.envelope@ == enc(request_shape(Method::MngRenounceOwnership), ValModel::Tuple(seq![nat_m(contract_id)])),
        r.signer@ == ctx.identity@,
        r.trace == ctx.trace_enabled,
{
    let _len_contract_id: usize = contract_id.bytes.len();
    let ghost margs = ValModel::Tuple(seq![nat_m(contract_id)]);
    let args = tuple1(TypedValue::Nat(contract_id));
    proof {
        let vs0 = margs->Tuple_0;
        assert(vs0 =~= seq![nat_m(contract_id)]);
        lemma_fields_cons(vs0, Shape::Nat, ShapeList::Nil);
        let vs1 = vs0.skip(1);
        assert(vs1 =~= Seq::<ValModel>::empty());
        lemma_fields_nil(vs1);
        assert(args@->Tuple_0 =~= margs->Tuple_0);
        assert(args@ =~= margs);
        assert(has_shape(margs, request_shape(Method::MngRenounceOwnership)));
    }
    prepare_checked(ctx, descriptor(Method::MngRenounceOwnership), args)
}

/// Prepares the `mng_revoke_admin` update with its typed arguments.
pub fn mng_revoke_admin(ctx: &InvocationContext, contract_id: BigNat, user: CallerAddress) -> (r: PreparedCall)
    requires
        contract_id.wf(),
        user.wf(),
    ensures
        r.name@ == method_name(Method::MngRevokeAdmin),
        r.channel == Channel::Update,
        r.envelope@ == enc(request_shape(Method::MngRevokeAdmin), ValModel::Tuple(seq![nat_m(contract_id), addr_m(user)])),
        r.signer@ == ctx.identity@,
        r.trace == ctx.trace_enabled,
{
    let _len_contract_id: usize = contract_id.bytes.len();
    let ghost margs = ValModel::Tuple(seq![nat_m(contract_id), addr_m(user)]);
    let args = tuple2(TypedValue::Nat(contract_id), TypedValue::Address(user.bytes));
    proof {
        let vs0 = margs->Tuple_0;
        assert(vs0 =~= seq![nat_m(contract_id), addr_m(user)]);
        lemma_fields_cons(vs0, Shape::Nat, spec_sl1(Shape::Address));
        let vs1 = vs0.skip(1);
        assert(vs1 =~= seq![addr_m(user)]);
        lemma_fields_cons(vs1, Shape::Address, ShapeList::Nil);
        let vs2 = vs1.skip(1);
        assert(vs2 =~= Seq::<ValModel>::empty());
        lemma_fields_nil(vs2);
        assert(args@->Tuple_0 =~= margs->Tuple_0);
        assert(args@ =~= margs);
        assert(has_shape(margs, request_shape(Method::MngRevokeAdmin)));
    }
    prepare_checked(ctx, descriptor(Method::MngRevokeAdmin), args)
}

/// Prepares the `mng_transfer_ownership` update with its typed arguments.
pub fn mng_transfer_ownership(ctx: &InvocationContext, contract_id: BigNat, user: CallerAddress) -> (r: PreparedCall)
    requires
        contract_id.wf(),
        user.wf(),
    ensures
        r.name@ == method_name(Method::MngTransferOwnership),
        r.channel == Channel::Update,
        r.envelope@ == enc(request_shape(Method::MngTransferOwnership), ValModel::Tuple(seq![nat_m(contract_id), addr_m(user)])),
        r.signer@ == ctx.identity@,
        r.trace == ctx.trace_enabled,
{
    let _len_contract_id: usize = contract_id.bytes.len();
    let ghost margs = ValModel::Tuple(seq![nat_m(contract_id), addr_m(user)]);
    let args = tuple2(TypedValue::Nat(contract_id), TypedValue::Address(user.bytes));
    proof {
        let vs0 = margs->Tuple_0;
        assert(vs0 =~= seq![nat_m(contract_id), addr_m(user)]);
        lemma_fields_cons(vs0, Shape::Nat, spec_sl1(Shape::Address));
        let vs1 = vs0.skip(1);
        assert(vs1 =~= seq![addr_m(user)]);
        lemma_fields_cons(vs1, Shape::Address, ShapeList::Nil);
        let vs2 = vs1.skip(1);
        assert(vs2 =~= Seq::<ValModel>::empty());
        lemma_fields_nil(vs2);
        assert(args@->Tuple_0 =~= margs->Tuple_0);
        assert(args@ =~= margs);
        assert(has_shape(margs, request_shape(Method::MngTransferOwnership)));
    }
    prepare_checked(ctx, descriptor(Method::MngTransferOwnership), args)
}

/// Prepares the `mng_unpause` update with its typed arguments.
pub fn mng_unpause(ctx: &InvocationContext, contract_id: BigNat) -> (r: PreparedCall)
    requires
        contract_id.wf(),
    ensures
        r.name@ == method_name(Method::MngUnpause),
        r.channel == Channel::Update,
        r.envelope@ == enc(request_shape(Method::MngUnpause), ValModel::Tuple(seq![nat_m(contract_id)])),
        r.signer@ == ctx.identity@,
        r.trace == ctx.trace_enabled,
{
    let _len_contract_id: usize = contract_id.bytes.len();
    let ghost margs = ValModel::Tuple(seq![nat_m(contract_id)]);
    let args = tuple1(TypedValue::Nat(contract_id));
    proof {
        let vs0 = margs->Tuple_0;
        assert(vs0 =~= seq![nat_m(contract_id)]);
        lemma_fields_cons(vs0, Shape::Nat, ShapeList::Nil);
        let vs1 = vs0.skip(1);
        assert(vs1 =~= Seq::<ValModel>::empty());
        lemma_fields_nil(vs1);
        assert(args@->Tuple_0 =~= margs->Tuple_0);
        assert(args@ =~= margs);
        assert(has_shape(margs, request_shape(Method::MngUnpause)));
    }
    prepare_checked(ctx, descriptor(Method::MngUnpause), args)
}

/// Reads a reply carrying one `u8` value.
pub fn reply_u8(reply: &Vec<u8>) -> (r: Result<u8, InvokeError>)
    ensures
        r matches Ok(x) ==> dec_exact(Shape::N8, reply@) == Some(ValModel::N8(x)),
        r is Err <==> dec_exact(Shape::N8, reply@) is None,
        r matches Err(e) ==> e == InvokeError::Decoding,
{
    match decode(&Shape::N8, reply) {
        Result::Ok(v) => match unu8(v) {
            Option::Some(x) => Ok(x),
            Option::None => {
                proof {
                    assert(false);
                }
                Err(InvokeError::Decoding)
            },
        },
        Result::Err(_) => Err(InvokeError::Decoding),
    }
}

/// Reads a reply carrying one `u16` value.
pub fn reply_u16(reply: &Vec<u8>) -> (r: Result<u16, InvokeError>)
    ensures
        r matches Ok(x) ==> dec_exact(Shape::N16, reply@) == Some(ValModel::N16(x)),
        r is Err <==> dec_exact(Shape::N16, reply@) is None,
        r matches Err(e) ==> e == InvokeError::Decoding,
{
    match decode(&Shape::N16, reply) {
        Result::Ok(v) => match unu16(v) {
            Option::Some(x) => Ok(x),
            Option::None => {
                proof {
                    assert(false);
                }
                Err(InvokeError::Decoding)
            },
        },
        Result::Err(_) => Err(InvokeError::Decoding),
    }
}

/// Reads a reply carrying one `u64` value.
pub fn reply_u64(reply: &Vec<u8>) -> (r: Result<u64, InvokeError>)
    ensures
        r matches Ok(x) ==> dec_exact(Shape::N64, reply@) == Some(ValModel::N64(x)),
        r is Err <==> dec_exact(Shape::N64, reply@) is None,
        r matches Err(e) ==> e == InvokeError::Decoding,
{
    match decode(&Shape::N64, reply) {
        Result::Ok(v) => match unu64(v) {
            Option::Some(x) => Ok(x),
            Option::None => {
                proof {
                    assert(false);
                }
                Err(InvokeError::Decoding)
            },
        },
        Result::Err(_) => Err(InvokeError::Decoding),
    }
}

/// Reads a reply carrying one `bool` value.
pub fn reply_bool(reply: &Vec<u8>) -> (r: Result<bool, InvokeError>)
    ensures
        r matches Ok(x) ==> dec_exact(Shape::Bool, reply@) == Some(ValModel::Bool(x)),
        r is Err <==> dec_exact(Shape::Bool, reply@) is None,
        r matches Err(e) ==> e == InvokeError::Decoding,
{
    match decode(&Shape::Bool, reply) {
        Result::Ok(v) => match unbool(v) {
            Option::Some(x) => Ok(x),
            Option::None => {
                proof {
                    assert(false);
                }
                Err(InvokeError::Decoding)
            },
        },
        Result::Err(_) => Err(InvokeError::Decoding),
    }
}

/// Reads a reply carrying one arbitrary-precision integer.
pub fn reply_nat(reply: &Vec<u8>) -> (r: Result<BigNat, InvokeError>)
    ensures
        r matches Ok(n) ==> n.wf() && dec_exact(Shape::Nat, reply@) == Some(ValModel::Nat(
            n.bytes@,
        )),
        r is Err <==> dec_exact(Shape::Nat, reply@) is None,
        r matches Err(e) ==> e == InvokeError::Decoding,
{
    match decode(&Shape::Nat, reply) {
        Result::Ok(v) => match unnat(v) {
            Option::Some(n) => Ok(n),
            Option::None => {
                proof {
                    assert(false);
                }
                Err(InvokeError::Decoding)
            },
        },
        Result::Err(_) => Err(InvokeError::Decoding),
    }
}

/// Reads a reply carrying one text value, decoding its UTF-8 bytes.
/// A reply whose bytes are not valid UTF-8 is a decoding failure, like a
/// reply that does not parse at all.
pub fn reply_text(reply: &Vec<u8>) -> (r: Result<String, InvokeError>)
    ensures
        r matches Ok(s) ==> dec_exact(Shape::Text, reply@) == Some(ValModel::Text(encode_utf8(s@))),
        r is Err <==> (dec_exact(Shape::Text, reply@) is None || (dec_exact(Shape::Text, reply@)
            matches Some(m) && m matches ValModel::Text(b) && !valid_utf8(b))),
        r matches Err(e) ==> e == InvokeError::Decoding,
{
    match decode(&Shape::Text, reply) {
        Result::Ok(v) => match untext(v) {
            Option::Some(b) => match string_from_utf8(b) {
                Option::Some(s) => Ok(s),
                Option::None => Err(InvokeError::Decoding),
            },
            Option::None => {
                proof {
                    assert(false);
                }
                Err(InvokeError::Decoding)
            },
        },
        Result::Err(_) => Err(InvokeError::Decoding),
    }
}

/// Reads a reply carrying an optional arbitrary-precision integer.
pub fn reply_opt_nat(reply: &Vec<u8>) -> (r: Result<Option<BigNat>, InvokeError>)
    ensures
        r matches Ok(o) ==> dec_exact(Shape::Opt(Box::new(Shape::Nat)), reply@) == Some(opt_nat_m(o))
            && opt_nat_wf(&o),
        r is Err <==> dec_exact(Shape::Opt(Box::new(Shape::Nat)), reply@) is None,
        r matches Err(e) ==> e == InvokeError::Decoding,
{
    let shape = Shape::Opt(Box::new(Shape::Nat));
    match decode(&shape, reply) {
        Result::Ok(v) => {
            let ghost vm = v@;
            proof {
                lemma_has_shape_opt(vm, Shape::Nat);
            }
            match unopt(v) {
                Option::Some(inner) => match inner {
                    Option::None => Ok(None),
                    Option::Some(p) => match unnat(p) {
                        Option::Some(n) => Ok(Some(n)),
                        Option::None => {
                            proof {
                                assert(false);
                            }
                            Err(InvokeError::Decoding)
                        },
                    },
                },
                Option::None => {
                    proof {
                        assert(false);
                    }
                    Err(InvokeError::Decoding)
                },
            }
        },
        Result::Err(_) => Err(InvokeError::Decoding),
    }
}

/// Reads a reply carrying an optional caller address.
pub fn reply_opt_address(reply: &Vec<u8>) -> (r: Result<Option<CallerAddress>, InvokeError>)
    ensures
        r matches Ok(o) ==> dec_exact(Shape::Opt(Box::new(Shape::Address)), reply@) == Some(
            opt_addr_m(o),
        ) && opt_addr_wf(&o),
        r is Err <==> dec_exact(Shape::Opt(Box::new(Shape::Address)), reply@) is None,
        r matches Err(e) ==> e == InvokeError::Decoding,
{
    let shape = Shape::Opt(Box::new(Shape::Address));
    match decode(&shape, reply) {
        Result::Ok(v) => {
            let ghost vm = v@;
            proof {
                lemma_has_shape_opt(vm, Shape::Address);
            }
            match unopt(v) {
                Option::Some(inner) => match inner {
                    Option::None => Ok(None),
                    Option::Some(p) => match unaddress(p) {
                        Option::Some(b) => Ok(Some(CallerAddress { bytes: b })),
                        Option::None => {
                            proof {
                                assert(false);
                            }
                            Err(InvokeError::Decoding)
                        },
                    },
                },
                Option::None => {
                    proof {
                        assert(false);
                    }
                    Err(InvokeError::Decoding)
                },
            }
        },
        Result::Err(_) => Err(InvokeError::Decoding),
    }
}

/// Reads a reply carrying one `Response` record.
pub fn reply_response(reply: &Vec<u8>) -> (r: Result<Response, InvokeError>)
    ensures
        r matches Ok(t) ==> t.wf() && dec_exact(Response::shape(), reply@) == Some(t.as_model()),
        r is Err <==> dec_exact(Response::shape(), reply@) is None,
        r matches Err(e) ==> e == InvokeError::Decoding,
{
    let shape = Response::build_shape();
    match decode(&shape, reply) {
        Result::Ok(v) => match Response::from_value(v) {
            Option::Some(t) => Ok(t),
            Option::None => {
                proof {
                    assert(false);
                }
                Err(InvokeError::Decoding)
            },
        },
        Result::Err(_) => Err(InvokeError::Decoding),
    }
}

/// Reads a reply carrying one `ResponseSupplyId` record.
pub fn reply_response_supply_id(reply: &Vec<u8>) -> (r: Result<ResponseSupplyId, InvokeError>)
    ensures
        r matches Ok(t) ==> t.wf() && dec_exact(ResponseSupplyId::shape(), reply@) == Some(t.as_model()),
        r is Err <==> dec_exact(ResponseSupplyId::shape(), reply@) is None,
        r matches Err(e) ==> e == InvokeError::Decoding,
{
    let shape = ResponseSupplyId::build_shape();
    match decode(&shape, reply) {
        Result::Ok(v) => match ResponseSupplyId::from_value(v) {
            Option::Some(t) => Ok(t),
            Option::None => {
                proof {
                    assert(false);
                }
                Err(InvokeError::Decoding)
            },
        },
        Result::Err(_) => Err(InvokeError::Decoding),
    }
}

/// Reads a reply carrying one `ResponseAmendmentId` record.
pub fn reply_response_amendment_id(reply: &Vec<u8>) -> (r: Result<ResponseAmendmentId, InvokeError>)
    ensures
        r matches Ok(t) ==> t.wf() && dec_exact(ResponseAmendmentId::shape(), reply@) == Some(t.as_model()),
        r is Err <==> dec_exact(ResponseAmendmentId::shape(), reply@) is None,
        r matches Err(e) ==> e == InvokeError::Decoding,
{
    let shape = ResponseAmendmentId::build_shape();
    match decode(&shape, reply) {
        Result::Ok(v) => match ResponseAmendmentId::from_value(v) {
            Option::Some(t) => Ok(t),
            Option::None => {
                proof {
                    assert(false);
                }
                Err(InvokeError::Decoding)
            },
        },
        Result::Err(_) => Err(InvokeError::Decoding),
    }
}

/// Reads a reply carrying one `ResponseContractId` record.
pub fn reply_response_contract_id(reply: &Vec<u8>) -> (r: Result<ResponseContractId, InvokeError>)
    ensures
        r matches Ok(t) ==> t.wf() && dec_exact(ResponseContractId::shape(), reply@) == Some(t.as_model()),
        r is Err <==> dec_exact(ResponseContractId::shape(), reply@) is None,
        r matches Err(e) ==> e == InvokeError::Decoding,
{
    let shape = ResponseContractId::build_shape();
    match decode(&shape, reply) {
        Result::Ok(v) => match ResponseContractId::from_value(v) {
            Option::Some(t) => Ok(t),
            Option::None => {
                proof {
                    assert(false);
                }
                Err(InvokeError::Decoding)
            },
        },
        Result::Err(_) => Err(InvokeError::Decoding),
    }
}

/// Reads a reply carrying an optional `AccountUpdate` record; an absent value is a
/// successful reply, never a failure.
pub fn reply_opt_account_update(reply: &Vec<u8>) -> (r: Result<Option<AccountUpdate>, InvokeError>)
    ensures
        r matches Ok(o) ==> dec_exact(Shape::Opt(Box::new(AccountUpdate::shape())), reply@) == Some(
            match o {
                Option::None => ValModel::OptNone,
                Option::Some(t) => ValModel::OptSome(Box::new(t.as_model())),
            },
        ) && (o matches Some(t) ==> t.wf()),
        r is Err <==> dec_exact(Shape::Opt(Box::new(AccountUpdate::shape())), reply@) is None,
        r matches Err(e) ==> e == InvokeError::Decoding,
{
    let shape = Shape::Opt(Box::new(AccountUpdate::build_shape()));
    match decode(&shape, reply) {
        Result::Ok(v) => {
            let ghost vm = v@;
            proof {
                lemma_has_shape_opt(vm, AccountUpdate::shape());
            }
            match unopt(v) {
                Option::Some(inner) => match inner {
                    Option::None => Ok(None),
                    Option::Some(p) => match AccountUpdate::from_value(p) {
                        Option::Some(t) => Ok(Some(t)),
                        Option::None => {
                            proof {
                                assert(false);
                            }
                            Err(InvokeError::Decoding)
                        },
                    },
                },
                Option::None => {
                    proof {
                        assert(false);
                    }
                    Err(InvokeError::Decoding)
                },
            }
        },
        Result::Err(_) => Err(InvokeError::Decoding),
    }
}

/// Reads a reply carrying an optional `AdministratorChanged` record; an absent value is a
/// successful reply, never a failure.
pub fn reply_opt_administrator_changed(reply: &Vec<u8>) -> (r: Result<Option<AdministratorChanged>, InvokeError>)
    ensures
        r matches Ok(o) ==> dec_exact(Shape::Opt(Box::new(AdministratorChanged::shape())), reply@) == Some(
            match o {
                Option::None => ValModel::OptNone,
                Option::Some(t) => ValModel::OptSome(Box::new(t.as_model())),
            },
        ) && (o matches Some(t) ==> t.wf()),
        r is Err <==> dec_exact(Shape::Opt(Box::new(AdministratorChanged::shape())), reply@) is None,
        r matches Err(e) ==> e == InvokeError::Decoding,
{
    let shape = Shape::Opt(Box::new(AdministratorChanged::build_shape()));
    match decode(&shape, reply) {
        Result::Ok(v) => {
            let ghost vm = v@;
            proof {
                lemma_has_shape_opt(vm, AdministratorChanged::shape());
            }
            match unopt(v) {
                Option::Some(inner) => match inner {
                    Option::None => Ok(None),
                    Option::Some(p) => match AdministratorChanged::from_value(p) {
                        Option::Some(t) => Ok(Some(t)),
                        Option::None => {
                            proof {
                                assert(false);
                            }
                            Err(InvokeError::Decoding)
                        },
                    },
                },
                Option::None => {
                    proof {
                        assert(false);
                    }
                    Err(InvokeError::Decoding)
                },
            }
        },
        Result::Err(_) => Err(InvokeError::Decoding),
    }
}

/// Reads a reply carrying an optional `AmendmentUpdate` record; an absent value is a
/// successful reply, never a failure.
pub fn reply_opt_amendment_update(reply: &Vec<u8>) -> (r: Result<Option<AmendmentUpdate>, InvokeError>)
    ensures
        r matches Ok(o) ==> dec_exact(Shape::Opt(Box::new(AmendmentUpdate::shape())), reply@) == Some(
            match o {
                Option::None => ValModel::OptNone,
                Option::Some(t) => ValModel::OptSome(Box::new(t.as_model())),
            },
        ) && (o matches Some(t) ==> t.wf()),
        r is Err <==> dec_exact(Shape::Opt(Box::new(AmendmentUpdate::shape())), reply@) is None,
        r matches Err(e) ==> e == InvokeError::Decoding,
{
    let shape = Shape::Opt(Box::new(AmendmentUpdate::build_shape()));
    match decode(&shape, reply) {
        Result::Ok(v) => {
            let ghost vm = v@;
            proof {
                lemma_has_shape_opt(vm, AmendmentUpdate::shape());
            }
            match unopt(v) {
                Option::Some(inner) => match inner {
                    Option::None => Ok(None),
                    Option::Some(p) => match AmendmentUpdate::from_value(p) {
                        Option::Some(t) => Ok(Some(t)),
                        Option::None => {
                            proof {
                                assert(false);
                            }
                            Err(InvokeError::Decoding)
                        },
                    },
                },
                Option::None => {
                    proof {
                        assert(false);
                    }
                    Err(InvokeError::Decoding)
                },
            }
        },
        Result::Err(_) => Err(InvokeError::Decoding),
    }
}

/// Reads a reply carrying an optional `AssetUpdate` record; an absent value is a
/// successful reply, never a failure.
pub fn reply_opt_asset_update(reply: &Vec<u8>) -> (r: Result<Option<AssetUpdate>, InvokeError>)
    ensures
        r matches Ok(o) ==> dec_exact(Shape::Opt(Box::new(AssetUpdate::shape())), reply@) == Some(
            match o {
                Option::None => ValModel::OptNone,
                Option::Some(t) => ValModel::OptSome(Box::new(t.as_model())),
            },
        ) && (o matches Some(t) ==> t.wf()),
        r is Err <==> dec_exact(Shape::Opt(Box::new(AssetUpdate::shape())), reply@) is None,
        r matches Err(e) ==> e == InvokeError::Decoding,
{
    let shape = Shape::Opt(Box::new(AssetUpdate::build_shape()));
    match decode(&shape, reply) {
        Result::Ok(v) => {
            let ghost vm = v@;
            proof {
                lemma_has_shape_opt(vm, AssetUpdate::shape());
            }
            match unopt(v) {
                Option::Some(inner) => match inner {
                    Option::None => Ok(None),
                    Option::Some(p) => match AssetUpdate::from_value(p) {
                        Option::Some(t) => Ok(Some(t)),
                        Option::None => {
                            proof {
                                assert(false);
                            }
                            Err(InvokeError::Decoding)
                        },
                    },
                },
                Option::None => {
                    proof {
                        assert(false);
                    }
                    Err(InvokeError::Decoding)
                },
            }
        },
        Result::Err(_) => Err(InvokeError::Decoding),
    }
}

/// Reads a reply carrying an optional `BlacklistChanged` record; an absent value is a
/// successful reply, never a failure.
pub fn reply_opt_blacklist_changed(reply: &Vec<u8>) -> (r: Result<Option<BlacklistChanged>, InvokeError>)
    ensures
        r matches Ok(o) ==> dec_exact(Shape::Opt(Box::new(BlacklistChanged::shape())), reply@) == Some(
            match o {
                Option::None => ValModel::OptNone,
                Option::Some(t) => ValModel::OptSome(Box::new(t.as_model())),
            },
        ) && (o matches Some(t) ==> t.wf()),
        r is Err <==> dec_exact(Shape::Opt(Box::new(BlacklistChanged::shape())), reply@) is None,
        r matches Err(e) ==> e == InvokeError::Decoding,
{
    let shape = Shape::Opt(Box::new(BlacklistChanged::build_shape()));
    match decode(&shape, reply) {
        Result::Ok(v) => {
            let ghost vm = v@;
            proof {
                lemma_has_shape_opt(vm, BlacklistChanged::shape());
            }
            match unopt(v) {
                Option::Some(inner) => match inner {
                    Option::None => Ok(None),
                    Option::Some(p) => match BlacklistChanged::from_value(p) {
                        Option::Some(t) => Ok(Some(t)),
                        Option::None => {
                            proof {
                                assert(false);
                            }
                            Err(InvokeError::Decoding)
                        },
                    },
                },
                Option::None => {
                    proof {
                        assert(false);
                    }
                    Err(InvokeError::Decoding)
                },
            }
        },
        Result::Err(_) => Err(InvokeError::Decoding),
    }
}

/// Reads a reply carrying an optional `ControllerCreated` record; an absent value is a
/// successful reply, never a failure.
pub fn reply_opt_controller_created(reply: &Vec<u8>) -> (r: Result<Option<ControllerCreated>, InvokeError>)
    ensures
        r matches Ok(o) ==> dec_exact(Shape::Opt(Box::new(ControllerCreated::shape())), reply@) == Some(
            match o {
                Option::None => ValModel::OptNone,
                Option::Some(t) => ValModel::OptSome(Box::new(t.as_model())),
            },
        ) && (o matches Some(t) ==> t.wf()),
        r is Err <==> dec_exact(Shape::Opt(Box::new(ControllerCreated::shape())), reply@) is None,
        r matches Err(e) ==> e == InvokeError::Decoding,
{
    let shape = Shape::Opt(Box::new(ControllerCreated::build_shape()));
    match decode(&shape, reply) {
        Result::Ok(v) => {
            let ghost vm = v@;
            proof {
                lemma_has_shape_opt(vm, ControllerCreated::shape());
            }
            match unopt(v) {
                Option::Some(inner) => match inner {
                    Option::None => Ok(None),
                    Option::Some(p) => match ControllerCreated::from_value(p) {
                        Option::Some(t) => Ok(Some(t)),
                        Option::None => {
                            proof {
                                assert(false);
                            }
                            Err(InvokeError::Decoding)
                        },
                    },
                },
                Option::None => {
                    proof {
                        assert(false);
                    }
                    Err(InvokeError::Decoding)
                },
            }
        },
        Result::Err(_) => Err(InvokeError::Decoding),
    }
}

/// Reads a reply carrying an optional `LedgerAdded` record; an absent value is a
/// successful reply, never a failure.
pub fn reply_opt_ledger_added(reply: &Vec<u8>) -> (r: Result<Option<LedgerAdded>, InvokeError>)
    ensures
        r matches Ok(o) ==> dec_exact(Shape::Opt(Box::new(LedgerAdded::shape())), reply@) == Some(
            match o {
                Option::None => ValModel::OptNone,
                Option::Some(t) => ValModel::OptSome(Box::new(t.as_model())),
            },
        ) && (o matches Some(t) ==> t.wf()),
        r is Err <==> dec_exact(Shape::Opt(Box::new(LedgerAdded::shape())), reply@) is None,
        r matches Err(e) ==> e == InvokeError::Decoding,
{
    let shape = Shape::Opt(Box::new(LedgerAdded::build_shape()));
    match decode(&shape, reply) {
        Result::Ok(v) => {
            let ghost vm = v@;
            proof {
                lemma_has_shape_opt(vm, LedgerAdded::shape());
            }
            match unopt(v) {
                Option::Some(inner) => match inner {
                    Option::None => Ok(None),
                    Option::Some(p) => match LedgerAdded::from_value(p) {
                        Option::Some(t) => Ok(Some(t)),
                        Option::None => {
                            proof {
                                assert(false);
                            }
                            Err(InvokeError::Decoding)
                        },
                    },
                },
                Option::None => {
                    proof {
                        assert(false);
                    }
                    Err(InvokeError::Decoding)
                },
            }
        },
        Result::Err(_) => Err(InvokeError::Decoding),
    }
}

/// Reads a reply carrying an optional `LimitChanged` record; an absent value is a
/// successful reply, never a failure.
pub fn reply_opt_limit_changed(reply: &Vec<u8>) -> (r: Result<Option<LimitChanged>, InvokeError>)
    ensures
        r matches Ok(o) ==> dec_exact(Shape::Opt(Box::new(LimitChanged::shape())), reply@) == Some(
            match o {
                Option::None => ValModel::OptNone,
                Option::Some(t) => ValModel::OptSome(Box::new(t.as_model())),
            },
        ) && (o matches Some(t) ==> t.wf()),
        r is Err <==> dec_exact(Shape::Opt(Box::new(LimitChanged::shape())), reply@) is None,
        r matches Err(e) ==> e == InvokeError::Decoding,
{
    let shape = Shape::Opt(Box::new(LimitChanged::build_shape()));
    match decode(&shape, reply) {
        Result::Ok(v) => {
            let ghost vm = v@;
            proof {
                lemma_has_shape_opt(vm, LimitChanged::shape());
            }
            match unopt(v) {
                Option::Some(inner) => match inner {
                    Option::None => Ok(None),
                    Option::Some(p) => match LimitChanged::from_value(p) {
                        Option::Some(t) => Ok(Some(t)),
                        Option::None => {
                            proof {
                                assert(false);
                            }
                            Err(InvokeError::Decoding)
                        },
                    },
                },
                Option::None => {
                    proof {
                        assert(false);
                    }
                    Err(InvokeError::Decoding)
                },
            }
        },
        Result::Err(_) => Err(InvokeError::Decoding),
    }
}

/// Reads a reply carrying an optional `LimitConsumed` record; an absent value is a
/// successful reply, never a failure.
pub fn reply_opt_limit_consumed(reply: &Vec<u8>) -> (r: Result<Option<LimitConsumed>, InvokeError>)
    ensures
        r matches Ok(o) ==> dec_exact(Shape::Opt(Box::new(LimitConsumed::shape())), reply@) == Some(
            match o {
                Option::None => ValModel::OptNone,
                Option::Some(t) => ValModel::OptSome(Box::new(t.as_model())),
            },
        ) && (o matches Some(t) ==> t.wf()),
        r is Err <==> dec_exact(Shape::Opt(Box::new(LimitConsumed::shape())), reply@) is None,
        r matches Err(e) ==> e == InvokeError::Decoding,
{
    let shape = Shape::Opt(Box::new(LimitConsumed::build_shape()));
    match decode(&shape, reply) {
        Result::Ok(v) => {
            let ghost vm = v@;
            proof {
                lemma_has_shape_opt(vm, LimitConsumed::shape());
            }
            match unopt(v) {
                Option::Some(inner) => match inner {
                    Option::None => Ok(None),
                    Option::Some(p) => match LimitConsumed::from_value(p) {
                        Option::Some(t) => Ok(Some(t)),
                        Option::None => {
                            proof {
                                assert(false);
                            }
                            Err(InvokeError::Decoding)
                        },
                    },
                },
                Option::None => {
                    proof {
                        assert(false);
                    }
                    Err(InvokeError::Decoding)
                },
            }
        },
        Result::Err(_) => Err(InvokeError::Decoding),
    }
}

/// Reads a reply carrying an optional `OwnershipTransferred` record; an absent value is a
/// successful reply, never a failure.
pub fn reply_opt_ownership_transferred(reply: &Vec<u8>) -> (r: Result<Option<OwnershipTransferred>, InvokeError>)
    ensures
        r matches Ok(o) ==> dec_exact(Shape::Opt(Box::new(OwnershipTransferred::shape())), reply@) == Some(
            match o {
                Option::None => ValModel::OptNone,
                Option::Some(t) => ValModel::OptSome(Box::new(t.as_model())),
            },
        ) && (o matches Some(t) ==> t.wf()),
        r is Err <==> dec_exact(Shape::Opt(Box::new(OwnershipTransferred::shape())), reply@) is None,
        r matches Err(e) ==> e == InvokeError::Decoding,
{
    let shape = Shape::Opt(Box::new(OwnershipTransferred::build_shape()));
    match decode(&shape, reply) {
        Result::Ok(v) => {
            let ghost vm = v@;
            proof {
                lemma_has_shape_opt(vm, OwnershipTransferred::shape());
            }
            match unopt(v) {
                Option::Some(inner) => match inner {
                    Option::None => Ok(None),
                    Option::Some(p) => match OwnershipTransferred::from_value(p) {
                        Option::Some(t) => Ok(Some(t)),
                        Option::None => {
                            proof {
                                assert(false);
                            }
                            Err(InvokeError::Decoding)
                        },
                    },
                },
                Option::None => {
                    proof {
                        assert(false);
                    }
                    Err(InvokeError::Decoding)
                },
            }
        },
        Result::Err(_) => Err(InvokeError::Decoding),
    }
}

/// Reads a reply carrying an optional `PauseChanged` record; an absent value is a
/// successful reply, never a failure.
pub fn reply_opt_pause_changed(reply: &Vec<u8>) -> (r: Result<Option<PauseChanged>, InvokeError>)
    ensures
        r matches Ok(o) ==> dec_exact(Shape::Opt(Box::new(PauseChanged::shape())), reply@) == Some(
            match o {
                Option::None => ValModel::OptNone,
                Option::Some(t) => ValModel::OptSome(Box::new(t.as_model())),
            },
        ) && (o matches Some(t) ==> t.wf()),
        r is Err <==> dec_exact(Shape::Opt(Box::new(PauseChanged::shape())), reply@) is None,
        r matches Err(e) ==> e == InvokeError::Decoding,
{
    let shape = Shape::Opt(Box::new(PauseChanged::build_shape()));
    match decode(&shape, reply) {
        Result::Ok(v) => {
            let ghost vm = v@;
            proof {
                lemma_has_shape_opt(vm, PauseChanged::shape());
            }
            match unopt(v) {
                Option::Some(inner) => match inner {
                    Option::None => Ok(None),
                    Option::Some(p) => match PauseChanged::from_value(p) {
                        Option::Some(t) => Ok(Some(t)),
                        Option::None => {
                            proof {
                                assert(false);
                            }
                            Err(InvokeError::Decoding)
                        },
                    },
                },
                Option::None => {
                    proof {
                        assert(false);
                    }
                    Err(InvokeError::Decoding)
                },
            }
        },
        Result::Err(_) => Err(InvokeError::Decoding),
    }
}

/// Reads a reply carrying an optional `PricingChanged` record; an absent value is a
/// successful reply, never a failure.
pub fn reply_opt_pricing_changed(reply: &Vec<u8>) -> (r: Result<Option<PricingChanged>, InvokeError>)
    ensures
        r matches Ok(o) ==> dec_exact(Shape::Opt(Box::new(PricingChanged::shape())), reply@) == Some(
            match o {
                Option::None => ValModel::OptNone,
                Option::Some(t) => ValModel::OptSome(Box::new(t.as_model())),
            },
        ) && (o matches Some(t) ==> t.wf()),
        r is Err <==> dec_exact(Shape::Opt(Box::new(PricingChanged::shape())), reply@) is None,
        r matches Err(e) ==> e == InvokeError::Decoding,
{
    let shape = Shape::Opt(Box::new(PricingChanged::build_shape()));
    match decode(&shape, reply) {
        Result::Ok(v) => {
            let ghost vm = v@;
            proof {
                lemma_has_shape_opt(vm, PricingChanged::shape());
            }
            match unopt(v) {
                Option::Some(inner) => match inner {
                    Option::None => Ok(None),
                    Option::Some(p) => match PricingChanged::from_value(p) {
                        Option::Some(t) => Ok(Some(t)),
                        Option::None => {
                            proof {
                                assert(false);
                            }
                            Err(InvokeError::Decoding)
                        },
                    },
                },
                Option::None => {
                    proof {
                        assert(false);
                    }
                    Err(InvokeError::Decoding)
                },
            }
        },
        Result::Err(_) => Err(InvokeError::Decoding),
    }
}

/// Reads a reply carrying an optional `SupplyUpdate` record; an absent value is a
/// successful reply, never a failure.
pub fn reply_opt_supply_update(reply: &Vec<u8>) -> (r: Result<Option<SupplyUpdate>, InvokeError>)
    ensures
        r matches Ok(o) ==> dec_exact(Shape::Opt(Box::new(SupplyUpdate::shape())), reply@) == Some(
            match o {
                Option::None => ValModel::OptNone,
                Option::Some(t) => ValModel::OptSome(Box::new(t.as_model())),
            },
        ) && (o matches Some(t) ==> t.wf()),
        r is Err <==> dec_exact(Shape::Opt(Box::new(SupplyUpdate::shape())), reply@) is None,
        r matches Err(e) ==> e == InvokeError::Decoding,
{
    let shape = Shape::Opt(Box::new(SupplyUpdate::build_shape()));
    match decode(&shape, reply) {
        Result::Ok(v) => {
            let ghost vm = v@;
            proof {
                lemma_has_shape_opt(vm, SupplyUpdate::shape());
            }
            match unopt(v) {
                Option::Some(inner) => match inner {
                    Option::None => Ok(None),
                    Option::Some(p) => match SupplyUpdate::from_value(p) {
                        Option::Some(t) => Ok(Some(t)),
                        Option::None => {
                            proof {
                                assert(false);
                            }
                            Err(InvokeError::Decoding)
                        },
                    },
                },
                Option::None => {
                    proof {
                        assert(false);
                    }
                    Err(InvokeError::Decoding)
                },
            }
        },
        Result::Err(_) => Err(InvokeError::Decoding),
    }
}

/// Reads a reply carrying an optional `TokensCreated` record; an absent value is a
/// successful reply, never a failure.
pub fn reply_opt_tokens_created(reply: &Vec<u8>) -> (r: Result<Option<TokensCreated>, InvokeError>)
    ensures
        r matches Ok(o) ==> dec_exact(Shape::Opt(Box::new(TokensCreated::shape())), reply@) == Some(
            match o {
                Option::None => ValModel::OptNone,
                Option::Some(t) => ValModel::OptSome(Box::new(t.as_model())),
            },
        ) && (o matches Some(t) ==> t.wf()),
        r is Err <==> dec_exact(Shape::Opt(Box::new(TokensCreated::shape())), reply@) is None,
        r matches Err(e) ==> e == InvokeError::Decoding,
{
    let shape = Shape::Opt(Box::new(TokensCreated::build_shape()));
    match decode(&shape, reply) {
        Result::Ok(v) => {
            let ghost vm = v@;
            proof {
                lemma_has_shape_opt(vm, TokensCreated::shape());
            }
            match unopt(v) {
                Option::Some(inner) => match inner {
                    Option::None => Ok(None),
                    Option::Some(p) => match TokensCreated::from_value(p) {
                        Option::Some(t) => Ok(Some(t)),
                        Option::None => {
                            proof {
                                assert(false);
                            }
                            Err(InvokeError::Decoding)
                        },
                    },
                },
                Option::None => {
                    proof {
                        assert(false);
                    }
                    Err(InvokeError::Decoding)
                },
            }
        },
        Result::Err(_) => Err(InvokeError::Decoding),
    }
}

/// Reads a reply carrying an optional `TokensDestroyed` record; an absent value is a
/// successful reply, never a failure.
pub fn reply_opt_tokens_destroyed(reply: &Vec<u8>) -> (r: Result<Option<TokensDestroyed>, InvokeError>)
    ensures
        r matches Ok(o) ==> dec_exact(Shape::Opt(Box::new(TokensDestroyed::shape())), reply@) == Some(
            match o {
                Option::None => ValModel::OptNone,
                Option::Some(t) => ValModel::OptSome(Box::new(t.as_model())),
            },
        ) && (o matches Some(t) ==> t.wf()),
        r is Err <==> dec_exact(Shape::Opt(Box::new(TokensDestroyed::shape())), reply@) is None,
        r matches Err(e) ==> e == InvokeError::Decoding,
{
    let shape = Shape::Opt(Box::new(TokensDestroyed::build_shape()));
    match decode(&shape, reply) {
        Result::Ok(v) => {
            let ghost vm = v@;
            proof {
                lemma_has_shape_opt(vm, TokensDestroyed::shape());
            }
            match unopt(v) {
                Option::Some(inner) => match inner {
                    Option::None => Ok(None),
                    Option::Some(p) => match TokensDestroyed::from_value(p) {
                        Option::Some(t) => Ok(Some(t)),
                        Option::None => {
                            proof {
                                assert(false);
                            }
                            Err(InvokeError::Decoding)
                        },
                    },
                },
                Option::None => {
                    proof {
                        assert(false);
                    }
                    Err(InvokeError::Decoding)
                },
            }
        },
        Result::Err(_) => Err(InvokeError::Decoding),
    }
}

/// Reads a reply carrying an optional `Amendment` record; an absent value is a
/// successful reply, never a failure.
pub fn reply_opt_amendment(reply: &Vec<u8>) -> (r: Result<Option<Amendment>, InvokeError>)
    ensures
        r matches Ok(o) ==> dec_exact(Shape::Opt(Box::new(Amendment::shape())), reply@) == Some(
            match o {
                Option::None => ValModel::OptNone,
                Option::Some(t) => ValModel::OptSome(Box::new(t.as_model())),
            },
        ) && (o matches Some(t) ==> t.wf()),
        r is Err <==> dec_exact(Shape::Opt(Box::new(Amendment::shape())), reply@) is None,
        r matches Err(e) ==> e == InvokeError::Decoding,
{
    let shape = Shape::Opt(Box::new(Amendment::build_shape()));
    match decode(&shape, reply) {
        Result::Ok(v) => {
            let ghost vm = v@;
            proof {
                lemma_has_shape_opt(vm, Amendment::shape());
            }
            match unopt(v) {
                Option::Some(inner) => match inner {
                    Option::None => Ok(None),
                    Option::Some(p) => match Amendment::from_value(p) {
                        Option::Some(t) => Ok(Some(t)),
                        Option::None => {
                            proof {
                                assert(false);
                            }
                            Err(InvokeError::Decoding)
                        },
                    },
                },
                Option::None => {
                    proof {
                        assert(false);
                    }
                    Err(InvokeError::Decoding)
                },
            }
        },
        Result::Err(_) => Err(InvokeError::Decoding),
    }
}

/// Reads a reply carrying an optional `Asset` record; an absent value is a
/// successful reply, never a failure.
pub fn reply_opt_asset(reply: &Vec<u8>) -> (r: Result<Option<Asset>, InvokeError>)
    ensures
        r matches Ok(o) ==> dec_exact(Shape::Opt(Box::new(Asset::shape())), reply@) == Some(
            match o {
                Option::None => ValModel::OptNone,
                Option::Some(t) => ValModel::OptSome(Box::new(t.as_model())),
            },
        ) && (o matches Some(t) ==> t.wf()),
        r is Err <==> dec_exact(Shape::Opt(Box::new(Asset::shape())), reply@) is None,
        r matches Err(e) ==> e == InvokeError::Decoding,
{
    let shape = Shape::Opt(Box::new(Asset::build_shape()));
    match decode(&shape, reply) {
        Result::Ok(v) => {
            let ghost vm = v@;
            proof {
                lemma_has_shape_opt(vm, Asset::shape());
            }
            match unopt(v) {
                Option::Some(inner) => match inner {
                    Option::None => Ok(None),
                    Option::Some(p) => match Asset::from_value(p) {
                        Option::Some(t) => Ok(Some(t)),
                        Option::None => {
                            proof {
                                assert(false);
                            }
                            Err(InvokeError::Decoding)
                        },
                    },
                },
                Option::None => {
                    proof {
                        assert(false);
                    }
                    Err(InvokeError::Decoding)
                },
            }
        },
        Result::Err(_) => Err(InvokeError::Decoding),
    }
}

/// Reads a reply carrying an optional `Supply` record; an absent value is a
/// successful reply, never a failure.
pub fn reply_opt_supply(reply: &Vec<u8>) -> (r: Result<Option<Supply>, InvokeError>)
    ensures
        r matches Ok(o) ==> dec_exact(Shape::Opt(Box::new(Supply::shape())), reply@) == Some(
            match o {
                Option::None => ValModel::OptNone,
                Option::Some(t) => ValModel::OptSome(Box::new(t.as_model())),
            },
        ) && (o matches Some(t) ==> t.wf()),
        r is Err <==> dec_exact(Shape::Opt(Box::new(Supply::shape())), reply@) is None,
        r matches Err(e) ==> e == InvokeError::Decoding,
{
    let shape = Shape::Opt(Box::new(Supply::build_shape()));
    match decode(&shape, reply) {
        Result::Ok(v) => {
            let ghost vm = v@;
            proof {
                lemma_has_shape_opt(vm, Supply::shape());
            }
            match unopt(v) {
                Option::Some(inner) => match inner {
                    Option::None => Ok(None),
                    Option::Some(p) => match Supply::from_value(p) {
                        Option::Some(t) => Ok(Some(t)),
                        Option::None => {
                            proof {
                                assert(false);
                            }
                            Err(InvokeError::Decoding)
                        },
                    },
                },
                Option::None => {
                    proof {
                        assert(false);
                    }
                    Err(InvokeError::Decoding)
                },
            }
        },
        Result::Err(_) => Err(InvokeError::Decoding),
    }
}

/// Reads a reply carrying an optional `Transaction` record; an absent value is a
/// successful reply, never a failure.
pub fn reply_opt_transaction(reply: &Vec<u8>) -> (r: Result<Option<Transaction>, InvokeError>)
    ensures
        r matches Ok(o) ==> dec_exact(Shape::Opt(Box::new(Transaction::shape())), reply@) == Some(
            match o {
                Option::None => ValModel::OptNone,
                Option::Some(t) => ValModel::OptSome(Box::new(t.as_model())),
            },
        ) && (o matches Some(t) ==> t.wf()),
        r is Err <==> dec_exact(Shape::Opt(Box::new(Transaction::shape())), reply@) is None,
        r matches Err(e) ==> e == InvokeError::Decoding,
{
    let shape = Shape::Opt(Box::new(Transaction::build_shape()));
    match decode(&shape, reply) {
        Result::Ok(v) => {
            let ghost vm = v@;
            proof {
                lemma_has_shape_opt(vm, Transaction::shape());
            }
            match unopt(v) {
                Option::Some(inner) => match inner {
                    Option::None => Ok(None),
                    Option::Some(p) => match Transaction::from_value(p) {
                        Option::Some(t) => Ok(Some(t)),
                        Option::None => {
                            proof {
                                assert(false);
                            }
                            Err(InvokeError::Decoding)
                        },
                    },
                },
                Option::None => {
                    proof {
                        assert(false);
                    }
                    Err(InvokeError::Decoding)
                },
            }
        },
        Result::Err(_) => Err(InvokeError::Decoding),
    }
}

} // verus!
