//! The schema catalog: the full set of remote methods, each with its wire
//! name, channel, request shape and response shape. Entries never change
//! after startup; a method's channel is a static property agreed with the
//! remote schema, never negotiated per call.
//!
//! Two catalog notes carried over from the remote schema as it stands:
//! the array form of the address removal dispatches the same wire name as
//! its singular form, while the array form of the blacklist removal has a
//! wire name of its own. The remote schema is authoritative on whether
//! that asymmetry is intended; the catalog reproduces it faithfully.

use vstd::prelude::*;
use crate::shape::{Shape, ShapeList, sl1, sl2, sl3, sl4, sl5, spec_sl1, spec_sl2, spec_sl3, spec_sl4, spec_sl5};
use crate::invoker::{Channel, MethodDescriptor};
use crate::domain::{
    Response,
    ResponseSupplyId,
    ResponseAmendmentId,
    ResponseContractId,
    AccountUpdate,
    AdministratorChanged,
    AmendmentUpdate,
    AssetUpdate,
    BlacklistChanged,
    ControllerCreated,
    LedgerAdded,
    LimitChanged,
    LimitConsumed,
    OwnershipTransferred,
    PauseChanged,
    PricingChanged,
    SupplyUpdate,
    TokensCreated,
    TokensDestroyed,
    Amendment,
    Asset,
    Supply,
    Transaction,
    CreateSupplyRequest,
    RunWarpRequest,
};

verus! {

/// One remote method of the catalog.
#[derive(Clone, Copy, PartialEq, Eq, Structural, Debug)]
pub enum Method {
    CtrGetConsumeSupply,
    CtrGetMakeSupply,
    CtrGetSend,
    CtrRemoveAddress,
    CtrRemoveAddressArray,
    CtrRemoveBlacklist,
    CtrRemoveBlacklistArray,
    CtrSetBlacklist,
    CtrSetBlacklistArray,
    CtrSetLimit,
    CtrSetLimitArray,
    CtrValidateUsageController,
    EventAccountUpdateCount,
    EventAccountUpdateGet,
    EventAdministratorChangedCount,
    EventAdministratorChangedGet,
    EventAmendmentUpdateCount,
    EventAmendmentUpdateGet,
    EventAssetUpdateCount,
    EventAssetUpdateGet,
    EventBlacklistChangedCount,
    EventBlacklistChangedGet,
    EventControllerCreatedCount,
    EventControllerCreatedGet,
    EventLedgerAddedCount,
    EventLedgerAddedGet,
    EventLimitChangedCount,
    EventLimitChangedGet,
    EventLimitConsumedCount,
    EventLimitConsumedGet,
    EventOwnershipTransferredCount,
    EventOwnershipTransferredGet,
    EventPauseChangedCount,
    EventPauseChangedGet,
    EventPricingChangedCount,
    EventPricingChangedGet,
    EventSupplyUpdateCount,
    EventSupplyUpdateGet,
    EventTokensCreatedCount,
    EventTokensCreatedGet,
    EventTokensDestroyedCount,
    EventTokensDestroyedGet,
    GetTx,
    IntCreateSupply,
    IntGetBalance,
    IntGetDecimalPtr,
    IntGetLedgerId,
    IntGetLedgerContractId,
    IntGetSupply,
    IntGetTokens,
    IntRunWarp,
    IntSetContract,
    IntSetPrice,
    IntSetSupplyController,
    IntTerminateSupply,
    IntTransferTokens,
    IntUpdateSupplyAmount,
    IntUpdateSupplyExchangeRate,
    IntUpdateSupplyExpiryDate,
    LedAmenChangeIssuer,
    LedAmenCreateAmendment,
    LedAmenGetAmendment,
    LedBaseActivateAsset,
    LedBaseCreateAsset,
    LedBaseDestroyTokens,
    LedBaseGetAsset,
    LedBaseIssueTokens,
    LedKycRemoveUsageController,
    LedKycSetUsageController,
    MngContractDeploymentCode,
    MngContractName,
    MngContractVersion,
    MngCreateClmp,
    MngCreateController,
    MngCreateIntegration,
    MngGrantAdmin,
    MngGetIntegration,
    MngIsAdmin,
    MngIsOwner,
    MngOwner,
    MngPause,
    MngPaused,
    MngRenounceOwnership,
    MngRevokeAdmin,
    MngTransferOwnership,
    MngUnpause,
}

/// The wire name a method dispatches under.
pub open spec fn method_name(m: Method) -> Seq<char> {
    match m {
        Method::CtrGetConsumeSupply => "ctr_get_consume_supply"@,
        Method::CtrGetMakeSupply => "ctr_get_make_supply"@,
        Method::CtrGetSend => "ctr_get_send"@,
        Method::CtrRemoveAddress => "ctr_remove_address"@,
        Method::CtrRemoveAddressArray => "ctr_remove_address"@,
        Method::CtrRemoveBlacklist => "ctr_remove_blacklist"@,
        Method::CtrRemoveBlacklistArray => "ctr_remove_blacklist_array"@,
        Method::CtrSetBlacklist => "ctr_set_blacklist"@,
        Method::CtrSetBlacklistArray => "ctr_set_blacklist_array"@,
        Method::CtrSetLimit => "ctr_set_limit"@,
        Method::CtrSetLimitArray => "ctr_set_limit_array"@,
        Method::CtrValidateUsageController => "ctr_validate_usage_controller"@,
        Method::EventAccountUpdateCount => "event_account_update_count"@,
        Method::EventAccountUpdateGet => "event_account_update_get"@,
        Method::EventAdministratorChangedCount => "event_administrator_changed_count"@,
        Method::EventAdministratorChangedGet => "event_administrator_changed_get"@,
        Method::EventAmendmentUpdateCount => "event_amendment_update_count"@,
        Method::EventAmendmentUpdateGet => "event_amendment_update_get"@,
        Method::EventAssetUpdateCount => "event_asset_update_count"@,
        Method::EventAssetUpdateGet => "event_asset_update_get"@,
        Method::EventBlacklistChangedCount => "event_blacklist_changed_count"@,
        Method::EventBlacklistChangedGet => "event_blacklist_changed_get"@,
        Method::EventControllerCreatedCount => "event_controller_created_count"@,
        Method::EventControllerCreatedGet => "event_controller_created_get"@,
        Method::EventLedgerAddedCount => "event_ledger_added_count"@,
        Method::EventLedgerAddedGet => "event_ledger_added_get"@,
        Method::EventLimitChangedCount => "event_limit_changed_count"@,
        Method::EventLimitChangedGet => "event_limit_changed_get"@,
        Method::EventLimitConsumedCount => "event_limit_consumed_count"@,
        Method::EventLimitConsumedGet => "event_limit_consumed_get"@,
        Method::EventOwnershipTransferredCount => "event_ownership_transferred_count"@,
        Method::EventOwnershipTransferredGet => "event_ownership_transferred_get"@,
        Method::EventPauseChangedCount => "event_pause_changed_count"@,
        Method::EventPauseChangedGet => "event_pause_changed_get"@,
        Method::EventPricingChangedCount => "event_pricing_changed_count"@,
        Method::EventPricingChangedGet => "event_pricing_changed_get"@,
        Method::EventSupplyUpdateCount => "event_supply_update_count"@,
        Method::EventSupplyUpdateGet => "event_supply_update_get"@,
        Method::EventTokensCreatedCount => "event_tokens_created_count"@,
        Method::EventTokensCreatedGet => "event_tokens_created_get"@,
        Method::EventTokensDestroyedCount => "event_tokens_destroyed_count"@,
        Method::EventTokensDestroyedGet => "event_tokens_destroyed_get"@,
        Method::GetTx => "get_tx"@,
        Method::IntCreateSupply => "int_create_supply"@,
        Method::IntGetBalance => "int_get_balance"@,
        Method::IntGetDecimalPtr => "int_get_decimal_ptr"@,
        Method::IntGetLedgerId => "int_get_ledger_id"@,
        Method::IntGetLedgerContractId => "int_get_ledger_contract_id"@,
        Method::IntGetSupply => "int_get_supply"@,
        Method::IntGetTokens => "int_get_tokens"@,
        Method::IntRunWarp => "int_run_warp"@,
        Method::IntSetContract => "int_set_contract"@,
        Method::IntSetPrice => "int_set_price"@,
        Method::IntSetSupplyController => "int_set_supply_controller"@,
        Method::IntTerminateSupply => "int_terminate_supply"@,
        Method::IntTransferTokens => "int_transfer_tokens"@,
        Method::IntUpdateSupplyAmount => "int_update_supply_amount"@,
        Method::IntUpdateSupplyExchangeRate => "int_update_supply_exchange_rate"@,
        Method::IntUpdateSupplyExpiryDate => "int_update_supply_expiry_date"@,
        Method::LedAmenChangeIssuer => "led_amen_change_issuer"@,
        Method::LedAmenCreateAmendment => "led_amen_create_amendment"@,
        Method::LedAmenGetAmendment => "led_amen_get_amendment"@,
        Method::LedBaseActivateAsset => "led_base_activate_asset"@,
        Method::LedBaseCreateAsset => "led_base_create_asset"@,
        Method::LedBaseDestroyTokens => "led_base_destroy_tokens"@,
        Method::LedBaseGetAsset => "led_base_get_asset"@,
        Method::LedBaseIssueTokens => "led_base_issue_tokens"@,
        Method::LedKycRemoveUsageController => "led_kyc_remove_usage_controller"@,
        Method::LedKycSetUsageController => "led_kyc_set_usage_controller"@,
        Method::MngContractDeploymentCode => "mng_contract_deployment_code"@,
        Method::MngContractName => "mng_contract_name"@,
        Method::MngContractVersion => "mng_contract_version"@,
        Method::MngCreateClmp => "mng_create_clmp"@,
        Method::MngCreateController => "mng_create_controller"@,
        Method::MngCreateIntegration => "mng_create_integration"@,
        Method::MngGrantAdmin => "mng_grant_admin"@,
        Method::MngGetIntegration => "mng_get_integration"@,
        Method::MngIsAdmin => "mng_is_admin"@,
        Method::MngIsOwner => "mng_is_owner"@,
        Method::MngOwner => "mng_owner"@,
        Method::MngPause => "mng_pause"@,
        Method::MngPaused => "mng_paused"@,
        Method::MngRenounceOwnership => "mng_renounce_ownership"@,
        Method::MngRevokeAdmin => "mng_revoke_admin"@,
        Method::MngTransferOwnership => "mng_transfer_ownership"@,
        Method::MngUnpause => "mng_unpause"@,
    }
}

/// The channel a method is served on.
pub open spec fn channel_of(m: Method) -> Channel {
    match m {
        Method::CtrGetConsumeSupply => Channel::Query,
        Method::CtrGetMakeSupply => Channel::Query,
        Method::CtrGetSend => Channel::Query,
        Method::CtrRemoveAddress => Channel::Update,
        Method::CtrRemoveAddressArray => Channel::Update,
        Method::CtrRemoveBlacklist => Channel::Update,
        Method::CtrRemoveBlacklistArray => Channel::Update,
        Method::CtrSetBlacklist => Channel::Update,
        Method::CtrSetBlacklistArray => Channel::Update,
        Method::CtrSetLimit => Channel::Update,
        Method::CtrSetLimitArray => Channel::Update,
        Method::CtrValidateUsageController => Channel::Query,
        Method::EventAccountUpdateCount => Channel::Query,
        Method::EventAccountUpdateGet => Channel::Query,
        Method::EventAdministratorChangedCount => Channel::Query,
        Method::EventAdministratorChangedGet => Channel::Query,
        Method::EventAmendmentUpdateCount => Channel::Query,
        Method::EventAmendmentUpdateGet => Channel::Query,
        Method::EventAssetUpdateCount => Channel::Query,
        Method::EventAssetUpdateGet => Channel::Query,
        Method::EventBlacklistChangedCount => Channel::Query,
        Method::EventBlacklistChangedGet => Channel::Query,
        Method::EventControllerCreatedCount => Channel::Query,
        Method::EventControllerCreatedGet => Channel::Query,
        Method::EventLedgerAddedCount => Channel::Query,
        Method::EventLedgerAddedGet => Channel::Query,
        Method::EventLimitChangedCount => Channel::Query,
        Method::EventLimitChangedGet => Channel::Query,
        Method::EventLimitConsumedCount => Channel::Query,
        Method::EventLimitConsumedGet => Channel::Query,
        Method::EventOwnershipTransferredCount => Channel::Query,
        Method::EventOwnershipTransferredGet => Channel::Query,
        Method::EventPauseChangedCount => Channel::Query,
        Method::EventPauseChangedGet => Channel::Query,
        Method::EventPricingChangedCount => Channel::Query,
        Method::EventPricingChangedGet => Channel::Query,
        Method::EventSupplyUpdateCount => Channel::Query,
        Method::EventSupplyUpdateGet => Channel::Query,
        Method::EventTokensCreatedCount => Channel::Query,
        Method::EventTokensCreatedGet => Channel::Query,
        Method::EventTokensDestroyedCount => Channel::Query,
        Method::EventTokensDestroyedGet => Channel::Query,
        Method::GetTx => Channel::Query,
        Method::IntCreateSupply => Channel::Update,
        Method::IntGetBalance => Channel::Query,
        Method::IntGetDecimalPtr => Channel::Query,
        Method::IntGetLedgerId => Channel::Query,
        Method::IntGetLedgerContractId => Channel::Query,
        Method::IntGetSupply => Channel::Query,
        Method::IntGetTokens => Channel::Query,
        Method::IntRunWarp => Channel::Update,
        Method::IntSetContract => Channel::Update,
        Method::IntSetPrice => Channel::Update,
        Method::IntSetSupplyController => Channel::Update,
        Method::IntTerminateSupply => Channel::Update,
        Method::IntTransferTokens => Channel::Update,
        Method::IntUpdateSupplyAmount => Channel::Update,
        Method::IntUpdateSupplyExchangeRate => Channel::Update,
        Method::IntUpdateSupplyExpiryDate => Channel::Update,
        Method::LedAmenChangeIssuer => Channel::Update,
        Method::LedAmenCreateAmendment => Channel::Update,
        Method::LedAmenGetAmendment => Channel::Query,
        Method::LedBaseActivateAsset => Channel::Update,
        Method::LedBaseCreateAsset => Channel::Update,
        Method::LedBaseDestroyTokens => Channel::Update,
        Method::LedBaseGetAsset => Channel::Query,
        Method::LedBaseIssueTokens => Channel::Update,
        Method::LedKycRemoveUsageController => Channel::Update,
        Method::LedKycSetUsageController => Channel::Update,
        Method::MngContractDeploymentCode => Channel::Query,
        Method::MngContractName => Channel::Query,
        Method::MngContractVersion => Channel::Query,
        Method::MngCreateClmp => Channel::Update,
        Method::MngCreateController => Channel::Update,
        Method::MngCreateIntegration => Channel::Update,
        Method::MngGrantAdmin => Channel::Query,
        Method::MngGetIntegration => Channel::Query,
        Method::MngIsAdmin => Channel::Query,
        Method::MngIsOwner => Channel::Query,
        Method::MngOwner => Channel::Query,
        Method::MngPause => Channel::Update,
        Method::MngPaused => Channel::Query,
        Method::MngRenounceOwnership => Channel::Update,
        Method::MngRevokeAdmin => Channel::Update,
        Method::MngTransferOwnership => Channel::Update,
        Method::MngUnpause => Channel::Update,
    }
}

/// The shape of a method's argument tuple.
pub open spec fn request_shape(m: Method) -> Shape {
    match m {
        Method::CtrGetConsumeSupply => Shape::Tuple(Box::new(spec_sl4(Shape::Nat, Shape::Address, Shape::Nat, Shape::Nat))),
        Method::CtrGetMakeSupply => Shape::Tuple(Box::new(spec_sl5(Shape::Nat, Shape::Address, Shape::Nat, Shape::Nat, Shape::Nat))),
        Method::CtrGetSend => Shape::Tuple(Box::new(spec_sl4(Shape::Nat, Shape::Opt(Box::new(Shape::Address)), Shape::Opt(Box::new(Shape::Address)), Shape::Nat))),
        Method::CtrRemoveAddress => Shape::Tuple(Box::new(spec_sl2(Shape::Nat, Shape::Address))),
        Method::CtrRemoveAddressArray => Shape::Tuple(Box::new(spec_sl2(Shape::Nat, Shape::List(Box::new(Shape::Address))))),
        Method::CtrRemoveBlacklist => Shape::Tuple(Box::new(spec_sl2(Shape::Nat, Shape::Address))),
        Method::CtrRemoveBlacklistArray => Shape::Tuple(Box::new(spec_sl2(Shape::Nat, Shape::List(Box::new(Shape::Address))))),
        Method::CtrSetBlacklist => Shape::Tuple(Box::new(spec_sl3(Shape::Nat, Shape::Address, Shape::N8))),
        Method::CtrSetBlacklistArray => Shape::Tuple(Box::new(spec_sl3(Shape::Nat, Shape::List(Box::new(Shape::Address)), Shape::List(Box::new(Shape::N8))))),
        Method::CtrSetLimit => Shape::Tuple(Box::new(spec_sl3(Shape::Nat, Shape::Address, Shape::Nat))),
        Method::CtrSetLimitArray => Shape::Tuple(Box::new(spec_sl3(Shape::Nat, Shape::List(Box::new(Shape::Address)), Shape::List(Box::new(Shape::Nat))))),
        Method::CtrValidateUsageController => Shape::Tuple(Box::new(spec_sl1(Shape::Opt(Box::new(Shape::Nat))))),
        Method::EventAccountUpdateCount => Shape::Tuple(Box::new(ShapeList::Nil)),
        Method::EventAccountUpdateGet => Shape::Tuple(Box::new(spec_sl1(Shape::N64))),
        Method::EventAdministratorChangedCount => Shape::Tuple(Box::new(spec_sl1(Shape::Nat))),
        Method::EventAdministratorChangedGet => Shape::Tuple(Box::new(spec_sl2(Shape::Nat, Shape::N64))),
        Method::EventAmendmentUpdateCount => Shape::Tuple(Box::new(spec_sl1(Shape::N16))),
        Method::EventAmendmentUpdateGet => Shape::Tuple(Box::new(spec_sl2(Shape::N16, Shape::N64))),
        Method::EventAssetUpdateCount => Shape::Tuple(Box::new(spec_sl1(Shape::N16))),
        Method::EventAssetUpdateGet => Shape::Tuple(Box::new(spec_sl2(Shape::N16, Shape::N64))),
        Method::EventBlacklistChangedCount => Shape::Tuple(Box::new(spec_sl1(Shape::Nat))),
        Method::EventBlacklistChangedGet => Shape::Tuple(Box::new(spec_sl2(Shape::Nat, Shape::N64))),
        Method::EventControllerCreatedCount => Shape::Tuple(Box::new(ShapeList::Nil)),
        Method::EventControllerCreatedGet => Shape::Tuple(Box::new(spec_sl1(Shape::N64))),
        Method::EventLedgerAddedCount => Shape::Tuple(Box::new(ShapeList::Nil)),
        Method::EventLedgerAddedGet => Shape::Tuple(Box::new(spec_sl1(Shape::N64))),
        Method::EventLimitChangedCount => Shape::Tuple(Box::new(spec_sl1(Shape::Nat))),
        Method::EventLimitChangedGet => Shape::Tuple(Box::new(spec_sl2(Shape::Nat, Shape::N64))),
        Method::EventLimitConsumedCount => Shape::Tuple(Box::new(spec_sl1(Shape::Nat))),
        Method::EventLimitConsumedGet => Shape::Tuple(Box::new(spec_sl2(Shape::Nat, Shape::N64))),
        Method::EventOwnershipTransferredCount => Shape::Tuple(Box::new(spec_sl1(Shape::Nat))),
        Method::EventOwnershipTransferredGet => Shape::Tuple(Box::new(spec_sl2(Shape::Nat, Shape::N64))),
        Method::EventPauseChangedCount => Shape::Tuple(Box::new(spec_sl1(Shape::Nat))),
        Method::EventPauseChangedGet => Shape::Tuple(Box::new(spec_sl2(Shape::Nat, Shape::N64))),
        Method::EventPricingChangedCount => Shape::Tuple(Box::new(ShapeList::Nil)),
        Method::EventPricingChangedGet => Shape::Tuple(Box::new(spec_sl1(Shape::N64))),
        Method::EventSupplyUpdateCount => Shape::Tuple(Box::new(ShapeList::Nil)),
        Method::EventSupplyUpdateGet => Shape::Tuple(Box::new(spec_sl1(Shape::N64))),
        Method::EventTokensCreatedCount => Shape::Tuple(Box::new(ShapeList::Nil)),
        Method::EventTokensCreatedGet => Shape::Tuple(Box::new(spec_sl1(Shape::N64))),
        Method::EventTokensDestroyedCount => Shape::Tuple(Box::new(ShapeList::Nil)),
        Method::EventTokensDestroyedGet => Shape::Tuple(Box::new(spec_sl1(Shape::N64))),
        Method::GetTx => Shape::Tuple(Box::new(spec_sl1(Shape::Nat))),
        Method::IntCreateSupply => Shape::Tuple(Box::new(spec_sl1(CreateSupplyRequest::shape()))),
        Method::IntGetBalance => Shape::Tuple(Box::new(spec_sl2(Shape::Nat, Shape::Address))),
        Method::IntGetDecimalPtr => Shape::Tuple(Box::new(ShapeList::Nil)),
        Method::IntGetLedgerId => Shape::Tuple(Box::new(spec_sl1(Shape::Nat))),
        Method::IntGetLedgerContractId => Shape::Tuple(Box::new(spec_sl1(Shape::N16))),
        Method::IntGetSupply => Shape::Tuple(Box::new(spec_sl1(Shape::Nat))),
        Method::IntGetTokens => Shape::Tuple(Box::new(spec_sl2(Shape::Nat, Shape::Nat))),
        Method::IntRunWarp => Shape::Tuple(Box::new(spec_sl1(RunWarpRequest::shape()))),
        Method::IntSetContract => Shape::Tuple(Box::new(spec_sl2(Shape::Nat, Shape::N16))),
        Method::IntSetPrice => Shape::Tuple(Box::new(spec_sl4(Shape::N8, Shape::Nat, Shape::Nat, Shape::Address))),
        Method::IntSetSupplyController => Shape::Tuple(Box::new(spec_sl2(Shape::Nat, Shape::Opt(Box::new(Shape::Nat))))),
        Method::IntTerminateSupply => Shape::Tuple(Box::new(spec_sl1(Shape::Nat))),
        Method::IntTransferTokens => Shape::Tuple(Box::new(spec_sl3(Shape::Nat, Shape::Address, Shape::Nat))),
        Method::IntUpdateSupplyAmount => Shape::Tuple(Box::new(spec_sl3(Shape::Nat, Shape::Nat, Shape::Nat))),
        Method::IntUpdateSupplyExchangeRate => Shape::Tuple(Box::new(spec_sl2(Shape::Nat, Shape::Nat))),
        Method::IntUpdateSupplyExpiryDate => Shape::Tuple(Box::new(spec_sl2(Shape::Nat, Shape::N64))),
        Method::LedAmenChangeIssuer => Shape::Tuple(Box::new(spec_sl4(Shape::Nat, Shape::Nat, Shape::Nat, Shape::Address))),
        Method::LedAmenCreateAmendment => Shape::Tuple(Box::new(spec_sl3(Shape::Nat, Shape::Nat, Shape::Nat))),
        Method::LedAmenGetAmendment => Shape::Tuple(Box::new(spec_sl1(Shape::Nat))),
        Method::LedBaseActivateAsset => Shape::Tuple(Box::new(spec_sl5(Shape::Nat, Shape::Nat, Shape::Nat, Shape::Bool, Shape::Opt(Box::new(Shape::Nat))))),
        Method::LedBaseCreateAsset => Shape::Tuple(Box::new(spec_sl2(Shape::Nat, Shape::Nat))),
        Method::LedBaseDestroyTokens => Shape::Tuple(Box::new(spec_sl3(Shape::Nat, Shape::Nat, Shape::Nat))),
        Method::LedBaseGetAsset => Shape::Tuple(Box::new(spec_sl2(Shape::Nat, Shape::Nat))),
        Method::LedBaseIssueTokens => Shape::Tuple(Box::new(spec_sl3(Shape::Nat, Shape::Nat, Shape::Nat))),
        Method::LedKycRemoveUsageController => Shape::Tuple(Box::new(spec_sl2(Shape::Nat, Shape::Nat))),
        Method::LedKycSetUsageController => Shape::Tuple(Box::new(spec_sl3(Shape::Nat, Shape::Nat, Shape::Nat))),
        Method::MngContractDeploymentCode => Shape::Tuple(Box::new(spec_sl1(Shape::Nat))),
        Method::MngContractName => Shape::Tuple(Box::new(spec_sl1(Shape::Nat))),
        Method::MngContractVersion => Shape::Tuple(Box::new(spec_sl1(Shape::Nat))),
        Method::MngCreateClmp => Shape::Tuple(Box::new(spec_sl1(Shape::Text))),
        Method::MngCreateController => Shape::Tuple(Box::new(spec_sl2(Shape::Text, Shape::Address))),
        Method::MngCreateIntegration => Shape::Tuple(Box::new(spec_sl2(Shape::Text, Shape::Nat))),
        Method::MngGrantAdmin => Shape::Tuple(Box::new(spec_sl2(Shape::Nat, Shape::Address))),
        Method::MngGetIntegration => Shape::Tuple(Box::new(ShapeList::Nil)),
        Method::MngIsAdmin => Shape::Tuple(Box::new(spec_sl2(Shape::Nat, Shape::Address))),
        Method::MngIsOwner => Shape::Tuple(Box::new(spec_sl2(Shape::Nat, Shape::Address))),
        Method::MngOwner => Shape::Tuple(Box::new(spec_sl1(Shape::Nat))),
        Method::MngPause => Shape::Tuple(Box::new(spec_sl1(Shape::Nat))),
        Method::MngPaused => Shape::Tuple(Box::new(spec_sl1(Shape::Nat))),
        Method::MngRenounceOwnership => Shape::Tuple(Box::new(spec_sl1(Shape::Nat))),
        Method::MngRevokeAdmin => Shape::Tuple(Box::new(spec_sl2(Shape::Nat, Shape::Address))),
        Method::MngTransferOwnership => Shape::Tuple(Box::new(spec_sl2(Shape::Nat, Shape::Address))),
        Method::MngUnpause => Shape::Tuple(Box::new(spec_sl1(Shape::Nat))),
    }
}

/// The shape of a method's reply value.
pub open spec fn response_shape(m: Method) -> Shape {
    match m {
        Method::CtrGetConsumeSupply => Shape::N8,
        Method::CtrGetMakeSupply => Shape::N8,
        Method::CtrGetSend => Shape::N8,
        Method::CtrRemoveAddress => Response::shape(),
        Method::CtrRemoveAddressArray => Response::shape(),
        Method::CtrRemoveBlacklist => Response::shape(),
        Method::CtrRemoveBlacklistArray => Response::shape(),
        Method::CtrSetBlacklist => Response::shape(),
        Method::CtrSetBlacklistArray => Response::shape(),
        Method::CtrSetLimit => Response::shape(),
        Method::CtrSetLimitArray => Response::shape(),
        Method::CtrValidateUsageController => Shape::Bool,
        Method::EventAccountUpdateCount => Shape::N64,
        Method::EventAccountUpdateGet => Shape::Opt(Box::new(AccountUpdate::shape())),
        Method::EventAdministratorChangedCount => Shape::N64,
        Method::EventAdministratorChangedGet => Shape::Opt(Box::new(AdministratorChanged::shape())),
        Method::EventAmendmentUpdateCount => Shape::N64,
        Method::EventAmendmentUpdateGet => Shape::Opt(Box::new(AmendmentUpdate::shape())),
        Method::EventAssetUpdateCount => Shape::N64,
        Method::EventAssetUpdateGet => Shape::Opt(Box::new(AssetUpdate::shape())),
        Method::EventBlacklistChangedCount => Shape::N64,
        Method::EventBlacklistChangedGet => Shape::Opt(Box::new(BlacklistChanged::shape())),
        Method::EventControllerCreatedCount => Shape::N64,
        Method::EventControllerCreatedGet => Shape::Opt(Box::new(ControllerCreated::shape())),
        Method::EventLedgerAddedCount => Shape::N64,
        Method::EventLedgerAddedGet => Shape::Opt(Box::new(LedgerAdded::shape())),
        Method::EventLimitChangedCount => Shape::N64,
        Method::EventLimitChangedGet => Shape::Opt(Box::new(LimitChanged::shape())),
        Method::EventLimitConsumedCount => Shape::N64,
        Method::EventLimitConsumedGet => Shape::Opt(Box::new(LimitConsumed::shape())),
        Method::EventOwnershipTransferredCount => Shape::N64,
        Method::EventOwnershipTransferredGet => Shape::Opt(Box::new(OwnershipTransferred::shape())),
        Method::EventPauseChangedCount => Shape::N64,
        Method::EventPauseChangedGet => Shape::Opt(Box::new(PauseChanged::shape())),
        Method::EventPricingChangedCount => Shape::N64,
        Method::EventPricingChangedGet => Shape::Opt(Box::new(PricingChanged::shape())),
        Method::EventSupplyUpdateCount => Shape::N64,
        Method::EventSupplyUpdateGet => Shape::Opt(Box::new(SupplyUpdate::shape())),
        Method::EventTokensCreatedCount => Shape::N64,
        Method::EventTokensCreatedGet => Shape::Opt(Box::new(TokensCreated::shape())),
        Method::EventTokensDestroyedCount => Shape::N64,
        Method::EventTokensDestroyedGet => Shape::Opt(Box::new(TokensDestroyed::shape())),
        Method::GetTx => Shape::Opt(Box::new(Transaction::shape())),
        Method::IntCreateSupply => ResponseSupplyId::shape(),
        Method::IntGetBalance => Shape::Nat,
        Method::IntGetDecimalPtr => Shape::Nat,
        Method::IntGetLedgerId => Shape::N16,
        Method::IntGetLedgerContractId => Shape::Opt(Box::new(Shape::Nat)),
        Method::IntGetSupply => Shape::Opt(Box::new(Supply::shape())),
        Method::IntGetTokens => Shape::Nat,
        Method::IntRunWarp => Response::shape(),
        Method::IntSetContract => Response::shape(),
        Method::IntSetPrice => Response::shape(),
        Method::IntSetSupplyController => Response::shape(),
        Method::IntTerminateSupply => Response::shape(),
        Method::IntTransferTokens => Response::shape(),
        Method::IntUpdateSupplyAmount => Response::shape(),
        Method::IntUpdateSupplyExchangeRate => ResponseSupplyId::shape(),
        Method::IntUpdateSupplyExpiryDate => Response::shape(),
        Method::LedAmenChangeIssuer => ResponseAmendmentId::shape(),
        Method::LedAmenCreateAmendment => ResponseAmendmentId::shape(),
        Method::LedAmenGetAmendment => Shape::Opt(Box::new(Amendment::shape())),
        Method::LedBaseActivateAsset => Response::shape(),
        Method::LedBaseCreateAsset => Response::shape(),
        Method::LedBaseDestroyTokens => Response::shape(),
        Method::LedBaseGetAsset => Shape::Opt(Box::new(Asset::shape())),
        Method::LedBaseIssueTokens => Response::shape(),
        Method::LedKycRemoveUsageController => Response::shape(),
        Method::LedKycSetUsageController => Response::shape(),
        Method::MngContractDeploymentCode => Shape::Text,
        Method::MngContractName => Shape::Text,
        Method::MngContractVersion => Shape::Text,
        Method::MngCreateClmp => ResponseContractId::shape(),
        Method::MngCreateController => ResponseContractId::shape(),
        Method::MngCreateIntegration => ResponseContractId::shape(),
        Method::MngGrantAdmin => Shape::Bool,
        Method::MngGetIntegration => Shape::Opt(Box::new(Shape::Nat)),
        Method::MngIsAdmin => Shape::Bool,
        Method::MngIsOwner => Shape::Bool,
        Method::MngOwner => Shape::Opt(Box::new(Shape::Address)),
        Method::MngPause => Response::shape(),
        Method::MngPaused => Shape::Bool,
        Method::MngRenounceOwnership => Response::shape(),
        Method::MngRevokeAdmin => Response::shape(),
        Method::MngTransferOwnership => Response::shape(),
        Method::MngUnpause => Response::shape(),
    }
}

/// The descriptor of one catalog method, as the invoker consumes it.
#[verifier::rlimit(100)]
pub fn descriptor(m: Method) -> (d: MethodDescriptor)
    ensures
        d.name@ == method_name(m),
        d.channel == channel_of(m),
        d.request == request_shape(m),
        d.response == response_shape(m),
{
    match m {
        Method::CtrGetConsumeSupply => MethodDescriptor {
            name: "ctr_get_consume_supply",
            channel: Channel::Query,
            request: Shape::Tuple(Box::new(sl4(Shape::Nat, Shape::Address, Shape::Nat, Shape::Nat))),
            response: Shape::N8,
        },
        Method::CtrGetMakeSupply => MethodDescriptor {
            name: "ctr_get_make_supply",
            channel: Channel::Query,
            request: Shape::Tuple(Box::new(sl5(Shape::Nat, Shape::Address, Shape::Nat, Shape::Nat, Shape::Nat))),
            response: Shape::N8,
        },
        Method::CtrGetSend => MethodDescriptor {
            name: "ctr_get_send",
            channel: Channel::Query,
            request: Shape::Tuple(Box::new(sl4(Shape::Nat, Shape::Opt(Box::new(Shape::Address)), Shape::Opt(Box::new(Shape::Address)), Shape::Nat))),
            response: Shape::N8,
        },
        Method::CtrRemoveAddress => MethodDescriptor {
            name: "ctr_remove_address",
            channel: Channel::Update,
            request: Shape::Tuple(Box::new(sl2(Shape::Nat, Shape::Address))),
            response: Response::build_shape(),
        },
        Method::CtrRemoveAddressArray => MethodDescriptor {
            name: "ctr_remove_address",
            channel: Channel::Update,
            request: Shape::Tuple(Box::new(sl2(Shape::Nat, Shape::List(Box::new(Shape::Address))))),
            response: Response::build_shape(),
        },
        Method::CtrRemoveBlacklist => MethodDescriptor {
            name: "ctr_remove_blacklist",
            channel: Channel::Update,
            request: Shape::Tuple(Box::new(sl2(Shape::Nat, Shape::Address))),
            response: Response::build_shape(),
        },
        Method::CtrRemoveBlacklistArray => MethodDescriptor {
            name: "ctr_remove_blacklist_array",
            channel: Channel::Update,
            request: Shape::Tuple(Box::new(sl2(Shape::Nat, Shape::List(Box::new(Shape::Address))))),
            response: Response::build_shape(),
        },
        Method::CtrSetBlacklist => MethodDescriptor {
            name: "ctr_set_blacklist",
            channel: Channel::Update,
            request: Shape::Tuple(Box::new(sl3(Shape::Nat, Shape::Address, Shape::N8))),
            response: Response::build_shape(),
        },
        Method::CtrSetBlacklistArray => MethodDescriptor {
            name: "ctr_set_blacklist_array",
            channel: Channel::Update,
            request: Shape::Tuple(Box::new(sl3(Shape::Nat, Shape::List(Box::new(Shape::Address)), Shape::List(Box::new(Shape::N8))))),
            response: Response::build_shape(),
        },
        Method::CtrSetLimit => MethodDescriptor {
            name: "ctr_set_limit",
            channel: Channel::Update,
            request: Shape::Tuple(Box::new(sl3(Shape::Nat, Shape::Address, Shape::Nat))),
            response: Response::build_shape(),
        },
        Method::CtrSetLimitArray => MethodDescriptor {
            name: "ctr_set_limit_array",
            channel: Channel::Update,
            request: Shape::Tuple(Box::new(sl3(Shape::Nat, Shape::List(Box::new(Shape::Address)), Shape::List(Box::new(Shape::Nat))))),
            response: Response::build_shape(),
        },
        Method::CtrValidateUsageController => MethodDescriptor {
            name: "ctr_validate_usage_controller",
            channel: Channel::Query,
            request: Shape::Tuple(Box::new(sl1(Shape::Opt(Box::new(Shape::Nat))))),
            response: Shape::Bool,
        },
        Method::EventAccountUpdateCount => MethodDescriptor {
            name: "event_account_update_count",
            channel: Channel::Query,
            request: Shape::Tuple(Box::new(ShapeList::Nil)),
            response: Shape::N64,
        },
        Method::EventAccountUpdateGet => MethodDescriptor {
            name: "event_account_update_get",
            channel: Channel::Query,
            request: Shape::Tuple(Box::new(sl1(Shape::N64))),
            response: Shape::Opt(Box::new(AccountUpdate::build_shape())),
        },
        Method::EventAdministratorChangedCount => MethodDescriptor {
            name: "event_administrator_changed_count",
            channel: Channel::Query,
            request: Shape::Tuple(Box::new(sl1(Shape::Nat))),
            response: Shape::N64,
        },
        Method::EventAdministratorChangedGet => MethodDescriptor {
            name: "event_administrator_changed_get",
            channel: Channel::Query,
            request: Shape::Tuple(Box::new(sl2(Shape::Nat, Shape::N64))),
            response: Shape::Opt(Box::new(AdministratorChanged::build_shape())),
        },
        Method::EventAmendmentUpdateCount => MethodDescriptor {
            name: "event_amendment_update_count",
            channel: Channel::Query,
            request: Shape::Tuple(Box::new(sl1(Shape::N16))),
            response: Shape::N64,
        },
        Method::EventAmendmentUpdateGet => MethodDescriptor {
            name: "event_amendment_update_get",
            channel: Channel::Query,
            request: Shape::Tuple(Box::new(sl2(Shape::N16, Shape::N64))),
            response: Shape::Opt(Box::new(AmendmentUpdate::build_shape())),
        },
        Method::EventAssetUpdateCount => MethodDescriptor {
            name: "event_asset_update_count",
            channel: Channel::Query,
            request: Shape::Tuple(Box::new(sl1(Shape::N16))),
            response: Shape::N64,
        },
        Method::EventAssetUpdateGet => MethodDescriptor {
            name: "event_asset_update_get",
            channel: Channel::Query,
            request: Shape::Tuple(Box::new(sl2(Shape::N16, Shape::N64))),
            response: Shape::Opt(Box::new(AssetUpdate::build_shape())),
        },
        Method::EventBlacklistChangedCount => MethodDescriptor {
            name: "event_blacklist_changed_count",
            channel: Channel::Query,
            request: Shape::Tuple(Box::new(sl1(Shape::Nat))),
            response: Shape::N64,
        },
        Method::EventBlacklistChangedGet => MethodDescriptor {
            name: "event_blacklist_changed_get",
            channel: Channel::Query,
            request: Shape::Tuple(Box::new(sl2(Shape::Nat, Shape::N64))),
            response: Shape::Opt(Box::new(BlacklistChanged::build_shape())),
        },
        Method::EventControllerCreatedCount => MethodDescriptor {
            name: "event_controller_created_count",
            channel: Channel::Query,
            request: Shape::Tuple(Box::new(ShapeList::Nil)),
            response: Shape::N64,
        },
        Method::EventControllerCreatedGet => MethodDescriptor {
            name: "event_controller_created_get",
            channel: Channel::Query,
            request: Shape::Tuple(Box::new(sl1(Shape::N64))),
            response: Shape::Opt(Box::new(ControllerCreated::build_shape())),
        },
        Method::EventLedgerAddedCount => MethodDescriptor {
            name: "event_ledger_added_count",
            channel: Channel::Query,
            request: Shape::Tuple(Box::new(ShapeList::Nil)),
            response: Shape::N64,
        },
        Method::EventLedgerAddedGet => MethodDescriptor {
            name: "event_ledger_added_get",
            channel: Channel::Query,
            request: Shape::Tuple(Box::new(sl1(Shape::N64))),
            response: Shape::Opt(Box::new(LedgerAdded::build_shape())),
        },
        Method::EventLimitChangedCount => MethodDescriptor {
            name: "event_limit_changed_count",
            channel: Channel::Query,
            request: Shape::Tuple(Box::new(sl1(Shape::Nat))),
            response: Shape::N64,
        },
        Method::EventLimitChangedGet => MethodDescriptor {
            name: "event_limit_changed_get",
            channel: Channel::Query,
            request: Shape::Tuple(Box::new(sl2(Shape::Nat, Shape::N64))),
            response: Shape::Opt(Box::new(LimitChanged::build_shape())),
        },
        Method::EventLimitConsumedCount => MethodDescriptor {
            name: "event_limit_consumed_count",
            channel: Channel::Query,
            request: Shape::Tuple(Box::new(sl1(Shape::Nat))),
            response: Shape::N64,
        },
        Method::EventLimitConsumedGet => MethodDescriptor {
            name: "event_limit_consumed_get",
            channel: Channel::Query,
            request: Shape::Tuple(Box::new(sl2(Shape::Nat, Shape::N64))),
            response: Shape::Opt(Box::new(LimitConsumed::build_shape())),
        },
        Method::EventOwnershipTransferredCount => MethodDescriptor {
            name: "event_ownership_transferred_count",
            channel: Channel::Query,
            request: Shape::Tuple(Box::new(sl1(Shape::Nat))),
            response: Shape::N64,
        },
        Method::EventOwnershipTransferredGet => MethodDescriptor {
            name: "event_ownership_transferred_get",
            channel: Channel::Query,
            request: Shape::Tuple(Box::new(sl2(Shape::Nat, Shape::N64))),
            response: Shape::Opt(Box::new(OwnershipTransferred::build_shape())),
        },
        Method::EventPauseChangedCount => MethodDescriptor {
            name: "event_pause_changed_count",
            channel: Channel::Query,
            request: Shape::Tuple(Box::new(sl1(Shape::Nat))),
            response: Shape::N64,
        },
        Method::EventPauseChangedGet => MethodDescriptor {
            name: "event_pause_changed_get",
            channel: Channel::Query,
            request: Shape::Tuple(Box::new(sl2(Shape::Nat, Shape::N64))),
            response: Shape::Opt(Box::new(PauseChanged::build_shape())),
        },
        Method::EventPricingChangedCount => MethodDescriptor {
            name: "event_pricing_changed_count",
            channel: Channel::Query,
            request: Shape::Tuple(Box::new(ShapeList::Nil)),
            response: Shape::N64,
        },
        Method::EventPricingChangedGet => MethodDescriptor {
            name: "event_pricing_changed_get",
            channel: Channel::Query,
            request: Shape::Tuple(Box::new(sl1(Shape::N64))),
            response: Shape::Opt(Box::new(PricingChanged::build_shape())),
        },
        Method::EventSupplyUpdateCount => MethodDescriptor {
            name: "event_supply_update_count",
            channel: Channel::Query,
            request: Shape::Tuple(Box::new(ShapeList::Nil)),
            response: Shape::N64,
        },
        Method::EventSupplyUpdateGet => MethodDescriptor {
            name: "event_supply_update_get",
            channel: Channel::Query,
            request: Shape::Tuple(Box::new(sl1(Shape::N64))),
            response: Shape::Opt(Box::new(SupplyUpdate::build_shape())),
        },
        Method::EventTokensCreatedCount => MethodDescriptor {
            name: "event_tokens_created_count",
            channel: Channel::Query,
            request: Shape::Tuple(Box::new(ShapeList::Nil)),
            response: Shape::N64,
        },
        Method::EventTokensCreatedGet => MethodDescriptor {
            name: "event_tokens_created_get",
            channel: Channel::Query,
            request: Shape::Tuple(Box::new(sl1(Shape::N64))),
            response: Shape::Opt(Box::new(TokensCreated::build_shape())),
        },
        Method::EventTokensDestroyedCount => MethodDescriptor {
            name: "event_tokens_destroyed_count",
            channel: Channel::Query,
            request: Shape::Tuple(Box::new(ShapeList::Nil)),
            response: Shape::N64,
        },
        Method::EventTokensDestroyedGet => MethodDescriptor {
            name: "event_tokens_destroyed_get",
            channel: Channel::Query,
            request: Shape::Tuple(Box::new(sl1(Shape::N64))),
            response: Shape::Opt(Box::new(TokensDestroyed::build_shape())),
        },
        Method::GetTx => MethodDescriptor {
            name: "get_tx",
            channel: Channel::Query,
            request: Shape::Tuple(Box::new(sl1(Shape::Nat))),
            response: Shape::Opt(Box::new(Transaction::build_shape())),
        },
        Method::IntCreateSupply => MethodDescriptor {
            name: "int_create_supply",
            channel: Channel::Update,
            request: Shape::Tuple(Box::new(sl1(CreateSupplyRequest::build_shape()))),
            response: ResponseSupplyId::build_shape(),
        },
        Method::IntGetBalance => MethodDescriptor {
            name: "int_get_balance",
            channel: Channel::Query,
            request: Shape::Tuple(Box::new(sl2(Shape::Nat, Shape::Address))),
            response: Shape::Nat,
        },
        Method::IntGetDecimalPtr => MethodDescriptor {
            name: "int_get_decimal_ptr",
            channel: Channel::Query,
            request: Shape::Tuple(Box::new(ShapeList::Nil)),
            response: Shape::Nat,
        },
        Method::IntGetLedgerId => MethodDescriptor {
            name: "int_get_ledger_id",
            channel: Channel::Query,
            request: Shape::Tuple(Box::new(sl1(Shape::Nat))),
            response: Shape::N16,
        },
        Method::IntGetLedgerContractId => MethodDescriptor {
            name: "int_get_ledger_contract_id",
            channel: Channel::Query,
            request: Shape::Tuple(Box::new(sl1(Shape::N16))),
            response: Shape::Opt(Box::new(Shape::Nat)),
        },
        Method::IntGetSupply => MethodDescriptor {
            name: "int_get_supply",
            channel: Channel::Query,
            request: Shape::Tuple(Box::new(sl1(Shape::Nat))),
            response: Shape::Opt(Box::new(Supply::build_shape())),
        },
        Method::IntGetTokens => MethodDescriptor {
            name: "int_get_tokens",
            channel: Channel::Query,
            request: Shape::Tuple(Box::new(sl2(Shape::Nat, Shape::Nat))),
            response: Shape::Nat,
        },
        Method::IntRunWarp => MethodDescriptor {
            name: "int_run_warp",
            channel: Channel::Update,
            request: Shape::Tuple(Box::new(sl1(RunWarpRequest::build_shape()))),
            response: Response::build_shape(),
        },
        Method::IntSetContract => MethodDescriptor {
            name: "int_set_contract",
            channel: Channel::Update,
            request: Shape::Tuple(Box::new(sl2(Shape::Nat, Shape::N16))),
            response: Response::build_shape(),
        },
        Method::IntSetPrice => MethodDescriptor {
            name: "int_set_price",
            channel: Channel::Update,
            request: Shape::Tuple(Box::new(sl4(Shape::N8, Shape::Nat, Shape::Nat, Shape::Address))),
            response: Response::build_shape(),
        },
        Method::IntSetSupplyController => MethodDescriptor {
            name: "int_set_supply_controller",
            channel: Channel::Update,
            request: Shape::Tuple(Box::new(sl2(Shape::Nat, Shape::Opt(Box::new(Shape::Nat))))),
            response: Response::build_shape(),
        },
        Method::IntTerminateSupply => MethodDescriptor {
            name: "int_terminate_supply",
            channel: Channel::Update,
            request: Shape::Tuple(Box::new(sl1(Shape::Nat))),
            response: Response::build_shape(),
        },
        Method::IntTransferTokens => MethodDescriptor {
            name: "int_transfer_tokens",
            channel: Channel::Update,
            request: Shape::Tuple(Box::new(sl3(Shape::Nat, Shape::Address, Shape::Nat))),
            response: Response::build_shape(),
        },
        Method::IntUpdateSupplyAmount => MethodDescriptor {
            name: "int_update_supply_amount",
            channel: Channel::Update,
            request: Shape::Tuple(Box::new(sl3(Shape::Nat, Shape::Nat, Shape::Nat))),
            response: Response::build_shape(),
        },
        Method::IntUpdateSupplyExchangeRate => MethodDescriptor {
            name: "int_update_supply_exchange_rate",
            channel: Channel::Update,
            request: Shape::Tuple(Box::new(sl2(Shape::Nat, Shape::Nat))),
            response: ResponseSupplyId::build_shape(),
        },
        Method::IntUpdateSupplyExpiryDate => MethodDescriptor {
            name: "int_update_supply_expiry_date",
            channel: Channel::Update,
            request: Shape::Tuple(Box::new(sl2(Shape::Nat, Shape::N64))),
            response: Response::build_shape(),
        },
        Method::LedAmenChangeIssuer => MethodDescriptor {
            name: "led_amen_change_issuer",
            channel: Channel::Update,
            request: Shape::Tuple(Box::new(sl4(Shape::Nat, Shape::Nat, Shape::Nat, Shape::Address))),
            response: ResponseAmendmentId::build_shape(),
        },
        Method::LedAmenCreateAmendment => MethodDescriptor {
            name: "led_amen_create_amendment",
            channel: Channel::Update,
            request: Shape::Tuple(Box::new(sl3(Shape::Nat, Shape::Nat, Shape::Nat))),
            response: ResponseAmendmentId::build_shape(),
        },
        Method::LedAmenGetAmendment => MethodDescriptor {
            name: "led_amen_get_amendment",
            channel: Channel::Query,
            request: Shape::Tuple(Box::new(sl1(Shape::Nat))),
            response: Shape::Opt(Box::new(Amendment::build_shape())),
        },
        Method::LedBaseActivateAsset => MethodDescriptor {
            name: "led_base_activate_asset",
            channel: Channel::Update,
            request: Shape::Tuple(Box::new(sl5(Shape::Nat, Shape::Nat, Shape::Nat, Shape::Bool, Shape::Opt(Box::new(Shape::Nat))))),
            response: Response::build_shape(),
        },
        Method::LedBaseCreateAsset => MethodDescriptor {
            name: "led_base_create_asset",
            channel: Channel::Update,
            request: Shape::Tuple(Box::new(sl2(Shape::Nat, Shape::Nat))),
            response: Response::build_shape(),
        },
        Method::LedBaseDestroyTokens => MethodDescriptor {
            name: "led_base_destroy_tokens",
            channel: Channel::Update,
            request: Shape::Tuple(Box::new(sl3(Shape::Nat, Shape::Nat, Shape::Nat))),
            response: Response::build_shape(),
        },
        Method::LedBaseGetAsset => MethodDescriptor {
            name: "led_base_get_asset",
            channel: Channel::Query,
            request: Shape::Tuple(Box::new(sl2(Shape::Nat, Shape::Nat))),
            response: Shape::Opt(Box::new(Asset::build_shape())),
        },
        Method::LedBaseIssueTokens => MethodDescriptor {
            name: "led_base_issue_tokens",
            channel: Channel::Update,
            request: Shape::Tuple(Box::new(sl3(Shape::Nat, Shape::Nat, Shape::Nat))),
            response: Response::build_shape(),
        },
        Method::LedKycRemoveUsageController => MethodDescriptor {
            name: "led_kyc_remove_usage_controller",
            channel: Channel::Update,
            request: Shape::Tuple(Box::new(sl2(Shape::Nat, Shape::Nat))),
            response: Response::build_shape(),
        },
        Method::LedKycSetUsageController => MethodDescriptor {
            name: "led_kyc_set_usage_controller",
            channel: Channel::Update,
            request: Shape::Tuple(Box::new(sl3(Shape::Nat, Shape::Nat, Shape::Nat))),
            response: Response::build_shape(),
        },
        Method::MngContractDeploymentCode => MethodDescriptor {
            name: "mng_contract_deployment_code",
            channel: Channel::Query,
            request: Shape::Tuple(Box::new(sl1(Shape::Nat))),
            response: Shape::Text,
        },
        Method::MngContractName => MethodDescriptor {
            name: "mng_contract_name",
            channel: Channel::Query,
            request: Shape::Tuple(Box::new(sl1(Shape::Nat))),
            response: Shape::Text,
        },
        Method::MngContractVersion => MethodDescriptor {
            name: "mng_contract_version",
            channel: Channel::Query,
            request: Shape::Tuple(Box::new(sl1(Shape::Nat))),
            response: Shape::Text,
        },
        Method::MngCreateClmp => MethodDescriptor {
            name: "mng_create_clmp",
            channel: Channel::Update,
            request: Shape::Tuple(Box::new(sl1(Shape::Text))),
            response: ResponseContractId::build_shape(),
        },
        Method::MngCreateController => MethodDescriptor {
            name: "mng_create_controller",
            channel: Channel::Update,
            request: Shape::Tuple(Box::new(sl2(Shape::Text, Shape::Address))),
            response: ResponseContractId::build_shape(),
        },
        Method::MngCreateIntegration => MethodDescriptor {
            name: "mng_create_integration",
            channel: Channel::Update,
            request: Shape::Tuple(Box::new(sl2(Shape::Text, Shape::Nat))),
            response: ResponseContractId::build_shape(),
        },
        Method::MngGrantAdmin => MethodDescriptor {
            name: "mng_grant_admin",
            channel: Channel::Query,
            request: Shape::Tuple(Box::new(sl2(Shape::Nat, Shape::Address))),
            response: Shape::Bool,
        },
        Method::MngGetIntegration => MethodDescriptor {
            name: "mng_get_integration",
            channel: Channel::Query,
            request: Shape::Tuple(Box::new(ShapeList::Nil)),
            response: Shape::Opt(Box::new(Shape::Nat)),
        },
        Method::MngIsAdmin => MethodDescriptor {
            name: "mng_is_admin",
            channel: Channel::Query,
            request: Shape::Tuple(Box::new(sl2(Shape::Nat, Shape::Address))),
            response: Shape::Bool,
        },
        Method::MngIsOwner => MethodDescriptor {
            name: "mng_is_owner",
            channel: Channel::Query,
            request: Shape::Tuple(Box::new(sl2(Shape::Nat, Shape::Address))),
            response: Shape::Bool,
        },
        Method::MngOwner => MethodDescriptor {
            name: "mng_owner",
            channel: Channel::Query,
            request: Shape::Tuple(Box::new(sl1(Shape::Nat))),
            response: Shape::Opt(Box::new(Shape::Address)),
        },
        Method::MngPause => MethodDescriptor {
            name: "mng_pause",
            channel: Channel::Update,
            request: Shape::Tuple(Box::new(sl1(Shape::Nat))),
            response: Response::build_shape(),
        },
        Method::MngPaused => MethodDescriptor {
            name: "mng_paused",
            channel: Channel::Query,
            request: Shape::Tuple(Box::new(sl1(Shape::Nat))),
            response: Shape::Bool,
        },
        Method::MngRenounceOwnership => MethodDescriptor {
            name: "mng_renounce_ownership",
            channel: Channel::Update,
            request: Shape::Tuple(Box::new(sl1(Shape::Nat))),
            response: Response::build_shape(),
        },
        Method::MngRevokeAdmin => MethodDescriptor {
            name: "mng_revoke_admin",
            channel: Channel::Update,
            request: Shape::Tuple(Box::new(sl2(Shape::Nat, Shape::Address))),
            response: Response::build_shape(),
        },
        Method::MngTransferOwnership => MethodDescriptor {
            name: "mng_transfer_ownership",
            channel: Channel::Update,
            request: Shape::Tuple(Box::new(sl2(Shape::Nat, Shape::Address))),
            response: Response::build_shape(),
        },
        Method::MngUnpause => MethodDescriptor {
            name: "mng_unpause",
            channel: Channel::Update,
            request: Shape::Tuple(Box::new(sl1(Shape::Nat))),
            response: Response::build_shape(),
        },
    }
}

} // verus!
