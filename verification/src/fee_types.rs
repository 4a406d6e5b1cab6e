//! The decisions the fee manager takes on a transaction's protocol fee.
use vstd::prelude::*;

use crate::address::{Address, AddressView};

verus! {

/// How a wallet prefers to pay fees now: in `asset`, up to `max_total_fee`.
pub struct FeePreference {
    pub asset: Address,
    pub max_total_fee: i128,
}

/// Why a fee cannot be handled.
#[derive(PartialEq, Eq, Structural, Clone, Copy, Debug)]
pub enum CannotProceedReason {
    UnsupportedFeeAsset,
    FeeExceedsMaximum,
    MaxDeferredFeeExceeded,
    InvalidMaxTotalFee,
}

/// The fee is collected now, in the chosen asset.
pub struct CollectNowData {
    pub fee_asset: Address,
    pub total_fee_in_base: i128,
    pub total_fee_in_asset: i128,
    pub max_total_fee: i128,
}

/// The fee is added to the wallet's deferred balance.
#[derive(PartialEq, Eq, Structural, Clone, Copy, Debug)]
pub struct DeferData {
    pub updated_deferred_fee: i128,
    pub max_deferred_fee: i128,
}

/// The fee can be neither collected nor deferred.
pub struct CannotProceedData {
    pub reason: CannotProceedReason,
    pub fee_asset: Option<Address>,
    pub total_fee_in_base: i128,
    pub total_fee_in_asset: Option<i128>,
    pub max_total_fee: Option<i128>,
    pub max_deferred_fee: i128,
}

/// The decision on a transaction's protocol fee.
pub enum FeeDecision {
    CollectNow(CollectNowData),
    Defer(DeferData),
    CannotProceed(CannotProceedData),
}

} // verus!
