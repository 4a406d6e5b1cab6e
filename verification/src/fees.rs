//! Protocol fee configuration, conversion and per-transaction fee decisions.
use vstd::prelude::*;

use crate::address::{Address, AddressView};
use crate::errors::ContractError;
use crate::fee_types::{
    CannotProceedData, CannotProceedReason, CollectNowData, DeferData, FeeDecision, FeePreference,
};

verus! {

/// Fixed-point scale of base fees and of asset conversion rates.
pub const PRECISION: i128 = 10_000_000;

/// Ten to the power `n`.
pub open spec fn pow10(n: nat) -> int
    decreases n,
{
    if n == 0 {
        1
    } else {
        10 * pow10((n - 1) as nat)
    }
}

/// Powers of ten are at least one.
pub proof fn lemma_pow10_positive(n: nat)
    ensures
        1 <= pow10(n),
    decreases n,
{
    if n > 0 {
        lemma_pow10_positive((n - 1) as nat);
    }
}

/// Powers of ten grow with the exponent and are at least one.
pub proof fn lemma_pow10_monotone(a: nat, b: nat)
    requires
        a <= b,
    ensures
        1 <= pow10(a) <= pow10(b),
    decreases b,
{
    lemma_pow10_positive(a);
    if b > a {
        lemma_pow10_monotone(a, (b - 1) as nat);
    }
}

/// The base-to-asset conversion:
/// `ceil(total_fee * asset_rate * 10^decimals / PRECISION^2)`, with the
/// errors of the checked arithmetic that computes it.
pub open spec fn convert_spec(total_fee: i128, asset_rate: i128, decimals: u32) -> Result<
    i128,
    ContractError,
> {
    let p2 = PRECISION * PRECISION;
    if total_fee < 0 || asset_rate <= 0 {
        Err(ContractError::InvalidAmount)
    } else if total_fee == 0 {
        Ok(0)
    } else if pow10(decimals as nat) > i128::MAX {
        Err(ContractError::MathOverflow)
    } else if total_fee * asset_rate * pow10(decimals as nat) > i128::MAX {
        Err(ContractError::MathOverflow)
    } else if total_fee * asset_rate * pow10(decimals as nat) + (p2 - 1) > i128::MAX {
        Err(ContractError::MathOverflow)
    } else {
        Ok(((total_fee * asset_rate * pow10(decimals as nat) + (p2 - 1)) / p2) as i128)
    }
}

/// Ten to the power `decimals`, or `MathOverflow` when it does not fit.
fn token_precision(decimals: u32) -> (r: Result<i128, ContractError>)
    ensures
        pow10(decimals as nat) <= i128::MAX ==> r == Ok::<i128, ContractError>(
            pow10(decimals as nat) as i128,
        ),
        pow10(decimals as nat) > i128::MAX ==> r == Err::<i128, ContractError>(
            ContractError::MathOverflow,
        ),
{
    let mut p: i128 = 1;
    let mut i: u32 = 0;
    while i < decimals
        invariant
            i <= decimals,
            p == pow10(i as nat),
        decreases decimals - i,
    {
        proof {
            lemma_pow10_monotone((i + 1) as nat, decimals as nat);
        }
        match p.checked_mul(10) {
            Some(v) => {
                p = v;
            },
            None => {
                return Err(ContractError::MathOverflow);
            },
        }
        i = i + 1;
    }
    Ok(p)
}

/// Converts a base fee into the selected asset's units, rounding up so that
/// protocol fees are never under-collected.
pub fn convert_base_to_asset(total_fee: i128, asset_rate: i128, decimals: u32) -> (r: Result<
    i128,
    ContractError,
>)
    ensures
        r == convert_spec(total_fee, asset_rate, decimals),
{
    if total_fee < 0 || asset_rate <= 0 {
        return Err(ContractError::InvalidAmount);
    }
    if total_fee == 0 {
        return Ok(0);
    }
    let tp = token_precision(decimals)?;
    let ghost p = pow10(decimals as nat);
    proof {
        lemma_pow10_monotone(0, decimals as nat);
    }
    let numerator = match total_fee.checked_mul(asset_rate) {
        Some(v) => {
            match v.checked_mul(tp) {
                Some(w) => w,
                None => {
                    return Err(ContractError::MathOverflow);
                },
            }
        },
        None => {
            assert(total_fee * asset_rate * p >= total_fee * asset_rate) by (nonlinear_arith)
                requires
                    total_fee >= 1,
                    asset_rate >= 1,
                    p >= 1,
            ;
            return Err(ContractError::MathOverflow);
        },
    };
    let denominator: i128 = PRECISION * PRECISION;
    match numerator.checked_add(denominator - 1) {
        Some(v) => {
            assert(v / denominator <= v);
            Ok(v / denominator)
        },
        None => Err(ContractError::MathOverflow),
    }
}

/// A converted fee is never below the exact value and exceeds it by less
/// than one unit of the asset.
pub proof fn lemma_conversion_rounds_up(total_fee: i128, asset_rate: i128, decimals: u32)
    requires
        convert_spec(total_fee, asset_rate, decimals) is Ok,
    ensures
        ({
            let r = convert_spec(total_fee, asset_rate, decimals)->Ok_0 as int;
            let exact = total_fee * asset_rate * pow10(decimals as nat);
            &&& r * (PRECISION * PRECISION) >= exact
            &&& (r - 1) * (PRECISION * PRECISION) < exact || (r == 0 && exact == 0)
        }),
{
    let p2: int = PRECISION * PRECISION;
    if total_fee == 0 {
        assert(total_fee * asset_rate * pow10(decimals as nat) == 0) by (nonlinear_arith)
            requires
                total_fee == 0,
        ;
    } else {
        lemma_pow10_monotone(0, decimals as nat);
        let pw = pow10(decimals as nat);
        let exact: int = total_fee * asset_rate * pw;
        assert(exact >= 1) by (nonlinear_arith)
            requires
                exact == total_fee * asset_rate * pw,
                total_fee >= 1,
                asset_rate >= 1,
                pw >= 1,
        ;
        let r: int = (exact + (p2 - 1)) / p2;
        assert(r * p2 >= exact && (r - 1) * p2 < exact) by (nonlinear_arith)
            requires
                p2 == 100_000_000_000_000,
                r == (exact + (p2 - 1)) / p2,
                exact >= 1,
        ;
    }
}

// ---------------------------------------------------------------------
// Views of fee decisions
// ---------------------------------------------------------------------

/// What a fee decision says, over address views.
#[allow(inconsistent_fields)]
pub enum FeeDecisionView {
    CollectNow {
        fee_asset: AddressView,
        total_fee_in_base: i128,
        total_fee_in_asset: i128,
        max_total_fee: i128,
    },
    Defer { updated_deferred_fee: i128, max_deferred_fee: i128 },
    CannotProceed {
        reason: CannotProceedReason,
        fee_asset: Option<AddressView>,
        total_fee_in_base: i128,
        total_fee_in_asset: Option<i128>,
        max_total_fee: Option<i128>,
        max_deferred_fee: i128,
    },
}

impl View for FeeDecision {
    type V = FeeDecisionView;

    open spec fn view(&self) -> FeeDecisionView {
        match self {
            FeeDecision::CollectNow(d) => FeeDecisionView::CollectNow {
                fee_asset: d.fee_asset@,
                total_fee_in_base: d.total_fee_in_base,
                total_fee_in_asset: d.total_fee_in_asset,
                max_total_fee: d.max_total_fee,
            },
            FeeDecision::Defer(d) => FeeDecisionView::Defer {
                updated_deferred_fee: d.updated_deferred_fee,
                max_deferred_fee: d.max_deferred_fee,
            },
            FeeDecision::CannotProceed(d) => FeeDecisionView::CannotProceed {
                reason: d.reason,
                fee_asset: match d.fee_asset {
                    Some(a) => Some(a@),
                    None => None,
                },
                total_fee_in_base: d.total_fee_in_base,
                total_fee_in_asset: d.total_fee_in_asset,
                max_total_fee: d.max_total_fee,
                max_deferred_fee: d.max_deferred_fee,
            },
        }
    }
}

/// A fee preference over address views.
pub struct FeePreferenceView {
    pub asset: AddressView,
    pub max_total_fee: i128,
}

impl View for FeePreference {
    type V = FeePreferenceView;

    open spec fn view(&self) -> FeePreferenceView {
        FeePreferenceView { asset: self.asset@, max_total_fee: self.max_total_fee }
    }
}

/// A fee that is to be converted into `asset` once that asset's decimals are
/// known.
pub struct PendingConversion {
    pub asset: Address,
    pub fee_in_base: i128,
    pub rate: i128,
    pub max_total_fee: i128,
    pub max_deferred_fee: i128,
}

/// A pending conversion over address views.
pub struct PendingConversionView {
    pub asset: AddressView,
    pub fee_in_base: i128,
    pub rate: i128,
    pub max_total_fee: i128,
    pub max_deferred_fee: i128,
}

impl View for PendingConversion {
    type V = PendingConversionView;

    open spec fn view(&self) -> PendingConversionView {
        PendingConversionView {
            asset: self.asset@,
            fee_in_base: self.fee_in_base,
            rate: self.rate,
            max_total_fee: self.max_total_fee,
            max_deferred_fee: self.max_deferred_fee,
        }
    }
}

/// The first step of a fee quote: either the decision itself, or a
/// conversion that needs the fee asset's decimals.
pub enum FeeQuote {
    Decided(FeeDecision),
    NeedsAssetDecimals(PendingConversion),
}

/// A fee quote over views.
pub enum FeeQuoteView {
    Decided(FeeDecisionView),
    NeedsAssetDecimals(PendingConversionView),
}

impl View for FeeQuote {
    type V = FeeQuoteView;

    open spec fn view(&self) -> FeeQuoteView {
        match self {
            FeeQuote::Decided(d) => FeeQuoteView::Decided(d@),
            FeeQuote::NeedsAssetDecimals(p) => FeeQuoteView::NeedsAssetDecimals(p@),
        }
    }
}

/// The first step of quoting a transaction's fee, from the fee configuration,
/// the wallet's deferred fee, the fee preference and, for the preferred
/// asset, whether it is supported and its stored rate.
pub open spec fn quote_step_spec(
    base_fee: Option<i128>,
    max_deferred_fee: Option<i128>,
    deferred_fee: i128,
    pref: Option<FeePreferenceView>,
    asset_supported: bool,
    asset_rate: Option<i128>,
) -> Result<FeeQuoteView, ContractError> {
    match (base_fee, max_deferred_fee) {
        (None, _) => Err(ContractError::BaseFeeNotConfigured),
        (Some(_), None) => Err(ContractError::MaxDeferredFeeNotFound),
        (Some(base), Some(max_def)) => {
            if base <= 0 || max_def < base {
                Err(ContractError::InvalidFeeConfig)
            } else if deferred_fee < 0 {
                Err(ContractError::InvalidDeferredFee)
            } else if deferred_fee + base > i128::MAX {
                Err(ContractError::MathOverflow)
            } else {
                let total = (deferred_fee + base) as i128;
                match pref {
                    None => if total > max_def {
                        Ok(
                            FeeQuoteView::Decided(
                                FeeDecisionView::CannotProceed {
                                    reason: CannotProceedReason::MaxDeferredFeeExceeded,
                                    fee_asset: None,
                                    total_fee_in_base: total,
                                    total_fee_in_asset: None,
                                    max_total_fee: None,
                                    max_deferred_fee: max_def,
                                },
                            ),
                        )
                    } else {
                        Ok(
                            FeeQuoteView::Decided(
                                FeeDecisionView::Defer {
                                    updated_deferred_fee: total,
                                    max_deferred_fee: max_def,
                                },
                            ),
                        )
                    },
                    Some(p) => if p.max_total_fee <= 0 {
                        Ok(
                            FeeQuoteView::Decided(
                                FeeDecisionView::CannotProceed {
                                    reason: CannotProceedReason::InvalidMaxTotalFee,
                                    fee_asset: Some(p.asset),
                                    total_fee_in_base: total,
                                    total_fee_in_asset: None,
                                    max_total_fee: Some(p.max_total_fee),
                                    max_deferred_fee: max_def,
                                },
                            ),
                        )
                    } else if !asset_supported {
                        Ok(
                            FeeQuoteView::Decided(
                                FeeDecisionView::CannotProceed {
                                    reason: CannotProceedReason::UnsupportedFeeAsset,
                                    fee_asset: Some(p.asset),
                                    total_fee_in_base: total,
                                    total_fee_in_asset: None,
                                    max_total_fee: Some(p.max_total_fee),
                                    max_deferred_fee: max_def,
                                },
                            ),
                        )
                    } else {
                        match asset_rate {
                            None => Err(ContractError::FeeRateNotSet),
                            Some(rate) => Ok(
                                FeeQuoteView::NeedsAssetDecimals(
                                    PendingConversionView {
                                        asset: p.asset,
                                        fee_in_base: total,
                                        rate,
                                        max_total_fee: p.max_total_fee,
                                        max_deferred_fee: max_def,
                                    },
                                ),
                            ),
                        }
                    },
                }
            }
        },
    }
}

/// The decision once the fee asset's decimals are known.
pub open spec fn quote_finish_spec(p: PendingConversionView, decimals: u32) -> Result<
    FeeDecisionView,
    ContractError,
> {
    match convert_spec(p.fee_in_base, p.rate, decimals) {
        Err(e) => Err(e),
        Ok(in_asset) => if in_asset > p.max_total_fee {
            Ok(
                FeeDecisionView::CannotProceed {
                    reason: CannotProceedReason::FeeExceedsMaximum,
                    fee_asset: Some(p.asset),
                    total_fee_in_base: p.fee_in_base,
                    total_fee_in_asset: Some(in_asset),
                    max_total_fee: Some(p.max_total_fee),
                    max_deferred_fee: p.max_deferred_fee,
                },
            )
        } else {
            Ok(
                FeeDecisionView::CollectNow {
                    fee_asset: p.asset,
                    total_fee_in_base: p.fee_in_base,
                    total_fee_in_asset: in_asset,
                    max_total_fee: p.max_total_fee,
                },
            )
        },
    }
}

/// The whole fee quote, for a fee asset with `decimals` decimals.
pub open spec fn quote_spec(
    base_fee: Option<i128>,
    max_deferred_fee: Option<i128>,
    deferred_fee: i128,
    pref: Option<FeePreferenceView>,
    asset_supported: bool,
    asset_rate: Option<i128>,
    decimals: u32,
) -> Result<FeeDecisionView, ContractError> {
    match quote_step_spec(
        base_fee,
        max_deferred_fee,
        deferred_fee,
        pref,
        asset_supported,
        asset_rate,
    ) {
        Err(e) => Err(e),
        Ok(FeeQuoteView::Decided(d)) => Ok(d),
        Ok(FeeQuoteView::NeedsAssetDecimals(p)) => quote_finish_spec(p, decimals),
    }
}

/// Maps an optional fee preference to its view.
pub open spec fn pref_view(pref: Option<FeePreference>) -> Option<FeePreferenceView> {
    match pref {
        Some(p) => Some(p@),
        None => None,
    }
}

/// Contract-wide fee configuration of the fee manager.
pub struct FeeManager {
    pub base_fee: Option<i128>,
    pub max_deferred_fee: Option<i128>,
}

/// The fee configuration invariant: `0 < base_fee <= max_deferred_fee`.
pub open spec fn fee_config_valid(base_fee: Option<i128>, max_deferred_fee: Option<i128>) -> bool {
    match (base_fee, max_deferred_fee) {
        (Some(b), Some(m)) => 0 < b <= m,
        _ => false,
    }
}

impl FeeManager {
    /// Initialises the fee configuration; requires `0 < base_fee <= max_deferred_fee`.
    pub fn new(base_fee: i128, max_deferred_fee: i128) -> (r: Result<FeeManager, ContractError>)
        ensures
            (base_fee <= 0 || max_deferred_fee < base_fee) <==> r == Err::<FeeManager, ContractError>(
                ContractError::InvalidFeeConfig,
            ),
            r matches Ok(m) ==> m.base_fee == Some(base_fee) && m.max_deferred_fee == Some(
                max_deferred_fee,
            ),
            r matches Ok(m) ==> fee_config_valid(m.base_fee, m.max_deferred_fee),
            !(base_fee <= 0 || max_deferred_fee < base_fee) ==> r is Ok,
    {
        if base_fee <= 0 || max_deferred_fee < base_fee {
            return Err(ContractError::InvalidFeeConfig);
        }
        Ok(FeeManager { base_fee: Some(base_fee), max_deferred_fee: Some(max_deferred_fee) })
    }

    /// The configured base fee.
    pub fn read_base_fee(&self) -> (r: Result<i128, ContractError>)
        ensures
            r == (match self.base_fee {
                Some(b) => Ok::<i128, ContractError>(b),
                None => Err(ContractError::BaseFeeNotConfigured),
            }),
    {
        match self.base_fee {
            Some(b) => Ok(b),
            None => Err(ContractError::BaseFeeNotConfigured),
        }
    }

    /// The configured maximum deferred fee.
    pub fn read_max_deferred_fee(&self) -> (r: Result<i128, ContractError>)
        ensures
            r == (match self.max_deferred_fee {
                Some(b) => Ok::<i128, ContractError>(b),
                None => Err(ContractError::MaxDeferredFeeNotFound),
            }),
    {
        match self.max_deferred_fee {
            Some(b) => Ok(b),
            None => Err(ContractError::MaxDeferredFeeNotFound),
        }
    }

    /// Sets the base fee; it must be positive and not above the maximum
    /// deferred fee.
    pub fn set_base_fee(&mut self, fee: i128) -> (r: Result<(), ContractError>)
        ensures
            old(self).max_deferred_fee is None ==> r == Err::<(), ContractError>(
                ContractError::MaxDeferredFeeNotFound,
            ),
            old(self).max_deferred_fee matches Some(m) ==> ((fee <= 0 || fee > m) <==> r == Err::<
                (),
                ContractError,
            >(ContractError::InvalidFeeConfig)),
            r is Ok ==> final(self).base_fee == Some(fee),
            final(self).max_deferred_fee == old(self).max_deferred_fee,
            r is Err ==> final(self).base_fee == old(self).base_fee,
            old(self).max_deferred_fee matches Some(m) && 0 < fee <= m ==> r is Ok,
    {
        let max_deferred = self.read_max_deferred_fee()?;
        if fee <= 0 || fee > max_deferred {
            return Err(ContractError::InvalidFeeConfig);
        }
        self.base_fee = Some(fee);
        Ok(())
    }

    /// Sets the maximum deferred fee; it must not be below the base fee.
    pub fn set_max_deferred_fee(&mut self, fee: i128) -> (r: Result<(), ContractError>)
        ensures
            old(self).base_fee is None ==> r == Err::<(), ContractError>(
                ContractError::BaseFeeNotConfigured,
            ),
            old(self).base_fee matches Some(b) ==> ((b <= 0 || fee < b) <==> r == Err::<
                (),
                ContractError,
            >(ContractError::InvalidFeeConfig)),
            r is Ok ==> final(self).max_deferred_fee == Some(fee),
            final(self).base_fee == old(self).base_fee,
            r is Err ==> final(self).max_deferred_fee == old(self).max_deferred_fee,
            old(self).base_fee matches Some(b) && 0 < b <= fee ==> r is Ok,
    {
        let base_fee = self.read_base_fee()?;
        if base_fee <= 0 || fee < base_fee {
            return Err(ContractError::InvalidFeeConfig);
        }
        self.max_deferred_fee = Some(fee);
        Ok(())
    }

    /// First step of the fee quote for a wallet whose deferred fee balance is
    /// `deferred_fee`. `asset_supported` and `asset_rate` describe the
    /// preferred asset and are only consulted when a preference is given.
    pub fn quote_transaction_fee(
        &self,
        deferred_fee: i128,
        fee_pref: Option<FeePreference>,
        asset_supported: bool,
        asset_rate: Option<i128>,
    ) -> (r: Result<FeeQuote, ContractError>)
        ensures
            r matches Ok(q) ==> Ok::<FeeQuoteView, ContractError>(q@) == quote_step_spec(
                self.base_fee,
                self.max_deferred_fee,
                deferred_fee,
                pref_view(fee_pref),
                asset_supported,
                asset_rate,
            ),
            r matches Err(e) ==> Err::<FeeQuoteView, ContractError>(e) == quote_step_spec(
                self.base_fee,
                self.max_deferred_fee,
                deferred_fee,
                pref_view(fee_pref),
                asset_supported,
                asset_rate,
            ),
    {
        let base_fee = self.read_base_fee()?;
        let max_deferred_fee = self.read_max_deferred_fee()?;
        if base_fee <= 0 || max_deferred_fee < base_fee {
            return Err(ContractError::InvalidFeeConfig);
        }
        if deferred_fee < 0 {
            return Err(ContractError::InvalidDeferredFee);
        }
        let total = match deferred_fee.checked_add(base_fee) {
            Some(t) => t,
            None => {
                return Err(ContractError::MathOverflow);
            },
        };
        match fee_pref {
            None => {
                if total > max_deferred_fee {
                    return Ok(
                        FeeQuote::Decided(
                            FeeDecision::CannotProceed(
                                CannotProceedData {
                                    reason: CannotProceedReason::MaxDeferredFeeExceeded,
                                    fee_asset: None,
                                    total_fee_in_base: total,
                                    total_fee_in_asset: None,
                                    max_total_fee: None,
                                    max_deferred_fee,
                                },
                            ),
                        ),
                    );
                }
                Ok(
                    FeeQuote::Decided(
                        FeeDecision::Defer(
                            DeferData { updated_deferred_fee: total, max_deferred_fee },
                        ),
                    ),
                )
            },
            Some(pref) => {
                if pref.max_total_fee <= 0 {
                    return Ok(
                        FeeQuote::Decided(
                            FeeDecision::CannotProceed(
                                CannotProceedData {
                                    reason: CannotProceedReason::InvalidMaxTotalFee,
                                    fee_asset: Some(pref.asset),
                                    total_fee_in_base: total,
                                    total_fee_in_asset: None,
                                    max_total_fee: Some(pref.max_total_fee),
                                    max_deferred_fee,
                                },
                            ),
                        ),
                    );
                }
                if !asset_supported {
                    return Ok(
                        FeeQuote::Decided(
                            FeeDecision::CannotProceed(
                                CannotProceedData {
                                    reason: CannotProceedReason::UnsupportedFeeAsset,
                                    fee_asset: Some(pref.asset),
                                    total_fee_in_base: total,
                                    total_fee_in_asset: None,
                                    max_total_fee: Some(pref.max_total_fee),
                                    max_deferred_fee,
                                },
                            ),
                        ),
                    );
                }
                match asset_rate {
                    None => Err(ContractError::FeeRateNotSet),
                    Some(rate) => Ok(
                        FeeQuote::NeedsAssetDecimals(
                            PendingConversion {
                                asset: pref.asset,
                                fee_in_base: total,
                                rate,
                                max_total_fee: pref.max_total_fee,
                                max_deferred_fee,
                            },
                        ),
                    ),
                }
            },
        }
    }
}

/// Completes a fee quote once the fee asset's decimals are known: the fee is
/// converted exactly once and collected now if it is within the preferred cap.
pub fn complete_fee_quote(pending: PendingConversion, decimals: u32) -> (r: Result<
    FeeDecision,
    ContractError,
>)
    ensures
        r matches Ok(d) ==> Ok::<FeeDecisionView, ContractError>(d@) == quote_finish_spec(
            pending@,
            decimals,
        ),
        r matches Err(e) ==> Err::<FeeDecisionView, ContractError>(e) == quote_finish_spec(
            pending@,
            decimals,
        ),
{
    let in_asset = convert_base_to_asset(pending.fee_in_base, pending.rate, decimals)?;
    if in_asset > pending.max_total_fee {
        return Ok(
            FeeDecision::CannotProceed(
                CannotProceedData {
                    reason: CannotProceedReason::FeeExceedsMaximum,
                    fee_asset: Some(pending.asset),
                    total_fee_in_base: pending.fee_in_base,
                    total_fee_in_asset: Some(in_asset),
                    max_total_fee: Some(pending.max_total_fee),
                    max_deferred_fee: pending.max_deferred_fee,
                },
            ),
        );
    }
    Ok(
        FeeDecision::CollectNow(
            CollectNowData {
                fee_asset: pending.asset,
                total_fee_in_base: pending.fee_in_base,
                total_fee_in_asset: in_asset,
                max_total_fee: pending.max_total_fee,
            },
        ),
    )
}

/// What handling a transaction fee does: the asset and amount taken from
/// the wallet now, if any, and the wallet's deferred fee afterwards.
pub struct FeeSettlement {
    pub take: Option<(Address, i128)>,
    pub new_deferred_fee: i128,
}

/// The error that a decision which cannot proceed is reported as.
pub open spec fn cannot_proceed_error(reason: CannotProceedReason) -> ContractError {
    match reason {
        CannotProceedReason::UnsupportedFeeAsset => ContractError::UnsupportedFeeAsset,
        CannotProceedReason::FeeExceedsMaximum => ContractError::FeeExceedsMaximum,
        CannotProceedReason::MaxDeferredFeeExceeded => ContractError::MaxDeferredFeeExceeded,
        CannotProceedReason::InvalidMaxTotalFee => ContractError::InvalidMaxTotalFee,
    }
}

/// Carries out a fee decision: a fee collected now clears the wallet's
/// deferred balance, a deferred fee becomes the new deferred balance, and a
/// fee that cannot proceed is reported as the matching error.
pub fn handle_transaction_fee(decision: FeeDecision) -> (r: Result<FeeSettlement, ContractError>)
    ensures
        match decision@ {
            FeeDecisionView::CollectNow { fee_asset, total_fee_in_asset, .. } => (r matches Ok(s)
                && s.new_deferred_fee == 0 && (s.take matches Some(t) && t.0@ == fee_asset && t.1
                == total_fee_in_asset)),
            FeeDecisionView::Defer { updated_deferred_fee, .. } => (r matches Ok(s)
                && s.new_deferred_fee == updated_deferred_fee && s.take is None),
            FeeDecisionView::CannotProceed { reason, .. } => r == Err::<FeeSettlement, ContractError>(
                cannot_proceed_error(reason),
            ),
        },
{
    match decision {
        FeeDecision::CollectNow(data) => Ok(
            FeeSettlement { take: Some((data.fee_asset, data.total_fee_in_asset)), new_deferred_fee: 0 },
        ),
        FeeDecision::Defer(data) => Ok(
            FeeSettlement { take: None, new_deferred_fee: data.updated_deferred_fee },
        ),
        FeeDecision::CannotProceed(data) => match data.reason {
            CannotProceedReason::UnsupportedFeeAsset => Err(ContractError::UnsupportedFeeAsset),
            CannotProceedReason::FeeExceedsMaximum => Err(ContractError::FeeExceedsMaximum),
            CannotProceedReason::MaxDeferredFeeExceeded => Err(ContractError::MaxDeferredFeeExceeded),
            CannotProceedReason::InvalidMaxTotalFee => Err(ContractError::InvalidMaxTotalFee),
        },
    }
}

/// The amount that would be collected now, when the quote resolves to a
/// fee collected now; `None` when it is deferred, cannot proceed or fails.
pub fn get_collect_now_fee_amount(quote: Result<FeeDecision, ContractError>) -> (r: Option<i128>)
    ensures
        match quote {
            Ok(d) => match d@ {
                FeeDecisionView::CollectNow { total_fee_in_asset, .. } => r == Some(
                    total_fee_in_asset,
                ),
                _ => r is None,
            },
            Err(_) => r is None,
        },
{
    match quote {
        Ok(FeeDecision::CollectNow(data)) => Some(data.total_fee_in_asset),
        _ => None,
    }
}

/// The stored conversion rate of a fee asset, which must be supported.
pub fn read_fee_asset_rate(asset_supported: bool, stored_rate: Option<i128>) -> (r: Result<
    i128,
    ContractError,
>)
    ensures
        !asset_supported ==> r == Err::<i128, ContractError>(ContractError::UnsupportedFeeAsset),
        asset_supported ==> r == (match stored_rate {
            Some(v) => Ok::<i128, ContractError>(v),
            None => Err(ContractError::FeeRateNotSet),
        }),
{
    if !asset_supported {
        return Err(ContractError::UnsupportedFeeAsset);
    }
    match stored_rate {
        Some(v) => Ok(v),
        None => Err(ContractError::FeeRateNotSet),
    }
}

/// Checks the rate given when an asset is added as a fee asset.
pub fn check_new_fee_asset_rate(rate: i128) -> (r: Result<(), ContractError>)
    ensures
        r is Err <==> rate <= 0,
        r is Err ==> r == Err::<(), ContractError>(ContractError::InvalidAmount),
{
    if rate <= 0 {
        return Err(ContractError::InvalidAmount);
    }
    Ok(())
}

/// Checks a rate update: the rate must be positive and the asset supported.
pub fn check_fee_asset_rate_update(rate: i128, asset_supported: bool) -> (r: Result<(), ContractError>)
    ensures
        rate <= 0 ==> r == Err::<(), ContractError>(ContractError::InvalidAmount),
        rate > 0 && !asset_supported ==> r == Err::<(), ContractError>(
            ContractError::UnsupportedFeeAsset,
        ),
        rate > 0 && asset_supported ==> r is Ok,
{
    if rate <= 0 {
        return Err(ContractError::InvalidAmount);
    }
    if !asset_supported {
        return Err(ContractError::UnsupportedFeeAsset);
    }
    Ok(())
}

/// First step of settling a wallet's existing deferred fee balance in the
/// preferred asset: `None` when there is nothing to settle, otherwise the
/// conversion that needs the asset's decimals.
pub fn settle_wallet_fee(
    fee_pref: FeePreference,
    asset_supported: bool,
    deferred_fee: i128,
    asset_rate: Option<i128>,
) -> (r: Result<Option<PendingConversion>, ContractError>)
    ensures
        fee_pref.max_total_fee <= 0 ==> r == Err::<Option<PendingConversion>, ContractError>(
            ContractError::InvalidMaxTotalFee,
        ),
        fee_pref.max_total_fee > 0 && !asset_supported ==> r == Err::<
            Option<PendingConversion>,
            ContractError,
        >(ContractError::UnsupportedFeeAsset),
        fee_pref.max_total_fee > 0 && asset_supported && deferred_fee < 0 ==> r == Err::<
            Option<PendingConversion>,
            ContractError,
        >(ContractError::InvalidDeferredFee),
        fee_pref.max_total_fee > 0 && asset_supported && deferred_fee == 0 ==> r == Ok::<
            Option<PendingConversion>,
            ContractError,
        >(None),
        fee_pref.max_total_fee > 0 && asset_supported && deferred_fee > 0 && asset_rate is None
            ==> r == Err::<Option<PendingConversion>, ContractError>(ContractError::FeeRateNotSet),
        fee_pref.max_total_fee > 0 && asset_supported && deferred_fee > 0 && asset_rate is Some
            ==> (r matches Ok(Some(p)) && p@ == (PendingConversionView {
            asset: fee_pref.asset@,
            fee_in_base: deferred_fee,
            rate: asset_rate->Some_0,
            max_total_fee: fee_pref.max_total_fee,
            max_deferred_fee: 0,
        })),
{
    if fee_pref.max_total_fee <= 0 {
        return Err(ContractError::InvalidMaxTotalFee);
    }
    if !asset_supported {
        return Err(ContractError::UnsupportedFeeAsset);
    }
    if deferred_fee < 0 {
        return Err(ContractError::InvalidDeferredFee);
    }
    if deferred_fee == 0 {
        return Ok(None);
    }
    match asset_rate {
        None => Err(ContractError::FeeRateNotSet),
        Some(rate) => Ok(
            Some(
                PendingConversion {
                    asset: fee_pref.asset,
                    fee_in_base: deferred_fee,
                    rate,
                    max_total_fee: fee_pref.max_total_fee,
                    max_deferred_fee: 0,
                },
            ),
        ),
    }
}

/// Completes a settlement once the asset's decimals are known: the amount to
/// take from the payer, after which the wallet's deferred fee is cleared.
pub fn complete_settlement(pending: &PendingConversion, decimals: u32) -> (r: Result<
    i128,
    ContractError,
>)
    ensures
        match convert_spec(pending.fee_in_base, pending.rate, decimals) {
            Err(e) => r == Err::<i128, ContractError>(e),
            Ok(v) => if v > pending.max_total_fee {
                r == Err::<i128, ContractError>(ContractError::FeeExceedsMaximum)
            } else {
                r == Ok::<i128, ContractError>(v)
            },
        },
{
    let in_asset = convert_base_to_asset(pending.fee_in_base, pending.rate, decimals)?;
    if in_asset > pending.max_total_fee {
        return Err(ContractError::FeeExceedsMaximum);
    }
    Ok(in_asset)
}

/// Checks a withdrawal of collected fees before the fee balance is read.
pub fn check_withdrawal(amount: i128, asset_supported: bool) -> (r: Result<(), ContractError>)
    ensures
        amount <= 0 ==> r == Err::<(), ContractError>(ContractError::InvalidAmount),
        amount > 0 && !asset_supported ==> r == Err::<(), ContractError>(
            ContractError::UnsupportedFeeAsset,
        ),
        amount > 0 && asset_supported ==> r is Ok,
{
    if amount <= 0 {
        return Err(ContractError::InvalidAmount);
    }
    if !asset_supported {
        return Err(ContractError::UnsupportedFeeAsset);
    }
    Ok(())
}

/// Checks that a withdrawal does not exceed the fee manager's balance.
pub fn check_withdrawal_balance(amount: i128, fee_balance: i128) -> (r: Result<(), ContractError>)
    ensures
        r is Err <==> amount > fee_balance,
        r is Err ==> r == Err::<(), ContractError>(ContractError::InvalidAmount),
{
    if amount > fee_balance {
        return Err(ContractError::InvalidAmount);
    }
    Ok(())
}

/// Every configuration the fee manager accepts, at creation or through
/// either setter, keeps `0 < base_fee <= max_deferred_fee`.
pub proof fn lemma_fee_config_preserved(m0: FeeManager, fee: i128)
    requires
        fee_config_valid(m0.base_fee, m0.max_deferred_fee),
    ensures
        0 < fee <= m0.max_deferred_fee->Some_0 ==> fee_config_valid(Some(fee), m0.max_deferred_fee),
        m0.base_fee->Some_0 <= fee ==> fee_config_valid(m0.base_fee, Some(fee)),
{
}

/// A deferred fee never takes a wallet's balance above the maximum, and a
/// fee collected now never exceeds the wallet's stated cap.
pub proof fn lemma_quote_respects_limits(
    base_fee: Option<i128>,
    max_deferred_fee: Option<i128>,
    deferred_fee: i128,
    pref: Option<FeePreferenceView>,
    asset_supported: bool,
    asset_rate: Option<i128>,
    decimals: u32,
)
    ensures
        quote_spec(base_fee, max_deferred_fee, deferred_fee, pref, asset_supported, asset_rate, decimals)
            matches Ok(FeeDecisionView::Defer { updated_deferred_fee, max_deferred_fee: m })
            ==> updated_deferred_fee <= m && max_deferred_fee == Some(m) && pref is None
            && updated_deferred_fee == deferred_fee + base_fee->Some_0,
        quote_spec(base_fee, max_deferred_fee, deferred_fee, pref, asset_supported, asset_rate, decimals)
            matches Ok(FeeDecisionView::CollectNow { total_fee_in_asset, max_total_fee, fee_asset, .. })
            ==> total_fee_in_asset <= max_total_fee && (pref matches Some(p) && p.max_total_fee
            == max_total_fee && p.asset == fee_asset) && asset_supported,
{
}

} // verus!
