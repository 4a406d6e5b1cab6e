use socketfi::address::Address;
use socketfi::errors::ContractError;
use socketfi::fee_types::{CannotProceedReason, FeeDecision, FeePreference};
use socketfi::fees::{
    check_fee_asset_rate_update, check_new_fee_asset_rate, check_withdrawal,
    check_withdrawal_balance, complete_fee_quote, complete_settlement, convert_base_to_asset,
    get_collect_now_fee_amount, handle_transaction_fee, read_fee_asset_rate, settle_wallet_fee,
    FeeManager, FeeQuote, PRECISION,
};

fn usdc() -> Address {
    Address::contract(vec![30u8; 32])
}

fn pref(max: i128) -> Option<FeePreference> {
    Some(FeePreference { asset: usdc(), max_total_fee: max })
}

#[test]
fn conversion_rounds_up_to_whole_asset_units() {
    // One base unit at a rate of one converts to one asset unit at 7 decimals.
    assert_eq!(convert_base_to_asset(PRECISION, PRECISION, 7), Ok(10_000_000));
    // 0.5 base at rate 2.0 with 6 decimals is exactly 1.0.
    assert_eq!(convert_base_to_asset(5_000_000, 20_000_000, 6), Ok(1_000_000));
    // Any positive fee costs at least one unit.
    assert_eq!(convert_base_to_asset(1, 1, 0), Ok(1));
    // ceil(3 * 5 * 10 / 10^14) rounds up.
    assert_eq!(convert_base_to_asset(3, 5, 1), Ok(1));
    assert_eq!(convert_base_to_asset(100_000_000_000_000, 1, 0), Ok(1));
    assert_eq!(convert_base_to_asset(100_000_000_000_001, 1, 0), Ok(2));
    assert_eq!(convert_base_to_asset(0, 5, 7), Ok(0));
    assert_eq!(convert_base_to_asset(-1, 5, 7), Err(ContractError::InvalidAmount));
    assert_eq!(convert_base_to_asset(5, 0, 7), Err(ContractError::InvalidAmount));
    assert_eq!(convert_base_to_asset(5, 5, 39), Err(ContractError::MathOverflow));
    assert_eq!(convert_base_to_asset(i128::MAX / 2, 3, 0), Err(ContractError::MathOverflow));
    assert_eq!(convert_base_to_asset(i128::MAX, 1, 0), Err(ContractError::MathOverflow));
}

#[test]
fn fee_configuration_keeps_base_below_maximum() {
    assert!(matches!(FeeManager::new(0, 10), Err(ContractError::InvalidFeeConfig)));
    assert!(matches!(FeeManager::new(11, 10), Err(ContractError::InvalidFeeConfig)));
    let mut m = FeeManager::new(10, 100).unwrap();
    assert_eq!(m.read_base_fee(), Ok(10));
    assert_eq!(m.read_max_deferred_fee(), Ok(100));
    assert_eq!(m.set_base_fee(101), Err(ContractError::InvalidFeeConfig));
    assert_eq!(m.set_base_fee(-1), Err(ContractError::InvalidFeeConfig));
    assert_eq!(m.set_base_fee(100), Ok(()));
    assert_eq!(m.set_max_deferred_fee(99), Err(ContractError::InvalidFeeConfig));
    assert_eq!(m.set_max_deferred_fee(100), Ok(()));
    assert_eq!(m.read_base_fee(), Ok(100));
    let mut empty = FeeManager { base_fee: None, max_deferred_fee: None };
    assert_eq!(empty.set_base_fee(5), Err(ContractError::MaxDeferredFeeNotFound));
    assert_eq!(empty.set_max_deferred_fee(5), Err(ContractError::BaseFeeNotConfigured));
    assert_eq!(empty.read_base_fee(), Err(ContractError::BaseFeeNotConfigured));
}

#[test]
fn fees_are_deferred_up_to_the_maximum() {
    let m = FeeManager::new(10, 100).unwrap();
    match m.quote_transaction_fee(40, None, false, None) {
        Ok(FeeQuote::Decided(FeeDecision::Defer(d))) => {
            assert_eq!(d.updated_deferred_fee, 50);
            assert_eq!(d.max_deferred_fee, 100);
        }
        _ => panic!("expected a deferred fee"),
    }
    match m.quote_transaction_fee(95, None, false, None) {
        Ok(FeeQuote::Decided(FeeDecision::CannotProceed(c))) => {
            assert_eq!(c.reason, CannotProceedReason::MaxDeferredFeeExceeded);
            assert_eq!(c.total_fee_in_base, 105);
        }
        _ => panic!("expected a refusal"),
    }
    assert!(matches!(m.quote_transaction_fee(-1, None, false, None), Err(ContractError::InvalidDeferredFee)));
    assert!(matches!(m.quote_transaction_fee(i128::MAX, None, false, None), Err(ContractError::MathOverflow)));
    let unset = FeeManager { base_fee: None, max_deferred_fee: Some(5) };
    assert!(matches!(unset.quote_transaction_fee(0, None, false, None), Err(ContractError::BaseFeeNotConfigured)));
    let bad = FeeManager { base_fee: Some(10), max_deferred_fee: Some(5) };
    assert!(matches!(bad.quote_transaction_fee(0, None, false, None), Err(ContractError::InvalidFeeConfig)));
}

#[test]
fn fees_paid_now_are_converted_and_capped() {
    let m = FeeManager::new(PRECISION, 10 * PRECISION).unwrap();
    let pending = match m.quote_transaction_fee(PRECISION, pref(5_000_000), true, Some(PRECISION)) {
        Ok(FeeQuote::NeedsAssetDecimals(p)) => p,
        _ => panic!("expected a conversion"),
    };
    assert_eq!(pending.fee_in_base, 2 * PRECISION);
    match complete_fee_quote(pending, 6) {
        Ok(FeeDecision::CollectNow(c)) => {
            assert_eq!(c.total_fee_in_asset, 2_000_000);
            assert!(c.fee_asset.same(&usdc()));
            let d = FeeDecision::CollectNow(c);
            let s = handle_transaction_fee(d).unwrap();
            assert_eq!(s.new_deferred_fee, 0);
            assert_eq!(s.take.unwrap().1, 2_000_000);
        }
        _ => panic!("expected collection"),
    }
    let pending = match m.quote_transaction_fee(PRECISION, pref(1_000_000), true, Some(PRECISION)) {
        Ok(FeeQuote::NeedsAssetDecimals(p)) => p,
        _ => panic!("expected a conversion"),
    };
    match complete_fee_quote(pending, 6) {
        Ok(FeeDecision::CannotProceed(c)) => {
            assert_eq!(c.reason, CannotProceedReason::FeeExceedsMaximum);
            assert_eq!(c.total_fee_in_asset, Some(2_000_000));
            let r = handle_transaction_fee(FeeDecision::CannotProceed(c));
            assert!(matches!(r, Err(ContractError::FeeExceedsMaximum)));
        }
        _ => panic!("expected a refusal"),
    }
    match m.quote_transaction_fee(0, pref(0), true, Some(PRECISION)) {
        Ok(FeeQuote::Decided(FeeDecision::CannotProceed(c))) => {
            assert_eq!(c.reason, CannotProceedReason::InvalidMaxTotalFee)
        }
        _ => panic!("expected a refusal"),
    }
    match m.quote_transaction_fee(0, pref(5), false, Some(PRECISION)) {
        Ok(FeeQuote::Decided(FeeDecision::CannotProceed(c))) => {
            assert_eq!(c.reason, CannotProceedReason::UnsupportedFeeAsset)
        }
        _ => panic!("expected a refusal"),
    }
    assert!(matches!(m.quote_transaction_fee(0, pref(5), true, None), Err(ContractError::FeeRateNotSet)));
}

#[test]
fn collect_now_amount_only_for_collections() {
    let m = FeeManager::new(10, 100).unwrap();
    let defer = match m.quote_transaction_fee(0, None, false, None) {
        Ok(FeeQuote::Decided(d)) => d,
        _ => panic!("expected a decision"),
    };
    assert_eq!(get_collect_now_fee_amount(Ok(defer)), None);
    assert_eq!(get_collect_now_fee_amount(Err(ContractError::MathOverflow)), None);
    let pending = match m.quote_transaction_fee(0, pref(1_000), true, Some(PRECISION)) {
        Ok(FeeQuote::NeedsAssetDecimals(p)) => p,
        _ => panic!("expected a conversion"),
    };
    let d = complete_fee_quote(pending, 7);
    assert_eq!(get_collect_now_fee_amount(d), Some(10));
}

#[test]
fn settlement_and_withdrawal_checks() {
    let p = |max| FeePreference { asset: usdc(), max_total_fee: max };
    assert!(matches!(settle_wallet_fee(p(0), true, 5, Some(1)), Err(ContractError::InvalidMaxTotalFee)));
    assert!(matches!(settle_wallet_fee(p(9), false, 5, Some(1)), Err(ContractError::UnsupportedFeeAsset)));
    assert!(matches!(settle_wallet_fee(p(9), true, -5, Some(1)), Err(ContractError::InvalidDeferredFee)));
    assert!(matches!(settle_wallet_fee(p(9), true, 0, Some(1)), Ok(None)));
    assert!(matches!(settle_wallet_fee(p(9), true, 5, None), Err(ContractError::FeeRateNotSet)));
    let pending = settle_wallet_fee(p(3_000_000), true, 2 * PRECISION, Some(PRECISION)).unwrap().unwrap();
    assert_eq!(complete_settlement(&pending, 6), Ok(2_000_000));
    let pending = settle_wallet_fee(p(1_999_999), true, 2 * PRECISION, Some(PRECISION)).unwrap().unwrap();
    assert_eq!(complete_settlement(&pending, 6), Err(ContractError::FeeExceedsMaximum));
    assert_eq!(check_withdrawal(0, true), Err(ContractError::InvalidAmount));
    assert_eq!(check_withdrawal(5, false), Err(ContractError::UnsupportedFeeAsset));
    assert_eq!(check_withdrawal(5, true), Ok(()));
    assert_eq!(check_withdrawal_balance(6, 5), Err(ContractError::InvalidAmount));
    assert_eq!(check_withdrawal_balance(5, 5), Ok(()));
    assert_eq!(read_fee_asset_rate(false, Some(1)), Err(ContractError::UnsupportedFeeAsset));
    assert_eq!(read_fee_asset_rate(true, None), Err(ContractError::FeeRateNotSet));
    assert_eq!(read_fee_asset_rate(true, Some(7)), Ok(7));
    assert_eq!(check_new_fee_asset_rate(0), Err(ContractError::InvalidAmount));
    assert_eq!(check_new_fee_asset_rate(1), Ok(()));
    assert_eq!(check_fee_asset_rate_update(1, false), Err(ContractError::UnsupportedFeeAsset));
    assert_eq!(check_fee_asset_rate_update(-1, true), Err(ContractError::InvalidAmount));
    assert_eq!(check_fee_asset_rate_update(1, true), Ok(()));
}
