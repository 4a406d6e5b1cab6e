use socketfi::address::Address;
use socketfi::errors::{RegistryError, UpgradeError};
use socketfi::payments::{
    check_claim, checked_claimable_total, claim_one, generate_payment_id, get_claimable_total, refund_one,
    PaymentResult, PaymentRoute, PaymentStatus, PendingPayment, SocialPayments,
};
use soroban_sdk::testutils::Address as _;
use soroban_sdk::xdr::ToXdr;
use soroban_sdk::{Bytes, BytesN, Env, String as HostString};

fn bytes_of(b: &Bytes) -> Vec<u8> {
    (0..b.len()).map(|i| b.get(i).unwrap()).collect()
}

fn lib_address(env: &Env, a: &soroban_sdk::Address) -> Address {
    let bytes = bytes_of(&a.to_xdr(env));
    if bytes[7] == 1 {
        Address::contract(bytes[8..40].to_vec())
    } else {
        Address::account(bytes[12..44].to_vec())
    }
}

fn asset() -> Address {
    Address::contract(vec![40u8; 32])
}

fn sender() -> Address {
    Address::account(vec![41u8; 32])
}

fn router() -> SocialPayments {
    let mut r = SocialPayments::new();
    assert_eq!(r.initialize(&Address::account(vec![1u8; 32]), &Address::contract(vec![2u8; 32])), Ok(()));
    r.add_supported_asset(&asset());
    r
}

fn pay(
    env: &Env,
    r: &mut SocialPayments,
    platform: &[u8],
    user: &[u8],
    amount: i128,
    duration: Option<u64>,
    resolved: Option<Address>,
    now: u64,
) -> Result<PaymentRoute, RegistryError> {
    r.pay_to_social(env, &sender(), &platform.to_vec(), &user.to_vec(), &asset(), amount, duration, &resolved, now)
}

fn pending(amount: i128, expires_at: u64, status: PaymentStatus, asset: Address) -> PendingPayment {
    PendingPayment {
        payment_id: vec![9u8; 32],
        sender: sender(),
        asset,
        amount,
        platform: b"x".to_vec(),
        user_id: b"alice".to_vec(),
        created_at: 0,
        expires_at,
        status,
        claimed_by: None,
    }
}

#[test]
fn payment_checks_come_first() {
    let env = Env::default();
    let mut r = router();
    let other = Address::contract(vec![77u8; 32]);
    let res = r.pay_to_social(&env, &sender(), &b"x".to_vec(), &b"alice".to_vec(), &other, 5, None, &None, 0);
    assert!(matches!(res, Err(RegistryError::UnsupportedAsset)));
    assert!(matches!(pay(&env, &mut r, b"x", b"alice", 0, None, None, 0), Err(RegistryError::InvalidAmount)));
    assert!(matches!(pay(&env, &mut r, b"x", b"alice", -3, None, None, 0), Err(RegistryError::InvalidAmount)));
    assert!(matches!(pay(&env, &mut r, b"x", b"Alice", 5, None, None, 0), Err(RegistryError::UpperNotAllowed)));
    assert!(matches!(pay(&env, &mut r, b"x", b"", 5, None, None, 0), Err(RegistryError::InvalidUserId)));
    assert!(matches!(pay(&env, &mut r, b"fax", b"alice", 5, None, None, 0), Err(RegistryError::PlatformNotSupported)));
    assert_eq!(r.check_payment(&b"alice".to_vec(), &asset(), 5), Ok(()));
    assert_eq!(r.get_nonce(), 0);
}

#[test]
fn bound_identity_is_paid_directly() {
    let env = Env::default();
    let mut r = router();
    let wallet = Address::contract(vec![50u8; 32]);
    let route = pay(&env, &mut r, b"x", b"alice", 5, None, Some(wallet.duplicate()), 100).unwrap();
    match route.result() {
        PaymentResult::Direct(a) => assert!(a.same(&wallet)),
        PaymentResult::Pending(_) => panic!("expected a direct payment"),
    }
    assert_eq!(r.get_nonce(), 0);
}

#[test]
fn unbound_identity_gets_a_pending_payment() {
    let env = Env::default();
    let mut r = router();
    let route = pay(&env, &mut r, b"x", b"alice", 5, None, None, 100).unwrap();
    let (p, key) = match route {
        PaymentRoute::Pending(p, k) => (p, k),
        PaymentRoute::Direct(_) => panic!("expected a pending payment"),
    };
    assert_eq!(p.amount, 5);
    assert_eq!(p.created_at, 100);
    assert_eq!(p.expires_at, 100 + 604_800);
    assert_eq!(p.status, PaymentStatus::Pending);
    assert!(p.claimed_by.is_none());
    assert!(p.sender.same(&sender()));
    let salt = Bytes::from_slice(&env, b"userid_wallet\0x\0alice");
    let expected_key: BytesN<32> = env.crypto().sha256(&salt).into();
    assert_eq!(key, expected_key.to_array().to_vec());
    assert_eq!(r.get_nonce(), 1);
    assert_eq!(p.payment_id, generate_payment_id(&env, &sender(), &asset(), 5, &b"x".to_vec(), &b"alice".to_vec(), 0));
    let second = pay(&env, &mut r, b"x", b"alice", 5, Some(60), None, 100).unwrap();
    match second {
        PaymentRoute::Pending(q, _) => {
            assert_eq!(q.expires_at, 160);
            assert_ne!(q.payment_id, p.payment_id);
        }
        PaymentRoute::Direct(_) => panic!("expected a pending payment"),
    }
    assert_eq!(r.get_nonce(), 2);
}

#[test]
fn payment_id_matches_host_encoding() {
    let env = Env::default();
    let s = soroban_sdk::Address::generate(&env);
    let a = soroban_sdk::Address::generate(&env);
    let id = generate_payment_id(&env, &lib_address(&env, &s), &lib_address(&env, &a), -123_456_789_012_345, &b"x".to_vec(), &b"alice".to_vec(), 7);
    let mut data = Bytes::new(&env);
    data.append(&HostString::from_str(&env, "social_payment").to_xdr(&env));
    data.append(&s.to_xdr(&env));
    data.append(&a.to_xdr(&env));
    data.append(&(-123_456_789_012_345i128).to_xdr(&env));
    data.append(&HostString::from_str(&env, "x").to_xdr(&env));
    data.append(&HostString::from_str(&env, "alice").to_xdr(&env));
    data.append(&7u64.to_xdr(&env));
    let expected: BytesN<32> = env.crypto().sha256(&data).into();
    assert_eq!(id, expected.to_array().to_vec());
}

#[test]
fn claims_need_a_pending_unexpired_payment_and_the_bound_wallet() {
    let claimer = Address::contract(vec![50u8; 32]);
    let p = pending(5, 1000, PaymentStatus::Pending, asset());
    assert_eq!(check_claim(&p, 999), Ok(()));
    assert_eq!(check_claim(&p, 1000), Err(RegistryError::Expired));
    assert!(matches!(claim_one(&p, &claimer, 1000, &Some(claimer.duplicate())), Err(RegistryError::Expired)));
    assert!(matches!(claim_one(&p, &claimer, 10, &None), Err(RegistryError::Unauthorized)));
    assert!(matches!(
        claim_one(&p, &claimer, 10, &Some(Address::contract(vec![51u8; 32]))),
        Err(RegistryError::Unauthorized)
    ));
    let claimed = claim_one(&p, &claimer, 999, &Some(claimer.duplicate())).unwrap();
    assert_eq!(claimed.status, PaymentStatus::Claimed);
    assert!(claimed.claimed_by.as_ref().unwrap().same(&claimer));
    assert_eq!(claimed.amount, 5);
    // A settled payment is final.
    assert!(matches!(claim_one(&claimed, &claimer, 10, &Some(claimer.duplicate())), Err(RegistryError::NotClaimable)));
    assert_eq!(check_claim(&claimed, 10), Err(RegistryError::NotClaimable));
    assert!(matches!(refund_one(&claimed, &sender(), 2000), Err(RegistryError::NotRefundable)));
}

#[test]
fn refunds_need_the_sender_and_an_expired_payment() {
    let p = pending(5, 1000, PaymentStatus::Pending, asset());
    assert!(matches!(refund_one(&p, &Address::account(vec![3u8; 32]), 2000), Err(RegistryError::Unauthorized)));
    assert!(matches!(refund_one(&p, &sender(), 999), Err(RegistryError::NotExpired)));
    let refunded = refund_one(&p, &sender(), 1000).unwrap();
    assert_eq!(refunded.status, PaymentStatus::Refunded);
    assert!(refunded.claimed_by.is_none());
    assert!(matches!(refund_one(&refunded, &sender(), 3000), Err(RegistryError::NotRefundable)));
    let claimer = Address::contract(vec![50u8; 32]);
    assert!(matches!(claim_one(&refunded, &claimer, 10, &Some(claimer.duplicate())), Err(RegistryError::NotClaimable)));
    // At the expiry time a payment can only be refunded, never claimed.
    assert!(matches!(claim_one(&p, &claimer, 1000, &Some(claimer.duplicate())), Err(RegistryError::Expired)));
}

#[test]
fn claimable_total_counts_pending_unexpired_payments_in_the_asset() {
    let other = Address::contract(vec![77u8; 32]);
    let payments = vec![
        pending(5, 1000, PaymentStatus::Pending, asset()),
        pending(7, 2000, PaymentStatus::Pending, asset()),
        pending(11, 500, PaymentStatus::Pending, asset()),
        pending(13, 2000, PaymentStatus::Claimed, asset()),
        pending(17, 2000, PaymentStatus::Pending, other),
    ];
    assert_eq!(get_claimable_total(&payments, 600, &asset()), 12);
    assert_eq!(get_claimable_total(&payments, 1000, &asset()), 7);
    assert_eq!(get_claimable_total(&payments, 0, &asset()), 23);
    assert_eq!(get_claimable_total(&Vec::new(), 0, &asset()), 0);
}

#[test]
fn router_assets_and_initialization() {
    let mut r = router();
    assert_eq!(r.get_supported_assets().len(), 1);
    r.add_supported_asset(&asset());
    assert_eq!(r.get_supported_assets().len(), 1);
    r.remove_supported_asset(&asset());
    assert!(r.get_supported_assets().is_empty());
    assert_eq!(
        r.initialize(&Address::account(vec![1u8; 32]), &Address::contract(vec![2u8; 32])),
        Err(UpgradeError::AlreadyInitialized)
    );
}

#[test]
fn supported_assets_come_in_address_order() {
    let mut r = SocialPayments::new();
    r.add_supported_asset(&Address::contract(vec![9u8; 32]));
    r.add_supported_asset(&Address::account(vec![5u8; 32]));
    r.add_supported_asset(&Address::contract(vec![1u8; 32]));
    r.add_supported_asset(&Address::contract(vec![9u8; 32]));
    let got: Vec<(bool, Vec<u8>)> = r
        .get_supported_assets()
        .iter()
        .map(|a| (a.kind == socketfi::address::AddressKind::Contract, a.key.clone()))
        .collect();
    assert_eq!(
        got,
        vec![(false, vec![5u8; 32]), (true, vec![1u8; 32]), (true, vec![9u8; 32])]
    );
    r.remove_supported_asset(&Address::contract(vec![1u8; 32]));
    assert_eq!(r.get_supported_assets().len(), 2);
}

#[test]
fn supported_assets_follow_the_host_map_order() {
    let env = Env::default();
    let mut map = soroban_sdk::Map::<soroban_sdk::Address, ()>::new(&env);
    let mut r = SocialPayments::new();
    for _ in 0..6 {
        let a = soroban_sdk::Address::generate(&env);
        map.set(a.clone(), ());
        r.add_supported_asset(&lib_address(&env, &a));
    }
    let host: Vec<Vec<u8>> = map.keys().iter().map(|a| lib_address(&env, &a).key).collect();
    let ours: Vec<Vec<u8>> = r.get_supported_assets().iter().map(|a| a.key.clone()).collect();
    assert_eq!(ours, host);
}

#[test]
fn claimable_total_overflow_is_reported() {
    let payments = vec![
        pending(i128::MAX, 2000, PaymentStatus::Pending, asset()),
        pending(1, 2000, PaymentStatus::Pending, asset()),
    ];
    assert_eq!(checked_claimable_total(&payments, 0, &asset()), None);
    let payments = vec![
        pending(i128::MAX, 2000, PaymentStatus::Pending, asset()),
        pending(-1, 2000, PaymentStatus::Pending, asset()),
        pending(1, 2000, PaymentStatus::Pending, asset()),
    ];
    assert_eq!(checked_claimable_total(&payments, 0, &asset()), Some(i128::MAX));
    let payments = vec![
        pending(5, 500, PaymentStatus::Pending, asset()),
        pending(7, 2000, PaymentStatus::Pending, asset()),
    ];
    assert_eq!(checked_claimable_total(&payments, 600, &asset()), Some(7));
}
