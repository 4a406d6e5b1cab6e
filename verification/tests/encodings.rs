use socketfi::address::Address;
use socketfi::byte_order::bytes_lt;
use socketfi::errors::{AccountError, ContractError, RegistryError, UpgradeError, WalletError};
use socketfi::tokens::{approval_expiration, read_allowance_expiration};
use socketfi::webauthn::{
    base64url_encode_no_pad, json_string_field_equals, validate_passkey_assertion_data,
    verify_authenticator_data, verify_webauthn_client_data,
};
use socketfi::xdr::{
    address_to_xdr, push_xdr_bytes, push_xdr_i128, push_xdr_string, push_xdr_symbol, push_xdr_u32,
    push_xdr_u64,
};
use soroban_sdk::testutils::Address as _;
use soroban_sdk::xdr::ToXdr;
use soroban_sdk::{Bytes, Env, String as HostString, Symbol};

fn bytes_of(b: &Bytes) -> Vec<u8> {
    (0..b.len()).map(|i| b.get(i).unwrap()).collect()
}

#[test]
fn xdr_values_match_the_host() {
    let env = Env::default();
    let mut out = Vec::new();
    push_xdr_u32(&mut out, 0xdead_beef);
    assert_eq!(out, bytes_of(&0xdead_beefu32.to_xdr(&env)));
    let mut out = Vec::new();
    push_xdr_u64(&mut out, 0x0102_0304_0506_0708);
    assert_eq!(out, bytes_of(&0x0102_0304_0506_0708u64.to_xdr(&env)));
    for v in [0i128, 1, -1, i128::MAX, i128::MIN, -170_141_183_460_469_231_731_687_303_715_884_105_7] {
        let mut out = Vec::new();
        push_xdr_i128(&mut out, v);
        assert_eq!(out, bytes_of(&v.to_xdr(&env)));
    }
    for s in ["", "x", "alice", "telegram", "a much longer string value"] {
        let mut out = Vec::new();
        push_xdr_string(&mut out, &s.as_bytes().to_vec());
        assert_eq!(out, bytes_of(&HostString::from_str(&env, s).to_xdr(&env)));
        let mut out = Vec::new();
        push_xdr_bytes(&mut out, &s.as_bytes().to_vec());
        assert_eq!(out, bytes_of(&Bytes::from_slice(&env, s.as_bytes()).to_xdr(&env)));
    }
    for s in ["TESTNET", "PUBLIC", "x"] {
        let mut out = Vec::new();
        push_xdr_symbol(&mut out, &s.as_bytes().to_vec());
        assert_eq!(out, bytes_of(&Symbol::new(&env, s).to_xdr(&env)));
    }
    let host = soroban_sdk::Address::generate(&env);
    let x = bytes_of(&host.to_xdr(&env));
    let ours = if x[7] == 1 {
        Address::contract(x[8..40].to_vec())
    } else {
        Address::account(x[12..44].to_vec())
    };
    assert_eq!(address_to_xdr(&ours), x);
    let account = Address::account(vec![5u8; 32]);
    let mut expected = vec![0, 0, 0, 18, 0, 0, 0, 0, 0, 0, 0, 0];
    expected.extend_from_slice(&[5u8; 32]);
    assert_eq!(address_to_xdr(&account), expected);
}

#[test]
fn byte_strings_order_lexicographically() {
    assert!(bytes_lt(&vec![1, 2], &vec![1, 3]));
    assert!(!bytes_lt(&vec![1, 3], &vec![1, 2]));
    assert!(bytes_lt(&vec![1], &vec![1, 0]));
    assert!(!bytes_lt(&vec![1, 0], &vec![1]));
    assert!(!bytes_lt(&vec![4, 4], &vec![4, 4]));
    assert!(bytes_lt(&Vec::new(), &vec![0]));
    assert!(bytes_lt(&vec![0, 255], &vec![1]));
}

#[test]
fn base64url_has_no_padding() {
    assert_eq!(base64url_encode_no_pad(&Vec::new()), Vec::<u8>::new());
    assert_eq!(base64url_encode_no_pad(&b"f".to_vec()), b"Zg".to_vec());
    assert_eq!(base64url_encode_no_pad(&b"fo".to_vec()), b"Zm8".to_vec());
    assert_eq!(base64url_encode_no_pad(&b"foo".to_vec()), b"Zm9v".to_vec());
    assert_eq!(base64url_encode_no_pad(&b"foobar".to_vec()), b"Zm9vYmFy".to_vec());
    assert_eq!(base64url_encode_no_pad(&vec![0xfb, 0xff]), b"-_8".to_vec());
    assert_eq!(
        base64url_encode_no_pad(&vec![7u8; 32]),
        b"BwcHBwcHBwcHBwcHBwcHBwcHBwcHBwcHBwcHBwcHBwc".to_vec()
    );
}

#[test]
fn json_fields_are_matched_at_their_first_occurrence() {
    let json = br#"{"type":"webauthn.get","challenge":"abc","type":"other"}"#.to_vec();
    assert!(json_string_field_equals(&json, &b"type".to_vec(), &b"webauthn.get".to_vec()));
    assert!(!json_string_field_equals(&json, &b"type".to_vec(), &b"other".to_vec()));
    assert!(json_string_field_equals(&json, &b"challenge".to_vec(), &b"abc".to_vec()));
    assert!(!json_string_field_equals(&json, &b"challenge".to_vec(), &b"ab".to_vec()));
    assert!(!json_string_field_equals(&json, &b"origin".to_vec(), &b"x".to_vec()));
}

#[test]
fn webauthn_assertions_are_checked() {
    let challenge = vec![7u8; 32];
    let good = br#"{"type":"webauthn.get","challenge":"BwcHBwcHBwcHBwcHBwcHBwcHBwcHBwcHBwcHBwcHBwc"}"#.to_vec();
    assert_eq!(verify_webauthn_client_data(&challenge, &good), Ok(()));
    let wrong_type = br#"{"type":"webauthn.create","challenge":"BwcHBwcHBwcHBwcHBwcHBwcHBwcHBwcHBwcHBwcHBwc"}"#.to_vec();
    assert_eq!(verify_webauthn_client_data(&challenge, &wrong_type), Err(WalletError::InvalidClientDataType));
    assert_eq!(verify_webauthn_client_data(&vec![8u8; 32], &good), Err(WalletError::InvalidChallenge));
    assert_eq!(verify_webauthn_client_data(&challenge, &vec![b' '; 4097]), Err(WalletError::ClientDataTooLarge));
    let rp = vec![3u8; 32];
    let mut ad = vec![3u8; 32];
    ad.extend_from_slice(&[5, 0, 0, 0, 0]);
    assert_eq!(verify_authenticator_data(&rp, &ad), Ok(()));
    assert_eq!(verify_authenticator_data(&rp, &ad[..32].to_vec()), Err(WalletError::InvalidAuthenticatorData));
    let mut no_up = ad.clone();
    no_up[32] = 4;
    assert_eq!(verify_authenticator_data(&rp, &no_up), Err(WalletError::UserPresenceRequired));
    let mut no_uv = ad.clone();
    no_uv[32] = 1;
    assert_eq!(verify_authenticator_data(&rp, &no_uv), Err(WalletError::UserVerificationRequired));
    assert_eq!(verify_authenticator_data(&vec![4u8; 32], &ad), Err(WalletError::InvalidRpIdHash));
    assert_eq!(validate_passkey_assertion_data(&challenge, &rp, &ad, &good), Ok(()));
}

#[test]
fn allowance_expiration_defaults_to_seventeen_thousand_ledgers() {
    assert_eq!(read_allowance_expiration(None), 17_000);
    assert_eq!(read_allowance_expiration(Some(5)), 5);
    assert_eq!(approval_expiration(None, 1_000), 18_000);
    assert_eq!(approval_expiration(Some(10), 1_000), 1_010);
}

#[test]
fn error_codes_are_stable() {
    assert_eq!(AccountError::InvalidRpIdHash.code() > 0, true);
    assert_eq!(RegistryError::UseridAlreadyMapped.code(), 443);
    assert_eq!(RegistryError::IdentityNotFound.code(), 4001);
    assert_eq!(RegistryError::DuplicateValidator.code(), 101);
    assert_eq!(UpgradeError::UpgradeTypeNotFound.code(), 1008);
    assert_eq!(ContractError::UnsupportedFeeAsset.code(), 901);
}

#[test]
fn storage_is_extended_a_day_before_it_lapses() {
    assert_eq!(socketfi::ttl::ttl_extension(6_312_000), (6_312_000 - 17_280, 6_312_000));
    assert_eq!(socketfi::ttl::ttl_extension(17_280), (0, 17_280));
}
