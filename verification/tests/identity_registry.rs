use socketfi::address::Address;
use socketfi::errors::{RegistryError, UpgradeError};
use socketfi::identity::{
    check_passkey_unbound, write_userid_wallet_map, manager_remove_id_wallet_map,
    passkey_wallet_key, remove_id_wallet_map, userid_payment_key, userid_wallet_key,
    validate_userid, wallet_mapped_key, Registry, ValidatorSignature,
};
use socketfi::platform::SocialPlatform;
use soroban_sdk::testutils::Address as _;
use soroban_sdk::xdr::ToXdr;
use soroban_sdk::{Bytes, BytesN, Env, String as HostString};

fn sha(env: &Env, data: &[u8]) -> Vec<u8> {
    let d: BytesN<32> = env.crypto().sha256(&Bytes::from_slice(env, data)).into();
    d.to_array().to_vec()
}

fn bytes_of(b: &Bytes) -> Vec<u8> {
    (0..b.len()).map(|i| b.get(i).unwrap()).collect()
}

fn lib_address(env: &Env, a: &soroban_sdk::Address) -> Address {
    let bytes = bytes_of(&a.to_xdr(env));
    if bytes[7] == 1 {
        Address::contract(bytes[8..40].to_vec())
    } else {
        Address::account(bytes[12..44].to_vec())
    }
}

fn sig(v: u8) -> ValidatorSignature {
    ValidatorSignature { validator: vec![v; 32], signature: vec![0u8; 64] }
}

#[test]
fn userid_validation_rules() {
    assert_eq!(validate_userid(&Vec::new()), Err(RegistryError::InvalidUserId));
    assert_eq!(validate_userid(&vec![b'a'; 257]), Err(RegistryError::MaxLengthExceeded));
    assert_eq!(validate_userid(&vec![b'a'; 256]), Ok(()));
    assert_eq!(validate_userid(&b"Alice".to_vec()), Err(RegistryError::UpperNotAllowed));
    assert_eq!(validate_userid(&b"al ice".to_vec()), Err(RegistryError::SpacesNotAllowed));
    assert_eq!(validate_userid(&b"al\tice".to_vec()), Err(RegistryError::SpacesNotAllowed));
    assert_eq!(validate_userid(&b"al\rice".to_vec()), Err(RegistryError::SpacesNotAllowed));
    // The first offending byte decides the error.
    assert_eq!(validate_userid(&b"a Bc".to_vec()), Err(RegistryError::SpacesNotAllowed));
    assert_eq!(validate_userid(&b"aB c".to_vec()), Err(RegistryError::UpperNotAllowed));
    assert_eq!(validate_userid(&b"alice_01@mail".to_vec()), Ok(()));
    assert_eq!(validate_userid(&"żółw".as_bytes().to_vec()), Ok(()));
}

#[test]
fn platforms_parse_exactly() {
    assert_eq!(SocialPlatform::is_platform_supported(&b"x".to_vec()), Ok(SocialPlatform::X));
    assert_eq!(
        SocialPlatform::is_platform_supported(&b"telegram".to_vec()),
        Ok(SocialPlatform::Telegram)
    );
    assert_eq!(
        SocialPlatform::is_platform_supported(&b"X".to_vec()),
        Err(RegistryError::PlatformNotSupported)
    );
    assert_eq!(
        SocialPlatform::is_platform_supported(&b"facebook".to_vec()),
        Err(RegistryError::PlatformNotSupported)
    );
    for p in [
        SocialPlatform::X,
        SocialPlatform::Discord,
        SocialPlatform::Telegram,
        SocialPlatform::Email,
        SocialPlatform::Tiktok,
        SocialPlatform::Sms,
    ] {
        assert_eq!(SocialPlatform::is_platform_supported(&p.as_str()), Ok(p));
    }
    assert_eq!(SocialPlatform::Discord.as_str(), b"discord".to_vec());
}

#[test]
fn identity_keys_hash_their_salts() {
    let env = Env::default();
    let key = userid_wallet_key(&env, &b"discord".to_vec(), &b"alice".to_vec()).unwrap();
    assert_eq!(key, sha(&env, b"userid_wallet\0discord\0alice"));
    assert_eq!(
        userid_payment_key(&env, &b"discord".to_vec(), &b"alice".to_vec()).unwrap(),
        key
    );
    // The separators keep ("ab", "c") and ("a", "bc") apart.
    assert_ne!(
        userid_wallet_key(&env, &b"x".to_vec(), &b"ab".to_vec()).unwrap(),
        userid_wallet_key(&env, &b"x".to_vec(), &b"a".to_vec()).unwrap()
    );
    assert_eq!(
        userid_wallet_key(&env, &b"myspace".to_vec(), &b"alice".to_vec()),
        Err(RegistryError::PlatformNotSupported)
    );
    assert_eq!(
        userid_wallet_key(&env, &b"x".to_vec(), &b"Alice".to_vec()),
        Err(RegistryError::UpperNotAllowed)
    );
    let passkey = vec![4u8; 65];
    let mut salt = b"passkey_wallet\0".to_vec();
    salt.extend_from_slice(&passkey);
    assert_eq!(passkey_wallet_key(&env, &passkey), Ok(sha(&env, &salt)));
    // Identity and passkey keys live in separate namespaces.
    assert_ne!(
        passkey_wallet_key(&env, &b"x\0alice".to_vec()).unwrap(),
        userid_wallet_key(&env, &b"x".to_vec(), &b"alice".to_vec()).unwrap()
    );
    let wallet_host = soroban_sdk::Address::generate(&env);
    let wallet = lib_address(&env, &wallet_host);
    let mut marker = b"x\0".to_vec();
    marker.extend_from_slice(&bytes_of(&wallet_host.to_xdr(&env)));
    assert_eq!(wallet_mapped_key(&env, &b"x".to_vec(), &wallet), sha(&env, &marker));
}

#[test]
fn validators_are_kept_in_ascending_order() {
    let mut r = Registry::new();
    r.add_validator(&vec![3u8; 32]);
    r.add_validator(&vec![1u8; 32]);
    r.add_validator(&vec![2u8; 32]);
    r.add_validator(&vec![1u8; 32]);
    assert_eq!(r.get_validators(), vec![vec![1u8; 32], vec![2u8; 32], vec![3u8; 32]]);
    assert_eq!(r.read_threshold(), 3);
    assert!(r.read_is_validator(&vec![2u8; 32]));
    r.remove_validator(&vec![2u8; 32]);
    r.remove_validator(&vec![9u8; 32]);
    assert_eq!(r.get_validators(), vec![vec![1u8; 32], vec![3u8; 32]]);
    assert!(!r.read_is_validator(&vec![2u8; 32]));
    assert_eq!(r.read_threshold(), 2);
}

#[test]
fn identity_binding_checks_in_order() {
    let env = Env::default();
    let registry = Address::contract(vec![1u8; 32]);
    let wallet = Address::contract(vec![2u8; 32]);
    let mut r = Registry::new();
    let bind = |r: &Registry, uid: &[u8], p: &[u8], sigs: Vec<ValidatorSignature>| {
        r.set_id_wallet_map(&env, &registry, &wallet, &uid.to_vec(), &p.to_vec(), &sigs)
            .map(|b| (b.key, b.platform, b.message))
    };
    assert_eq!(bind(&r, b"alice", b"myspace", vec![]), Err(RegistryError::PlatformNotSupported));
    assert_eq!(bind(&r, b"Alice", b"x", vec![]), Err(RegistryError::UpperNotAllowed));
    assert_eq!(bind(&r, b"alice", b"x", vec![]), Err(RegistryError::InvalidThreshold));
    r.add_validator(&vec![10u8; 32]);
    r.add_validator(&vec![11u8; 32]);
    assert_eq!(
        bind(&r, b"alice", b"x", vec![sig(10)]),
        Err(RegistryError::IncorrectNumberOfSignatures)
    );
    assert_eq!(bind(&r, b"alice", b"x", vec![sig(10), sig(12)]), Err(RegistryError::NotValidator));
    assert_eq!(
        bind(&r, b"alice", b"x", vec![sig(10), sig(10)]),
        Err(RegistryError::DuplicateValidator)
    );
    let (key, platform, _) = bind(&r, b"alice", b"x", vec![sig(11), sig(10)]).unwrap();
    assert_eq!(platform, SocialPlatform::X);
    assert_eq!(key, sha(&env, b"userid_wallet\0x\0alice"));
}

#[test]
fn identity_binding_message_matches_host_encoding() {
    let env = Env::default();
    let registry_host = soroban_sdk::Address::generate(&env);
    let wallet_host = soroban_sdk::Address::generate(&env);
    let registry = lib_address(&env, &registry_host);
    let wallet = lib_address(&env, &wallet_host);
    let mut r = Registry::new();
    r.add_validator(&vec![10u8; 32]);
    let b = r
        .set_id_wallet_map(&env, &registry, &wallet, &b"alice".to_vec(), &b"email".to_vec(), &vec![sig(10)])
        .unwrap();
    let mut message = Bytes::new(&env);
    message.append(&HostString::from_str(&env, "verify_identity_binding").to_xdr(&env));
    message.append(&registry_host.to_xdr(&env));
    message.append(&wallet_host.to_xdr(&env));
    message.append(&HostString::from_str(&env, "email").to_xdr(&env));
    message.append(&HostString::from_str(&env, "alice").to_xdr(&env));
    assert_eq!(b.message, bytes_of(&message));
}

#[test]
fn bindings_are_written_once() {
    let wallet = Address::contract(vec![5u8; 32]);
    let stored = write_userid_wallet_map(&None, &wallet).unwrap();
    assert_eq!(stored.key, wallet.key);
    assert!(matches!(
        write_userid_wallet_map(&Some(Address::contract(vec![6u8; 32])), &wallet),
        Err(RegistryError::UseridAlreadyMapped)
    ));
    assert_eq!(check_passkey_unbound(false), Ok(()));
    assert_eq!(check_passkey_unbound(true), Err(RegistryError::PasskeyAlreadyMapped));
}

#[test]
fn unlinking_needs_a_binding_and_for_managers_the_role() {
    let env = Env::default();
    let wallet = Address::account(vec![3u8; 32]);
    let key = sha(&env, b"userid_wallet\0sms\0bob");
    let out = remove_id_wallet_map(&env, &b"bob".to_vec(), &b"sms".to_vec(), &Some(wallet.duplicate()))
        .unwrap();
    assert_eq!(out.0, key);
    assert!(out.1.same(&wallet));
    assert!(matches!(
        remove_id_wallet_map(&env, &b"bob".to_vec(), &b"sms".to_vec(), &None),
        Err(RegistryError::IdentityNotFound)
    ));
    assert!(matches!(
        remove_id_wallet_map(&env, &b"bob".to_vec(), &b"fax".to_vec(), &None),
        Err(RegistryError::PlatformNotSupported)
    ));
    assert!(matches!(
        manager_remove_id_wallet_map(&env, &b"bob".to_vec(), &b"sms".to_vec(), false, &Some(wallet.duplicate())),
        Err(RegistryError::NotRegistryManager)
    ));
    let m = manager_remove_id_wallet_map(&env, &b"bob".to_vec(), &b"sms".to_vec(), true, &Some(wallet.duplicate()))
        .unwrap();
    assert_eq!(m.0, key);
}

#[test]
fn registry_initializes_once_and_needs_a_factory_for_passkeys() {
    let mut r = Registry::new();
    let admin = Address::account(vec![1u8; 32]);
    assert_eq!(r.initialize(&admin), Ok(()));
    assert_eq!(r.initialize(&admin), Err(UpgradeError::AlreadyInitialized));
    assert!(matches!(r.check_passkey_binding(), Err(RegistryError::FactoryNotSet)));
    r.factory = Some(Address::contract(vec![6u8; 32]));
    assert!(r.check_passkey_binding().unwrap().same(&Address::contract(vec![6u8; 32])));
}
