use socketfi::address::Address;
use socketfi::errors::{AccountError, UpgradeError};
use socketfi::factory::{validate_creation_expiry, write_creation_nonce_used, FactoryContract};
use socketfi::key_types::{EvmSignature, PasskeySignature};
use soroban_sdk::xdr::ToXdr;
use soroban_sdk::testutils::Address as _;
use soroban_sdk::{Bytes, BytesN, Env, Symbol};

const MAX_TTL: u32 = 6_312_000;

fn network_id() -> Vec<u8> {
    vec![0u8; 32]
}

fn host_address() -> Address {
    Address::contract(vec![1u8; 32])
}

/// The library's form of a host address, read from its XDR encoding.
fn lib_address(env: &Env, a: &soroban_sdk::Address) -> Address {
    let x = a.to_xdr(env);
    let bytes: Vec<u8> = (0..x.len()).map(|i| x.get(i).unwrap()).collect();
    if bytes[7] == 1 {
        Address::contract(bytes[8..40].to_vec())
    } else {
        Address::account(bytes[12..44].to_vec())
    }
}

fn setup(env: &Env) -> FactoryContract {
    let mut factory = FactoryContract::new();
    factory.write_rpid_hash(env, &b"socket.fi".to_vec());
    factory
}

fn challenge(
    env: &Env,
    factory: &FactoryContract,
    host: &Address,
    nonce: &[u8; 32],
    network: &str,
    live_until: u32,
    current: u32,
    used: bool,
) -> Result<Vec<u8>, AccountError> {
    factory.read_creation_pop_challenge(
        env,
        &network_id(),
        host,
        &nonce.to_vec(),
        &network.as_bytes().to_vec(),
        live_until,
        current,
        MAX_TTL,
        used,
    )
}

#[test]
fn expiry_boundaries_and_replay_retention() {
    let env = Env::default();
    let factory = setup(&env);
    let host = host_address();
    let nonce = [7u8; 32];
    assert_eq!(
        challenge(&env, &factory, &host, &nonce, "TESTNET", 999, 1000, false),
        Err(AccountError::CreationProofExpired)
    );
    assert!(challenge(&env, &factory, &host, &nonce, "TESTNET", 1000, 1000, false).is_ok());
    assert!(challenge(&env, &factory, &host, &nonce, "TESTNET", 1120, 1000, false).is_ok());
    assert_eq!(
        challenge(&env, &factory, &host, &nonce, "TESTNET", 1121, 1000, false),
        Err(AccountError::InvalidCreationExpiry)
    );
    assert_eq!(
        challenge(&env, &factory, &host, &nonce, "OTHER", 1120, 1000, false),
        Err(AccountError::InvalidNetwork)
    );
    // The tombstone lives for the 120 ledgers through the proof's expiry.
    assert_eq!(write_creation_nonce_used(1000, MAX_TTL, 1120), Ok(120));
    assert_eq!(
        challenge(&env, &factory, &host, &nonce, "TESTNET", 1120, 1000, true),
        Err(AccountError::NonceAlreadyUsed)
    );
    assert_eq!(
        challenge(&env, &factory, &host, &nonce, "TESTNET", 1120, 1120, true),
        Err(AccountError::NonceAlreadyUsed)
    );
    // Once the tombstone is gone, the old proof has expired anyway.
    assert_eq!(
        challenge(&env, &factory, &host, &nonce, "TESTNET", 1120, 1121, false),
        Err(AccountError::CreationProofExpired)
    );
}

#[test]
fn challenge_binds_expiry_factory_network_rpid_and_nonce() {
    let env = Env::default();
    let mut factory = setup(&env);
    let host = host_address();
    let nonce = [7u8; 32];
    let baseline = challenge(&env, &factory, &host, &nonce, "TESTNET", 1120, 1000, false).unwrap();
    assert_ne!(
        baseline,
        challenge(&env, &factory, &host, &nonce, "TESTNET", 1119, 1000, false).unwrap()
    );
    assert_ne!(
        baseline,
        challenge(&env, &factory, &host, &[8u8; 32], "TESTNET", 1120, 1000, false).unwrap()
    );
    assert_ne!(
        baseline,
        challenge(&env, &factory, &host, &nonce, "PUBLIC", 1120, 1000, false).unwrap()
    );
    factory.write_rpid_hash(&env, &b"other.example".to_vec());
    assert_ne!(
        baseline,
        challenge(&env, &factory, &host, &nonce, "TESTNET", 1120, 1000, false).unwrap()
    );
    factory.write_rpid_hash(&env, &b"socket.fi".to_vec());
    let other = Address::contract(vec![2u8; 32]);
    assert_ne!(
        baseline,
        challenge(&env, &factory, &other, &nonce, "TESTNET", 1120, 1000, false).unwrap()
    );
    let other_network = factory
        .read_creation_pop_challenge(
            &env,
            &vec![8u8; 32],
            &host,
            &nonce.to_vec(),
            &b"TESTNET".to_vec(),
            1120,
            1000,
            MAX_TTL,
            false,
        )
        .unwrap();
    assert_ne!(baseline, other_network);
}

#[test]
fn challenge_matches_host_encoding() {
    let env = Env::default();
    let factory = setup(&env);
    let host_addr = soroban_sdk::Address::generate(&env);
    let host = lib_address(&env, &host_addr);
    let nonce = [7u8; 32];
    let ours = challenge(&env, &factory, &host, &nonce, "TESTNET", 1120, 1000, false).unwrap();
    let rpid_hash: BytesN<32> =
        env.crypto().sha256(&Bytes::from_slice(&env, b"socket.fi")).into();
    let mut salt = Bytes::from_slice(&env, b"SOCKETFI_CREATE_ACCOUNT_POP_V2");
    salt.append(&BytesN::from_array(&env, &[0u8; 32]).to_xdr(&env));
    salt.append(&host_addr.to_xdr(&env));
    salt.append(&Symbol::new(&env, "TESTNET").to_xdr(&env));
    salt.append(&rpid_hash.to_xdr(&env));
    salt.append(&BytesN::from_array(&env, &nonce).to_xdr(&env));
    salt.append(&1120u32.to_xdr(&env));
    let expected: BytesN<32> = env.crypto().sha256(&salt).into();
    assert_eq!(ours, expected.to_array().to_vec());
}

#[test]
fn honors_legacy_tombstones_and_handles_u32_boundary() {
    let env = Env::default();
    let factory = setup(&env);
    let host = host_address();
    assert_eq!(
        challenge(&env, &factory, &host, &[7u8; 32], "TESTNET", 1120, 1000, true),
        Err(AccountError::NonceAlreadyUsed)
    );
    assert_eq!(validate_creation_expiry(u32::MAX - 10, 10, u32::MAX - 1), Ok(()));
    assert_eq!(
        validate_creation_expiry(u32::MAX - 10, 10, 0),
        Err(AccountError::CreationProofExpired)
    );
}

#[test]
fn creation_expiry_respects_max_ttl() {
    assert_eq!(validate_creation_expiry(1000, 10, 1010), Ok(()));
    assert_eq!(
        validate_creation_expiry(1000, 10, 1011),
        Err(AccountError::InvalidCreationExpiry)
    );
    assert_eq!(
        write_creation_nonce_used(1000, 10, 1011),
        Err(AccountError::InvalidCreationExpiry)
    );
}

fn prepare(factory: &FactoryContract, kind: u8) -> Result<Vec<u8>, AccountError> {
    let passkey = if kind == 0 { Some(vec![0u8; 65]) } else { None };
    let passkey_sig = if kind == 0 {
        Some(PasskeySignature {
            signature: vec![0u8; 64],
            client_data_json: Vec::new(),
            authenticator_data: Vec::new(),
        })
    } else {
        None
    };
    let stellar_signer = if kind == 1 { Some(vec![0u8; 32]) } else { None };
    let stellar_address = if kind == 1 {
        Some(Address::account(vec![0u8; 32]))
    } else {
        None
    };
    let evm_signer = if kind == 2 { Some(vec![0u8; 20]) } else { None };
    let evm_sig = if kind == 2 {
        Some(EvmSignature { signature: vec![0u8; 64], recovery_id: 0 })
    } else {
        None
    };
    factory
        .write_create_account(
            &vec![7u8; 32],
            &passkey,
            &passkey_sig,
            &stellar_signer,
            &stellar_address,
            &evm_signer,
            &evm_sig,
        )
        .map(|d| d.salt)
}

#[test]
fn factory_requires_its_own_rpid_for_every_signer_before_deployment() {
    let env = Env::default();
    for kind in [0u8, 1, 2] {
        let mut factory = FactoryContract::new();
        assert_eq!(prepare(&factory, kind), Err(AccountError::RpidNotFound));
        factory.write_rpid_hash(&env, &b"socket.fi".to_vec());
        assert_eq!(prepare(&factory, kind), Err(AccountError::AccountVersionNotFound));
    }
}

#[test]
fn create_account_deploys_with_challenge_code_and_rpid() {
    let env = Env::default();
    let mut factory = FactoryContract::new();
    let admin = Address::account(vec![5u8; 32]);
    assert_eq!(
        factory.initialize(&env, &admin, &b"socket.fi".to_vec(), &vec![9u8; 32], 0),
        Ok(())
    );
    let d = factory
        .write_create_account(
            &vec![7u8; 32],
            &None,
            &None,
            &None,
            &None,
            &Some(vec![1u8; 20]),
            &Some(EvmSignature { signature: vec![0u8; 64], recovery_id: 1 }),
        )
        .unwrap();
    assert_eq!(d.salt, vec![7u8; 32]);
    assert_eq!(d.wasm, vec![9u8; 32]);
    let rp: BytesN<32> = env.crypto().sha256(&Bytes::from_slice(&env, b"socket.fi")).into();
    assert_eq!(d.rpid_hash, rp.to_array().to_vec());
    assert_eq!(factory.get_latest_account_wasm(), Ok(vec![9u8; 32]));
    assert_eq!(
        factory.initialize(&env, &admin, &b"socket.fi".to_vec(), &vec![9u8; 32], 0),
        Err(UpgradeError::AlreadyInitialized)
    );
}

#[test]
fn create_account_refuses_mixed_or_empty_owners() {
    let env = Env::default();
    let factory = setup(&env);
    let mixed = factory.write_create_account(
        &vec![7u8; 32],
        &Some(vec![0u8; 65]),
        &Some(PasskeySignature {
            signature: vec![0u8; 64],
            client_data_json: Vec::new(),
            authenticator_data: Vec::new(),
        }),
        &Some(vec![0u8; 32]),
        &Some(Address::account(vec![0u8; 32])),
        &None,
        &None,
    );
    assert!(matches!(mixed, Err(AccountError::InvalidConfig)));
    let empty = factory.write_create_account(&vec![7u8; 32], &None, &None, &None, &None, &None, &None);
    assert!(matches!(empty, Err(AccountError::InvalidConfig)));
    let missing_sig =
        factory.write_create_account(&vec![7u8; 32], &None, &None, &None, &None, &Some(vec![1u8; 20]), &None);
    assert!(matches!(missing_sig, Err(AccountError::InvalidConfig)));
    assert_eq!(FactoryContract::new().get_latest_account_wasm(), Err(UpgradeError::NotFound));
}
