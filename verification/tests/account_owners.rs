use socketfi::account::{
    AuthObligation, check_recovered_evm_address, check_recovery_window, check_rotation_window,
    evm_signature_digest, signer_challenge, validate_guardians, validate_stellar_address_key,
    Account,
};
use socketfi::address::Address;
use socketfi::bls::{extract_bls_keys, is_g1_infinity, validate_verify_bls_key_set_pop, BlsKeyWithPoP};
use socketfi::errors::AccountError;
use socketfi::constants::rotation_domain_bytes;
use socketfi::key_types::{AccountCommitment, AccountSigner, EvmSignature, PasskeyAccountSigner, PasskeySignature};
use socketfi::session::{AuthContext, ContractContext};
use socketfi::webauthn::verify_passkey_pop;
use soroban_sdk::crypto::bls12_381::{Bls12381Fr, Bls12381G1Affine, Bls12381G2Affine};
use soroban_sdk::{Bytes, BytesN, Env, U256};

const DST: &[u8] = b"BLS_AUTH_XMD:SHA-256_SSWU_SOCKETFI";

fn g1_generator(env: &Env) -> BytesN<96> {
    let mut b = [0u8; 96];
    let hex = "17f1d3a73197d7942695638c4fa9ac0fc3688c4f9774b905a14e3a3f171bac586c55e83ff97a1aeffb3af00adb22c6bb114d1d6855d545a8aa7d76c8cf2e21f267816aef1db507c96655b9d5caac42364e6f38ba0ecb751bad54dcd6b939c2ca";
    for i in 0..96 {
        b[i] = u8::from_str_radix(&hex[2 * i..2 * i + 2], 16).unwrap();
    }
    BytesN::from_array(env, &b)
}

fn bls_proofs(env: &Env, challenge: &[u8; 32]) -> Vec<BlsKeyWithPoP> {
    let bls = env.crypto().bls12_381();
    let generator = -Bls12381G1Affine::from_bytes(g1_generator(env));
    let message = bls.hash_to_g2(&Bytes::from_slice(env, challenge), &Bytes::from_slice(env, DST));
    let mut proofs = Vec::new();
    for scalar in [1u32, 2] {
        let s = Bls12381Fr::from_u256(U256::from_u32(env, scalar));
        proofs.push(BlsKeyWithPoP {
            key: bls.g1_mul(&generator, &s).to_bytes().to_array().to_vec(),
            sig: bls.g2_mul(&message, &s).to_bytes().to_array().to_vec(),
        });
    }
    proofs
}

/// The host's results on a guardian key set: the subgroup check of each
/// key, the aggregate key and its subgroup check, and the pairing check of
/// each proof of possession.
fn host_bls_values(env: &Env, challenge: &[u8; 32], proofs: &Vec<BlsKeyWithPoP>) -> (Vec<bool>, Vec<u8>, bool, Vec<bool>) {
    let bls = env.crypto().bls12_381();
    let point = |k: &Vec<u8>| {
        let mut a = [0u8; 96];
        a.copy_from_slice(k);
        Bls12381G1Affine::from_bytes(BytesN::from_array(env, &a))
    };
    let in_subgroup: Vec<bool> = proofs.iter().map(|p| bls.g1_is_in_subgroup(&point(&p.key))).collect();
    let mut agg = vec![0u8; 96];
    let mut agg_in_subgroup = false;
    if !proofs.is_empty() {
        let mut acc = point(&proofs[0].key);
        for p in proofs.iter().skip(1) {
            acc = bls.g1_add(&acc, &point(&p.key));
        }
        agg_in_subgroup = bls.g1_is_in_subgroup(&acc);
        agg = acc.to_bytes().to_array().to_vec();
    }
    let message = bls.hash_to_g2(&Bytes::from_slice(env, challenge), &Bytes::from_slice(env, DST));
    let pop_valid: Vec<bool> = proofs
        .iter()
        .map(|p| {
            let mut s = [0u8; 192];
            s.copy_from_slice(&p.sig);
            let vp1 = soroban_sdk::Vec::from_array(env, [point(&p.key), Bls12381G1Affine::from_bytes(g1_generator(env))]);
            let vp2 = soroban_sdk::Vec::from_array(env, [message.clone(), Bls12381G2Affine::from_bytes(BytesN::from_array(env, &s))]);
            bls.pairing_check(vp1, vp2)
        })
        .collect();
    (in_subgroup, agg, agg_in_subgroup, pop_valid)
}

/// The host's checks of a guardian key set: subgroup membership, the
/// aggregate key, and each proof of possession.
fn host_bls(env: &Env, challenge: &[u8; 32], proofs: &Vec<BlsKeyWithPoP>) -> Result<Vec<u8>, AccountError> {
    let (in_subgroup, agg, agg_in_subgroup, pop_valid) = host_bls_values(env, challenge, proofs);
    validate_verify_bls_key_set_pop(proofs, &in_subgroup, &agg, agg_in_subgroup, &pop_valid)
}

/// The constructor as the contract runs it: the configuration checks, the
/// host's P-256 check of the passkey proof, the Stellar key, the host's
/// recovery of the EVM key, the host's results on the guardian keys, then
/// `initialize`, which checks them all in order and installs the owners.
#[allow(clippy::too_many_arguments)]
fn construct(
    env: &Env,
    account: &mut Account,
    challenge: [u8; 32],
    passkey: Option<Vec<u8>>,
    passkey_sig: Option<PasskeySignature>,
    rpid_hash: Option<Vec<u8>>,
    stellar_signer: Option<Vec<u8>>,
    stellar_address: Option<Address>,
    evm_signer: Option<Vec<u8>>,
    evm_sig: Option<EvmSignature>,
    proofs: Vec<BlsKeyWithPoP>,
) -> Result<(), AccountError> {
    let guardians: Vec<Address> = Vec::new();
    account.check_constructor_config(
        &guardians, &passkey, &passkey_sig, &rpid_hash, &stellar_signer, &stellar_address, &evm_signer, &evm_sig,
    )?;
    if let (Some(pk), Some(sig), Some(rp)) = (&passkey, &passkey_sig, &rpid_hash) {
        let digest = verify_passkey_pop(env, &challenge.to_vec(), &sig.authenticator_data, &sig.client_data_json, rp)?;
        let mut payload = Bytes::from_slice(env, &sig.authenticator_data);
        payload.extend_from_array(&env.crypto().sha256(&Bytes::from_slice(env, &sig.client_data_json)).to_array());
        let host_digest = env.crypto().sha256(&payload);
        assert_eq!(digest, host_digest.to_array().to_vec());
        let mut k = [0u8; 65];
        k.copy_from_slice(pk);
        let mut s = [0u8; 64];
        s.copy_from_slice(&sig.signature);
        env.crypto().secp256r1_verify(&BytesN::from_array(env, &k), &host_digest, &BytesN::from_array(env, &s));
    }
    if let (Some(k), Some(a)) = (&stellar_signer, &stellar_address) {
        validate_stellar_address_key(a, k)?;
    }
    let mut evm_recovered = None;
    if let Some(sig) = &evm_sig {
        if let Ok(digest) = evm_signature_digest(env, sig.recovery_id, &challenge.to_vec()) {
            let mut m = Bytes::from_slice(env, b"\x19Ethereum Signed Message:\n32");
            m.extend_from_array(&challenge);
            let host_digest = env.crypto().keccak256(&m);
            assert_eq!(digest, host_digest.to_array().to_vec());
            let mut s = [0u8; 64];
            s.copy_from_slice(&sig.signature);
            let recovered = env.crypto().secp256k1_recover(&host_digest, &BytesN::from_array(env, &s), sig.recovery_id);
            evm_recovered = Some(recovered.to_array().to_vec());
        }
    }
    let (in_subgroup, agg, agg_in_subgroup, pop_valid) = host_bls_values(env, &challenge, &proofs);
    account.initialize(
        env,
        &challenge.to_vec(),
        passkey,
        passkey_sig,
        rpid_hash,
        stellar_signer,
        stellar_address,
        evm_signer,
        evm_sig,
        evm_recovered,
        &proofs,
        &in_subgroup,
        &agg,
        agg_in_subgroup,
        &pop_valid,
        guardians,
        vec![9u8; 32],
        Address::contract(vec![8u8; 32]),
    )
}

fn initialize(
    env: &Env,
    account: &mut Account,
    rpid_hash: Option<Vec<u8>>,
    passkey: Option<Vec<u8>>,
    passkey_sig: Option<PasskeySignature>,
    evm: bool,
    proofs: Vec<BlsKeyWithPoP>,
) -> Result<(), AccountError> {
    construct(
        env,
        account,
        [7u8; 32],
        passkey,
        passkey_sig,
        rpid_hash,
        if evm { None } else { Some(vec![0u8; 32]) },
        if evm { None } else { Some(Address::account(vec![0u8; 32])) },
        if evm { Some(vec![1u8; 20]) } else { None },
        if evm { Some(EvmSignature { signature: vec![0u8; 64], recovery_id: 2 }) } else { None },
        proofs,
    )
}

#[test]
fn stellar_creation_stores_rpid_without_installing_passkey_and_preserves_it_on_clear() {
    let env = Env::default();
    let mut account = Account::new();
    let hash = vec![3u8; 32];
    let proofs = bls_proofs(&env, &[7u8; 32]);
    assert_eq!(initialize(&env, &mut account, Some(hash.clone()), None, None, false, proofs), Ok(()));
    assert_eq!(account.read_rpid_hash(), Some(hash.clone()));
    assert!(account.read_passkey().is_none());
    assert_eq!(account.stellar_signer, Some(vec![0u8; 32]));
    account.clear_active_signers();
    assert!(account.stellar_signer.is_none());
    assert_eq!(account.read_rpid_hash(), Some(hash));
    assert!(account.is_initialized());
}

#[test]
fn every_initial_signer_requires_rpid_configuration() {
    let env = Env::default();
    for evm in [false, true] {
        let mut account = Account::new();
        assert_eq!(
            initialize(&env, &mut account, None, None, None, evm, Vec::new()),
            Err(AccountError::RpidNotFound)
        );
        assert!(account.read_rpid_hash().is_none());
    }
}

#[test]
fn rpid_only_does_not_bypass_evm_proof_validation() {
    let env = Env::default();
    let mut account = Account::new();
    assert_eq!(
        initialize(&env, &mut account, Some(vec![3u8; 32]), None, None, true, Vec::new()),
        Err(AccountError::InvalidEvmRecoveryId)
    );
    assert!(account.read_rpid_hash().is_none());
}

#[test]
fn independent_rpid_does_not_allow_partial_passkey_configuration() {
    let env = Env::default();
    let mut account = Account::new();
    assert_eq!(
        initialize(&env, &mut account, Some(vec![3u8; 32]), Some(vec![0u8; 65]), None, false, Vec::new()),
        Err(AccountError::InvalidConfig)
    );
    assert!(account.read_rpid_hash().is_none());
}

const PUB: [u8; 65] = [
    4, 107, 23, 209, 242, 225, 44, 66, 71, 248, 188, 230, 229, 99, 164, 64, 242, 119, 3, 125, 129,
    45, 235, 51, 160, 244, 161, 57, 69, 216, 152, 194, 150, 79, 227, 66, 226, 254, 26, 127, 155,
    142, 231, 235, 74, 124, 15, 158, 22, 43, 206, 51, 87, 107, 49, 94, 206, 203, 182, 64, 104, 55,
    191, 81, 245,
];

const PSIG: [u8; 64] = [
    128, 211, 57, 11, 153, 181, 23, 15, 1, 78, 250, 134, 238, 133, 206, 169, 227, 84, 96, 155, 203,
    179, 167, 72, 191, 215, 15, 88, 245, 43, 162, 112, 112, 172, 93, 117, 10, 32, 40, 72, 240, 209,
    233, 219, 91, 36, 117, 62, 147, 29, 78, 51, 209, 20, 180, 62, 33, 98, 64, 64, 139, 147, 132,
    245,
];

const AUTH: [u8; 37] = [
    3, 3, 3, 3, 3, 3, 3, 3, 3, 3, 3, 3, 3, 3, 3, 3, 3, 3, 3, 3, 3, 3, 3, 3, 3, 3, 3, 3, 3, 3, 3, 3,
    5, 0, 0, 0, 0,
];

const EADDR: [u8; 20] = [
    126, 95, 69, 82, 9, 26, 105, 18, 93, 93, 252, 183, 184, 194, 101, 144, 41, 57, 91, 223,
];

const ESIG: [u8; 64] = [
    121, 190, 102, 126, 249, 220, 187, 172, 85, 160, 98, 149, 206, 135, 11, 7, 2, 155, 252, 219,
    45, 206, 40, 217, 89, 242, 129, 91, 22, 248, 23, 152, 76, 183, 43, 128, 184, 223, 59, 161, 203,
    161, 38, 164, 193, 248, 225, 32, 6, 76, 207, 4, 164, 165, 176, 157, 124, 192, 145, 60, 234, 45,
    46, 63,
];

const CLIENT: &[u8] = br#"{"type":"webauthn.get","challenge":"BwcHBwcHBwcHBwcHBwcHBwcHBwcHBwcHBwcHBwcHBwc","origin":"https://socket.fi"}"#;
const RECID: u32 = 0;

fn initialize_valid_owner(env: &Env, account: &mut Account, evm: bool, rpid: Vec<u8>) -> Result<(), AccountError> {
    let passkey_sig = PasskeySignature {
        signature: PSIG.to_vec(),
        client_data_json: CLIENT.to_vec(),
        authenticator_data: AUTH.to_vec(),
    };
    let challenge = [7u8; 32];
    construct(
        env,
        account,
        challenge,
        if evm { None } else { Some(PUB.to_vec()) },
        if evm { None } else { Some(passkey_sig) },
        Some(rpid),
        None,
        None,
        if evm { Some(EADDR.to_vec()) } else { None },
        if evm { Some(EvmSignature { signature: ESIG.to_vec(), recovery_id: RECID }) } else { None },
        bls_proofs(env, &challenge),
    )
}

#[test]
fn evm_creation_stores_rpid_without_installing_passkey() {
    let env = Env::default();
    let mut account = Account::new();
    let hash = vec![3u8; 32];
    assert_eq!(initialize_valid_owner(&env, &mut account, true, hash.clone()), Ok(()));
    assert_eq!(account.read_rpid_hash(), Some(hash));
    assert!(account.read_passkey().is_none());
    assert_eq!(account.evm_signer, Some(EADDR.to_vec()));
}

#[test]
fn existing_passkey_creation_still_verifies_and_stores_its_rpid() {
    let env = Env::default();
    let mut account = Account::new();
    let hash = vec![3u8; 32];
    assert_eq!(initialize_valid_owner(&env, &mut account, false, hash.clone()), Ok(()));
    assert_eq!(account.read_rpid_hash(), Some(hash));
    assert_eq!(account.read_passkey(), Some(PUB.to_vec()));
}

#[test]
fn passkey_proof_for_another_rpid_is_still_rejected() {
    let env = Env::default();
    let mut account = Account::new();
    assert_eq!(
        initialize_valid_owner(&env, &mut account, false, vec![4u8; 32]),
        Err(AccountError::InvalidRpIdHash)
    );
    assert!(account.read_passkey().is_none());
    assert!(account.read_rpid_hash().is_none());
}

#[test]
fn configuration_checks() {
    let a = Address::account(vec![1u8; 32]);
    assert_eq!(validate_stellar_address_key(&a, &vec![1u8; 32]), Ok(()));
    assert_eq!(validate_stellar_address_key(&a, &vec![2u8; 32]), Err(AccountError::StellarSignerMismatch));
    assert_eq!(
        validate_stellar_address_key(&Address::contract(vec![1u8; 32]), &vec![1u8; 32]),
        Err(AccountError::InvalidStellarSigner)
    );
    let g = |i: u8| Address::contract(vec![i; 32]);
    assert_eq!(validate_guardians(&vec![g(1), g(2)]), Ok(()));
    assert_eq!(validate_guardians(&vec![g(1), g(1)]), Err(AccountError::DuplicateGuardian));
    assert_eq!(
        validate_guardians(&vec![g(1), g(2), g(3), g(4), g(5), g(6)]),
        Err(AccountError::MaxGuardiansExceeded)
    );
    let env = Env::default();
    let mut account = Account::new();
    assert_eq!(initialize(&env, &mut account, Some(vec![3u8; 32]), None, None, false, bls_proofs(&env, &[7u8; 32])), Ok(()));
    let again = account.check_constructor_config(&Vec::new(), &None, &None, &Some(vec![3u8; 32]), &None, &None, &Some(vec![1u8; 20]), &Some(EvmSignature { signature: vec![0u8; 64], recovery_id: 0 }));
    assert_eq!(again, Err(AccountError::AlreadyInitialized));
}

#[test]
fn initialize_checks_owner_proofs_in_order() {
    let env = Env::default();
    let challenge = [7u8; 32];
    let proofs = bls_proofs(&env, &challenge);
    let (in_subgroup, agg, agg_in_subgroup, pop_valid) = host_bls_values(&env, &challenge, &proofs);
    let passkey_sig = || PasskeySignature {
        signature: PSIG.to_vec(),
        client_data_json: CLIENT.to_vec(),
        authenticator_data: AUTH.to_vec(),
    };
    let bad_evm = || EvmSignature { signature: ESIG.to_vec(), recovery_id: 2 };
    let run = |account: &mut Account,
               passkey: Option<(Vec<u8>, PasskeySignature)>,
               rpid: Vec<u8>,
               stellar: Option<(Vec<u8>, Address)>,
               evm: Option<EvmSignature>,
               pops: &Vec<bool>| {
        let (pk, ps) = match passkey {
            Some((k, s)) => (Some(k), Some(s)),
            None => (None, None),
        };
        let (sk, sa) = match stellar {
            Some((k, a)) => (Some(k), Some(a)),
            None => (None, None),
        };
        let ea = evm.as_ref().map(|_| EADDR.to_vec());
        account.initialize(
            &env,
            &challenge.to_vec(),
            pk,
            ps,
            Some(rpid),
            sk,
            sa,
            ea,
            evm,
            None,
            &proofs,
            &in_subgroup,
            &agg,
            agg_in_subgroup,
            pops,
            vec![address_byte(1)],
            vec![9u8; 32],
            Address::contract(vec![8u8; 32]),
        )
    };
    // A passkey proof for another relying party fails before the EVM proof.
    let mut account = Account::new();
    let r = run(&mut account, Some((PUB.to_vec(), passkey_sig())), vec![4u8; 32], None, Some(bad_evm()), &pop_valid);
    assert_eq!(r, Err(AccountError::InvalidRpIdHash));
    assert!(!account.is_initialized());
    // A Stellar key that does not match its address fails before the EVM proof.
    let stellar = (vec![2u8; 32], Address::account(vec![1u8; 32]));
    let r = run(&mut account, None, vec![3u8; 32], Some(stellar), Some(bad_evm()), &pop_valid);
    assert_eq!(r, Err(AccountError::StellarSignerMismatch));
    // A failed proof of possession of a guardian key comes after the owners.
    let stellar = || (vec![1u8; 32], Address::account(vec![1u8; 32]));
    let r = run(&mut account, None, vec![3u8; 32], Some(stellar()), None, &vec![true, false]);
    assert_eq!(r, Err(AccountError::InvalidPoPSignature));
    assert!(!account.is_initialized());
    // Everything valid: the owners and configuration are installed.
    let r = run(&mut account, Some((PUB.to_vec(), passkey_sig())), vec![3u8; 32], Some(stellar()), None, &pop_valid);
    assert_eq!(r, Ok(()));
    assert!(account.is_initialized());
    assert_eq!(account.read_passkey(), Some(PUB.to_vec()));
    assert_eq!(account.read_rpid_hash(), Some(vec![3u8; 32]));
    assert_eq!(account.stellar_signer, Some(vec![1u8; 32]));
    assert_eq!(account.agg_bls_key, Some(agg.clone()));
}

fn address_byte(i: u8) -> Address {
    Address::contract(vec![i; 32])
}

#[test]
fn guardian_keys_need_valid_proofs() {
    let env = Env::default();
    let proofs = bls_proofs(&env, &[7u8; 32]);
    assert!(host_bls(&env, &[7u8; 32], &proofs).is_ok());
    assert_eq!(host_bls(&env, &[8u8; 32], &proofs), Err(AccountError::InvalidPoPSignature));
    let single = vec![BlsKeyWithPoP { key: proofs[0].key.clone(), sig: proofs[0].sig.clone() }];
    assert_eq!(host_bls(&env, &[7u8; 32], &single), Err(AccountError::InsufficientKeys));
    let dup = vec![
        BlsKeyWithPoP { key: proofs[0].key.clone(), sig: proofs[0].sig.clone() },
        BlsKeyWithPoP { key: proofs[0].key.clone(), sig: proofs[0].sig.clone() },
    ];
    assert_eq!(host_bls(&env, &[7u8; 32], &dup), Err(AccountError::DuplicateKeys));
    let mut infinity = vec![0u8; 96];
    infinity[0] = 0x40;
    assert!(is_g1_infinity(&infinity));
    assert!(!is_g1_infinity(&proofs[0].key));
    assert_eq!(extract_bls_keys(&proofs), vec![proofs[0].key.clone(), proofs[1].key.clone()]);
}

#[test]
fn evm_recovery_must_match_the_owner() {
    let env = Env::default();
    assert_eq!(evm_signature_digest(&env, 2, &vec![7u8; 32]), Err(AccountError::InvalidEvmRecoveryId));
    let mut compressed = vec![0u8; 65];
    compressed[0] = 2;
    assert_eq!(
        check_recovered_evm_address(&env, &compressed, &EADDR.to_vec()),
        Err(AccountError::InvalidSignature)
    );
    let mut account = Account::new();
    assert_eq!(initialize_valid_owner(&env, &mut account, true, vec![3u8; 32]), Ok(()));
    let mut other = Account::new();
    let mut wrong = EADDR;
    wrong[0] ^= 1;
    let r = construct(
        &env,
        &mut other,
        [7u8; 32],
        None,
        None,
        Some(vec![3u8; 32]),
        None,
        None,
        Some(wrong.to_vec()),
        Some(EvmSignature { signature: ESIG.to_vec(), recovery_id: RECID }),
        bls_proofs(&env, &[7u8; 32]),
    );
    assert_eq!(r, Err(AccountError::InvalidSignature));
}

#[test]
fn rotation_replaces_owners_and_revokes_sessions() {
    let env = Env::default();
    let mut account = Account::new();
    assert_eq!(initialize_valid_owner(&env, &mut account, false, vec![3u8; 32]), Ok(()));
    assert_eq!(account.session_epoch, 0);
    assert_eq!(account.install_signer(&AccountCommitment::Evm(EADDR.to_vec())), Ok(1));
    assert!(account.read_passkey().is_none());
    assert_eq!(account.evm_signer, Some(EADDR.to_vec()));
    assert_eq!(account.install_signer(&AccountCommitment::Passkey(PUB.to_vec())), Ok(2));
    assert_eq!(account.read_passkey(), Some(PUB.to_vec()));
    assert!(account.evm_signer.is_none());
    assert_eq!(account.revoke_all_sessions(), Ok(3));
    let mut fresh = Account::new();
    assert_eq!(fresh.install_signer(&AccountCommitment::Passkey(PUB.to_vec())), Err(AccountError::RpidNotFound));
    assert_eq!(check_rotation_window(100, 100), Ok(()));
    assert_eq!(check_rotation_window(100, 160), Ok(()));
    assert_eq!(check_rotation_window(100, 161), Err(AccountError::InvalidConfig));
    assert_eq!(check_rotation_window(100, 99), Err(AccountError::InvalidConfig));
    assert_eq!(check_recovery_window(100, 100), Err(AccountError::InvalidConfig));
    assert_eq!(check_recovery_window(100, 160), Ok(()));
    assert_eq!(check_rotation_window(u32::MAX - 10, u32::MAX), Err(AccountError::ArithmeticOverflow));
    let c1 = signer_challenge(&env, &vec![0u8; 32], &Address::contract(vec![1u8; 32]), 160, &AccountCommitment::Evm(EADDR.to_vec()), &b"SOCKETFI_ROTATE_ACCOUNT_V1".to_vec());
    let c2 = signer_challenge(&env, &vec![0u8; 32], &Address::contract(vec![1u8; 32]), 160, &AccountCommitment::Evm(EADDR.to_vec()), &b"SOCKETFI_RECOVER_ACCOUNT_V1".to_vec());
    assert_ne!(c1, c2);
    assert_eq!(c1.len(), 32);
}

#[test]
fn pausing_needs_guardians_and_approval() {
    let env = Env::default();
    let mut account = Account::new();
    assert_eq!(initialize(&env, &mut account, Some(vec![3u8; 32]), None, None, false, bls_proofs(&env, &[7u8; 32])), Ok(()));
    assert_eq!(account.pause(false), Err(AccountError::UnauthorizedGuardian));
    assert_eq!(account.pause(true), Ok(()));
    assert!(account.paused);
    let me = Address::contract(vec![1u8; 32]);
    let unpause_call = AuthContext::Contract(ContractContext { contract: me.duplicate(), fn_name: b"unpause".to_vec(), args: Vec::new() });
    let other_call = AuthContext::Contract(ContractContext { contract: me.duplicate(), fn_name: b"transfer".to_vec(), args: Vec::new() });
    assert_eq!(account.validate_auth_contexts(&me, &vec![unpause_call]), Ok(()));
    assert_eq!(account.validate_auth_contexts(&me, &vec![other_call]), Err(AccountError::AccountPaused));
    assert_eq!(account.unpause(), Err(AccountError::UnpauseNotApproved));
    assert_eq!(account.approve_unpause(true), Ok(()));
    assert_eq!(account.unpause(), Ok(()));
    assert!(!account.paused);
    assert_eq!(account.add_guardian(&me, &me), Err(AccountError::InvalidGuardian));
    let g = Address::account(vec![2u8; 32]);
    assert_eq!(account.add_guardian(&me, &g), Ok(()));
    assert_eq!(account.add_guardian(&me, &g), Err(AccountError::DuplicateGuardian));
    assert_eq!(account.migrate(&vec![9u8; 32]), Err(AccountError::MigrationNotRequired));
    assert_eq!(account.migrate(&vec![10u8; 32]), Ok(vec![10u8; 32]));
}

/// The key the host recovers from the EVM owner's signature over `payload`.
fn host_recover(env: &Env, payload: &[u8; 32], sig: &EvmSignature) -> Vec<u8> {
    let mut m = Bytes::from_slice(env, b"\x19Ethereum Signed Message:\n32");
    m.extend_from_array(payload);
    let digest = env.crypto().keccak256(&m);
    let mut s = [0u8; 64];
    s.copy_from_slice(&sig.signature);
    env.crypto().secp256k1_recover(&digest, &BytesN::from_array(env, &s), sig.recovery_id).to_array().to_vec()
}

/// The EVM owner's authorization of a call, as `__check_auth` makes it.
fn evm_owner_authorizes(env: &Env, account: &Account, me: &Address, payload: [u8; 32]) -> Result<(), AccountError> {
    let sig = EvmSignature { signature: ESIG.to_vec(), recovery_id: RECID };
    let auth = socketfi::account_auth::AccountAuth::Evm(EvmSignature { signature: ESIG.to_vec(), recovery_id: RECID });
    match account.begin_check_auth(env, me, &payload.to_vec(), &auth, &Vec::new())? {
        AuthObligation::Evm { .. } => account.verify_evm(env, &sig, &Some(host_recover(env, &payload, &sig))),
        _ => panic!("an EVM signature gives an EVM obligation"),
    }
}

fn base64url(data: &[u8]) -> Vec<u8> {
    const A: &[u8] = b"ABCDEFGHIJKLMNOPQRSTUVWXYZabcdefghijklmnopqrstuvwxyz0123456789-_";
    let mut out = Vec::new();
    for chunk in data.chunks(3) {
        let n = chunk.iter().enumerate().fold(0u32, |acc, (i, b)| acc | (*b as u32) << (16 - 8 * i));
        for i in 0..=chunk.len() {
            out.push(A[((n >> (18 - 6 * i)) & 63) as usize]);
        }
    }
    out
}

/// A passkey owner's proof over `challenge` for relying party `rp`; the
/// host checks its P-256 signature, so the library sees the assertion data.
fn passkey_rotation_signer(challenge: &[u8], rp: &[u8]) -> AccountSigner {
    let mut client = br#"{"type":"webauthn.get","challenge":""#.to_vec();
    client.extend(base64url(challenge));
    client.extend(br#"","origin":"https://socket.fi"}"#);
    let mut auth = rp.to_vec();
    auth.extend([0x05, 0, 0, 0, 0]);
    AccountSigner::Passkey(PasskeyAccountSigner {
        public_key: PUB.to_vec(),
        pop_signature: PasskeySignature { signature: PSIG.to_vec(), client_data_json: client, authenticator_data: auth },
    })
}

#[test]
fn factory_evm_creation_and_authenticated_passkey_rotation() {
    let env = Env::default();
    let mut account = Account::new();
    let rp = vec![3u8; 32];
    assert_eq!(initialize_valid_owner(&env, &mut account, true, rp.clone()), Ok(()));
    let me = Address::contract(vec![11u8; 32]);
    assert!(account.read_passkey().is_none());
    let expiry = 50u32;
    let challenge = signer_challenge(
        &env,
        &vec![42u8; 32],
        &me,
        expiry,
        &AccountCommitment::Passkey(PUB.to_vec()),
        &rotation_domain_bytes(),
    );
    assert_eq!(challenge.len(), 32);

    // A proof for another relying party is refused and nothing changes.
    assert_eq!(evm_owner_authorizes(&env, &account, &me, [7u8; 32]), Ok(()));
    let bad = passkey_rotation_signer(&challenge, &[8u8; 32]);
    assert_eq!(account.rotate_signer(&env, 1, expiry, &challenge, &bad, &None), Err(AccountError::InvalidRpIdHash));
    assert!(account.read_passkey().is_none());
    assert_eq!(account.evm_signer, Some(EADDR.to_vec()));
    assert_eq!(account.session_epoch, 0);

    // A signature the EVM owner did not make does not authorize the rotation.
    assert_eq!(evm_owner_authorizes(&env, &account, &me, [9u8; 32]), Err(AccountError::InvalidSignature));

    // The owner's authorization and a valid proof rotate to the passkey.
    assert_eq!(evm_owner_authorizes(&env, &account, &me, [7u8; 32]), Ok(()));
    let signer = passkey_rotation_signer(&challenge, &rp);
    assert_eq!(account.rotate_signer(&env, 1, expiry, &challenge, &signer, &None), Ok(1));
    assert_eq!(account.read_passkey(), Some(PUB.to_vec()));
    assert!(account.evm_signer.is_none());

    // The old EVM owner can no longer authorize anything.
    assert_eq!(evm_owner_authorizes(&env, &account, &me, [7u8; 32]), Err(AccountError::EvmSignerNotFound));

    // The new passkey owner revokes all sessions.
    assert_eq!(account.revoke_all_sessions(), Ok(2));
}

#[test]
fn recovery_checks_window_then_guardians_then_proof() {
    let env = Env::default();
    let mut account = Account::new();
    assert_eq!(initialize_valid_owner(&env, &mut account, true, vec![3u8; 32]), Ok(()));
    let challenge = vec![1u8; 32];
    let stellar = |key: u8| {
        AccountSigner::Stellar(socketfi::key_types::StellarAccountSigner {
            public_key: vec![key; 32],
            address: Address::account(vec![1u8; 32]),
        })
    };
    // The window comes first: an expiry at or before the current ledger.
    assert_eq!(
        account.recover_signer(&env, 10, 10, &challenge, false, &stellar(2), &None),
        Err(AccountError::InvalidConfig)
    );
    assert_eq!(
        account.recover_signer(&env, u32::MAX - 1, u32::MAX, &challenge, true, &stellar(1), &None),
        Err(AccountError::ArithmeticOverflow)
    );
    // Then the guardians' approval, before the replacement's proof.
    assert_eq!(
        account.recover_signer(&env, 10, 20, &challenge, false, &stellar(2), &None),
        Err(AccountError::InvalidSignature)
    );
    assert_eq!(
        account.recover_signer(&env, 10, 20, &challenge, true, &stellar(2), &None),
        Err(AccountError::StellarSignerMismatch)
    );
    assert_eq!(account.evm_signer, Some(EADDR.to_vec()));
    assert_eq!(account.session_epoch, 0);
    // Everything valid: the Stellar key replaces the EVM owner.
    assert_eq!(account.recover_signer(&env, 10, 20, &challenge, true, &stellar(1), &None), Ok(1));
    assert_eq!(account.stellar_signer, Some(vec![1u8; 32]));
    assert!(account.evm_signer.is_none());
    // Rotation accepts an expiry equal to the current ledger, recovery does not.
    assert_eq!(account.rotate_signer(&env, 10, 10, &challenge, &stellar(1), &None), Ok(2));
    assert_eq!(
        account.rotate_signer(&env, 10, 71, &challenge, &stellar(1), &None),
        Err(AccountError::InvalidConfig)
    );
}
