//! The smart account: owner signers, guardian recovery key, pause state,
//! signer rotation and recovery, and owner authorization checks.
use vstd::prelude::*;

use crate::address::{Address, AddressKind, AddressView};
use crate::address_set::views_of;
use crate::bytes::{append_bytes, bytes_eq, copy_bytes, copy_opt_bytes, opt_bytes};
use crate::constants::{
    eth_personal_sign_prefix, eth_personal_sign_prefix_bytes, unpause_fn, unpause_fn_bytes,
    MAX_AUTH_WINDOW_LEDGER, MAX_GUARDIANS,
};
use crate::crypto::{keccak256, keccak256_digest, sha256, sha256_digest};
use crate::errors::AccountError;
use crate::key_types::{
    commitment_of, resolve_signer, AccountCommitment, AccountSigner, CommitmentView, EvmSignature,
    PasskeySignature,
};
use crate::session::{AuthContext, ContextView, context_views};
use crate::xdr::{
    be32, push_be32, push_xdr_address, push_xdr_bytes, push_xdr_symbol, push_xdr_u32, xdr_address,
    xdr_bytes, xdr_symbol, xdr_u32,
};

use soroban_sdk::Env;

verus! {

/// The state of a smart account.
pub struct Account {
    pub factory: Option<Address>,
    pub installed_wasm: Option<Vec<u8>>,
    pub guardians: Vec<Address>,
    pub paused: bool,
    pub unpause_approved: bool,
    pub agg_bls_key: Option<Vec<u8>>,
    pub passkey: Option<Vec<u8>>,
    pub stellar_signer: Option<Vec<u8>>,
    pub evm_signer: Option<Vec<u8>>,
    pub rpid_hash: Option<Vec<u8>>,
    pub session_epoch: u64,
}

/// The state of a smart account, over views.
pub struct AccountView {
    pub factory: Option<AddressView>,
    pub installed_wasm: Option<Seq<u8>>,
    pub guardians: Seq<AddressView>,
    pub paused: bool,
    pub unpause_approved: bool,
    pub agg_bls_key: Option<Seq<u8>>,
    pub passkey: Option<Seq<u8>>,
    pub stellar_signer: Option<Seq<u8>>,
    pub evm_signer: Option<Seq<u8>>,
    pub rpid_hash: Option<Seq<u8>>,
    pub session_epoch: u64,
}

impl View for Account {
    type V = AccountView;

    open spec fn view(&self) -> AccountView {
        AccountView {
            factory: match self.factory {
                Some(a) => Some(a@),
                None => None,
            },
            installed_wasm: opt_bytes(self.installed_wasm),
            guardians: views_of(self.guardians@),
            paused: self.paused,
            unpause_approved: self.unpause_approved,
            agg_bls_key: opt_bytes(self.agg_bls_key),
            passkey: opt_bytes(self.passkey),
            stellar_signer: opt_bytes(self.stellar_signer),
            evm_signer: opt_bytes(self.evm_signer),
            rpid_hash: opt_bytes(self.rpid_hash),
            session_epoch: self.session_epoch,
        }
    }
}

/// A Stellar signer matches its address when the address is a classic
/// account keyed by exactly that Ed25519 key.
pub open spec fn stellar_key_spec(address: AddressView, signer: Seq<u8>) -> Result<(), AccountError> {
    match address.kind {
        AddressKind::Account => if address.key == signer {
            Ok(())
        } else {
            Err(AccountError::StellarSignerMismatch)
        },
        AddressKind::Contract => Err(AccountError::InvalidStellarSigner),
    }
}

/// Checks that a Stellar signer key is the key of its account address;
/// contract addresses are refused.
pub fn validate_stellar_address_key(stellar_address: &Address, stellar_signer: &Vec<u8>) -> (r:
    Result<(), AccountError>)
    ensures
        r == stellar_key_spec(stellar_address@, stellar_signer@),
{
    match stellar_address.kind {
        AddressKind::Account => {
            if !bytes_eq(&stellar_address.key, stellar_signer) {
                return Err(AccountError::StellarSignerMismatch);
            }
            Ok(())
        },
        AddressKind::Contract => Err(AccountError::InvalidStellarSigner),
    }
}

/// The guardian list rules: at most five guardians, none twice.
pub open spec fn guardians_spec(guardians: Seq<AddressView>) -> Result<(), AccountError> {
    if guardians.len() > MAX_GUARDIANS {
        Err(AccountError::MaxGuardiansExceeded)
    } else if !guardians.no_duplicates() {
        Err(AccountError::DuplicateGuardian)
    } else {
        Ok(())
    }
}

/// Validates a guardian list.
pub fn validate_guardians(guardians: &Vec<Address>) -> (r: Result<(), AccountError>)
    ensures
        r == guardians_spec(views_of(guardians@)),
{
    let ghost g = views_of(guardians@);
    if guardians.len() > 5 {
        return Err(AccountError::MaxGuardiansExceeded);
    }
    let mut i: usize = 0;
    while i < guardians.len()
        invariant
            i <= guardians.len() <= 5,
            g == views_of(guardians@),
            forall|a: int, b: int| 0 <= a < b < g.len() && a < i ==> g[a] != g[b],
        decreases guardians.len() - i,
    {
        let mut j: usize = i + 1;
        while j < guardians.len()
            invariant
                i < guardians.len() <= 5,
                i + 1 <= j <= guardians.len(),
                g == views_of(guardians@),
                forall|a: int, b: int| 0 <= a < b < g.len() && a < i ==> g[a] != g[b],
                forall|b: int| i < b < j ==> g[i as int] != g[b],
            decreases guardians.len() - j,
        {
            assert(g[i as int] == guardians@[i as int]@ && g[j as int] == guardians@[j as int]@);
            if guardians[i].same(&guardians[j]) {
                return Err(AccountError::DuplicateGuardian);
            }
            j = j + 1;
        }
        i = i + 1;
    }
    Ok(())
}

/// The constructor's checks on the owner configuration, made before any
/// proof is verified: each owner method is given completely or not at all,
/// at least one is given, and the relying-party hash is always given.
pub open spec fn constructor_config_spec(
    initialized: bool,
    guardians: Seq<AddressView>,
    passkey: bool,
    passkey_sig: bool,
    rpid_hash: bool,
    stellar_signer: bool,
    stellar_address: bool,
    evm_signer: bool,
    evm_sig: bool,
) -> Result<(), AccountError> {
    if initialized {
        Err(AccountError::AlreadyInitialized)
    } else if guardians_spec(guardians) is Err {
        guardians_spec(guardians)
    } else if passkey != passkey_sig || stellar_signer != stellar_address || evm_signer != evm_sig {
        Err(AccountError::InvalidConfig)
    } else if !passkey && !stellar_signer && !evm_signer {
        Err(AccountError::InvalidConfig)
    } else if !rpid_hash {
        Err(AccountError::RpidNotFound)
    } else {
        Ok(())
    }
}

/// The owners' proofs, in the order the constructor checks them: the
/// passkey assertion over the challenge for the relying party, the Stellar
/// key against its address, then the EVM recovery id and the EVM address
/// of the key the host recovered from the signature.
pub open spec fn owner_proofs_spec(
    challenge: Seq<u8>,
    rpid_hash: Seq<u8>,
    passkey_assertion: Option<(Seq<u8>, Seq<u8>)>,
    stellar: Option<(Seq<u8>, AddressView)>,
    evm: Option<(Seq<u8>, u32, Seq<u8>)>,
) -> Result<(), AccountError> {
    let passkey_check = match passkey_assertion {
        Some((ad, cdj)) => match crate::webauthn::client_data_spec(challenge, cdj) {
            Err(e) => Err(crate::webauthn::assertion_error(e)),
            Ok(_) => match crate::webauthn::authenticator_data_spec(rpid_hash, ad) {
                Err(e) => Err(crate::webauthn::assertion_error(e)),
                Ok(_) => Ok(()),
            },
        },
        None => Ok(()),
    };
    if passkey_check is Err {
        passkey_check
    } else if stellar matches Some((k, a)) && stellar_key_spec(a, k) is Err {
        stellar_key_spec(stellar->Some_0.1, stellar->Some_0.0)
    } else {
        match evm {
            None => Ok(()),
            Some((address, recovery_id, recovered)) => if recovery_id > 1 {
                Err(AccountError::InvalidEvmRecoveryId)
            } else if recovered[0] == 4u8 && evm_address_of(recovered) == address {
                Ok(())
            } else {
                Err(AccountError::InvalidSignature)
            },
        }
    }
}

/// The EVM owner's check of a signature: a recovery id of 0 or 1, then a
/// registered EVM owner, then the key the host recovered from the signature
/// over the owner's digest (`evm_digest_spec`) must be uncompressed and hash
/// to the owner's address.
pub open spec fn evm_verification_spec(
    evm_signer: Option<Seq<u8>>,
    recovery_id: u32,
    recovered: Option<Seq<u8>>,
) -> Result<(), AccountError> {
    if recovery_id > 1 {
        Err(AccountError::InvalidEvmRecoveryId)
    } else {
        match evm_signer {
            None => Err(AccountError::EvmSignerNotFound),
            Some(a) => match recovered {
                Some(k) => if k[0] == 4u8 && evm_address_of(k) == a {
                    Ok(())
                } else {
                    Err(AccountError::InvalidSignature)
                },
                None => Err(AccountError::InvalidSignature),
            },
        }
    }
}

/// A replacement owner's proof of control over `challenge`, in the order
/// the account checks it: a passkey needs the stored relying-party hash and
/// a valid assertion for it; a Stellar key must be its account address's
/// key; an EVM proof needs a recovery id of 0 or 1, then the key the host
/// recovered (`evm_recovered`) must be uncompressed and hash to the owner's
/// address.
pub open spec fn replacement_proof_spec(
    challenge: Seq<u8>,
    rpid_hash: Option<Seq<u8>>,
    signer: AccountSigner,
    evm_recovered: Option<Seq<u8>>,
) -> Result<(), AccountError> {
    match signer {
        AccountSigner::Passkey(s) => match rpid_hash {
            None => Err(AccountError::RpidNotFound),
            Some(h) => match crate::webauthn::client_data_spec(
                challenge,
                s.pop_signature.client_data_json@,
            ) {
                Err(e) => Err(crate::webauthn::assertion_error(e)),
                Ok(_) => match crate::webauthn::authenticator_data_spec(
                    h,
                    s.pop_signature.authenticator_data@,
                ) {
                    Err(e) => Err(crate::webauthn::assertion_error(e)),
                    Ok(_) => Ok(()),
                },
            },
        },
        AccountSigner::Stellar(s) => stellar_key_spec(s.address@, s.public_key@),
        AccountSigner::Evm(s) => if s.pop_signature.recovery_id > 1 {
            Err(AccountError::InvalidEvmRecoveryId)
        } else {
            match evm_recovered {
                Some(k) => if k[0] == 4u8 && evm_address_of(k) == s.address@ {
                    Ok(())
                } else {
                    Err(AccountError::InvalidSignature)
                },
                None => Err(AccountError::InvalidSignature),
            }
        },
    }
}

/// An EVM replacement owner proves control of its address: its proof is
/// accepted only with a recovery id of 0 or 1 and a recovered key that is
/// uncompressed and whose Keccak-256 hash ends in the owner's address. A
/// Stellar owner's key must be its account address's key, and a passkey
/// needs the stored relying-party hash.
pub proof fn lemma_replacement_proves_control(
    challenge: Seq<u8>,
    rpid_hash: Option<Seq<u8>>,
    signer: AccountSigner,
    evm_recovered: Option<Seq<u8>>,
)
    ensures
        replacement_proof_spec(challenge, rpid_hash, signer, evm_recovered) is Ok ==> match signer {
            AccountSigner::Evm(s) => {
                &&& s.pop_signature.recovery_id <= 1
                &&& evm_recovered is Some
                &&& evm_recovered->Some_0[0] == 4u8
                &&& keccak256_digest(evm_recovered->Some_0.subrange(1, 65)).subrange(12, 32)
                    == s.address@
            },
            AccountSigner::Stellar(s) => s.address@.kind == AddressKind::Account && s.address@.key
                == s.public_key@,
            AccountSigner::Passkey(_) => rpid_hash is Some,
        },
{
}

/// The outcome of replacing the owners of `a` by `signer` with the proof
/// over `challenge`: the proof's error, an exhausted session epoch, or the
/// next epoch with `signer` as the only owner; `b` is the account after.
pub open spec fn replaced_by(
    a: AccountView,
    b: AccountView,
    r: Result<u64, AccountError>,
    challenge: Seq<u8>,
    signer: AccountSigner,
    evm_recovered: Option<Seq<u8>>,
) -> bool {
    match replacement_proof_spec(challenge, a.rpid_hash, signer, evm_recovered) {
        Err(e) => r == Err::<u64, AccountError>(e),
        Ok(_) => if a.session_epoch == u64::MAX {
            r == Err::<u64, AccountError>(AccountError::ArithmeticOverflow)
        } else {
            r == Ok::<u64, AccountError>((a.session_epoch + 1) as u64) && b == replaced_spec(
                a,
                commitment_of(signer),
                (a.session_epoch + 1) as u64,
            )
        },
    }
}

/// The account after `commitment` replaced every active owner at session
/// epoch `epoch`.
pub open spec fn replaced_spec(a: AccountView, commitment: CommitmentView, epoch: u64) -> AccountView {
    AccountView {
        passkey: match commitment {
            CommitmentView::Passkey(k) => Some(k),
            _ => None,
        },
        stellar_signer: match commitment {
            CommitmentView::Stellar(k) => Some(k),
            _ => None,
        },
        evm_signer: match commitment {
            CommitmentView::Evm(k) => Some(k),
            _ => None,
        },
        session_epoch: epoch,
        ..a
    }
}

/// The guardian key set's checks: the set, its aggregate, then every proof
/// of possession.
pub open spec fn guardian_keys_spec(
    keys: Seq<Seq<u8>>,
    in_subgroup: Seq<bool>,
    agg: Seq<u8>,
    agg_in_subgroup: bool,
    pop_valid: Seq<bool>,
) -> Result<(), AccountError> {
    match crate::bls::key_set_spec(keys, in_subgroup) {
        Err(e) => Err(e),
        Ok(_) => match crate::bls::aggregate_spec(agg, agg_in_subgroup) {
            Err(e) => Err(e),
            Ok(_) => if forall|i: int| 0 <= i < pop_valid.len() ==> pop_valid[i] {
                Ok(())
            } else {
                Err(AccountError::InvalidPoPSignature)
            },
        },
    }
}

/// The account after installing its first owners and configuration.
pub open spec fn installed_spec(
    passkey: Option<Seq<u8>>,
    rpid_hash: Seq<u8>,
    stellar_signer: Option<Seq<u8>>,
    evm_signer: Option<Seq<u8>>,
    agg_bls_key: Seq<u8>,
    guardians: Seq<AddressView>,
    wasm: Seq<u8>,
    factory: AddressView,
    session_epoch: u64,
) -> AccountView {
    AccountView {
        factory: Some(factory),
        installed_wasm: Some(wasm),
        guardians,
        paused: false,
        unpause_approved: false,
        agg_bls_key: Some(agg_bls_key),
        passkey,
        stellar_signer,
        evm_signer,
        rpid_hash: Some(rpid_hash),
        session_epoch,
    }
}

/// Whether the window `[current, live_until]` of a rotation is acceptable.
pub open spec fn rotation_window_spec(current: u32, live_until: u32) -> Result<(), AccountError> {
    if current + MAX_AUTH_WINDOW_LEDGER > u32::MAX {
        Err(AccountError::ArithmeticOverflow)
    } else if live_until < current || live_until > current + MAX_AUTH_WINDOW_LEDGER {
        Err(AccountError::InvalidConfig)
    } else {
        Ok(())
    }
}

/// Whether the window `(current, live_until]` of a recovery is acceptable.
pub open spec fn recovery_window_spec(current: u32, live_until: u32) -> Result<(), AccountError> {
    if current + MAX_AUTH_WINDOW_LEDGER > u32::MAX {
        Err(AccountError::ArithmeticOverflow)
    } else if live_until <= current || live_until > current + MAX_AUTH_WINDOW_LEDGER {
        Err(AccountError::InvalidConfig)
    } else {
        Ok(())
    }
}

/// The XDR form of a commitment: a vector of the variant's name and the key.
pub open spec fn xdr_commitment(c: CommitmentView) -> Seq<u8> {
    let (name, key) = match c {
        CommitmentView::Passkey(k) => (seq![80u8, 97, 115, 115, 107, 101, 121], k),
        CommitmentView::Stellar(k) => (seq![83u8, 116, 101, 108, 108, 97, 114], k),
        CommitmentView::Evm(k) => (seq![69u8, 118, 109], k),
    };
    be32(16) + be32(1) + be32(2) + xdr_symbol(name) + xdr_bytes(key)
}

/// The payload of a rotation or recovery challenge.
pub open spec fn signer_challenge_payload(
    domain: Seq<u8>,
    network_id: Seq<u8>,
    contract: AddressView,
    live_until: u32,
    c: CommitmentView,
) -> Seq<u8> {
    domain + xdr_bytes(network_id) + xdr_address(contract) + xdr_u32(live_until) + xdr_commitment(c)
}

/// The key held by a commitment.
pub open spec fn commitment_key(c: CommitmentView) -> Seq<u8> {
    match c {
        CommitmentView::Passkey(k) => k,
        CommitmentView::Stellar(k) => k,
        CommitmentView::Evm(k) => k,
    }
}

/// The challenge a replacement owner and, for recovery, the guardians sign:
/// `SHA-256(domain || network id || account || live_until || commitment)`.
pub fn signer_challenge(
    env: &Env,
    network_id: &Vec<u8>,
    contract: &Address,
    live_until_ledger: u32,
    commitment: &AccountCommitment,
    domain: &Vec<u8>,
) -> (r: Vec<u8>)
    requires
        domain@.len() <= 64,
        network_id@.len() <= 64,
        contract@.key.len() <= 64,
        commitment_key(commitment@).len() <= 128,
    ensures
        r@ == sha256_digest(
            signer_challenge_payload(
                domain@,
                network_id@,
                contract@,
                live_until_ledger,
                commitment@,
            ),
        ),
{
    let mut payload = copy_bytes(domain);
    push_xdr_bytes(&mut payload, network_id);
    push_xdr_address(&mut payload, contract);
    push_xdr_u32(&mut payload, live_until_ledger);
    let ghost before = payload@;
    push_be32(&mut payload, 16);
    push_be32(&mut payload, 1);
    push_be32(&mut payload, 2);
    let (name, key) = match commitment {
        AccountCommitment::Passkey(k) => (vec![80u8, 97, 115, 115, 107, 101, 121], k),
        AccountCommitment::Stellar(k) => (vec![83u8, 116, 101, 108, 108, 97, 114], k),
        AccountCommitment::Evm(k) => (vec![69u8, 118, 109], k),
    };
    push_xdr_symbol(&mut payload, &name);
    push_xdr_bytes(&mut payload, key);
    proof {
        let c = commitment@;
        match c {
            CommitmentView::Passkey(k) => {
                assert(name@ =~= seq![80u8, 97, 115, 115, 107, 101, 121]);
            },
            CommitmentView::Stellar(k) => {
                assert(name@ =~= seq![83u8, 116, 101, 108, 108, 97, 114]);
            },
            CommitmentView::Evm(k) => {
                assert(name@ =~= seq![69u8, 118, 109]);
            },
        }
        assert(payload@ =~= signer_challenge_payload(
            domain@,
            network_id@,
            contract@,
            live_until_ledger,
            commitment@,
        ));
    }
    sha256(env, &payload)
}

/// The EVM address of an uncompressed secp256k1 public key: the last 20
/// bytes of the Keccak-256 hash of its 64 coordinate bytes.
pub open spec fn evm_address_of(public_key: Seq<u8>) -> Seq<u8> {
    keccak256_digest(public_key.subrange(1, 65)).subrange(12, 32)
}

/// The digest an EVM owner signs for a 32-byte message: the Keccak-256 hash
/// of the Ethereum personal-sign prefix and the message.
pub open spec fn evm_digest_spec(message: Seq<u8>) -> Seq<u8> {
    keccak256_digest(eth_personal_sign_prefix() + message)
}

/// Checks an EVM signature's recovery id and returns the digest from which
/// the signer's public key is recovered.
pub fn evm_signature_digest(env: &Env, recovery_id: u32, message: &Vec<u8>) -> (r: Result<
    Vec<u8>,
    AccountError,
>)
    requires
        message@.len() == 32,
    ensures
        recovery_id > 1 ==> r == Err::<Vec<u8>, AccountError>(AccountError::InvalidEvmRecoveryId),
        recovery_id <= 1 ==> (r matches Ok(d) && d@ == evm_digest_spec(message@)),
{
    if recovery_id > 1 {
        return Err(AccountError::InvalidEvmRecoveryId);
    }
    let mut m = eth_personal_sign_prefix_bytes();
    append_bytes(&mut m, message);
    Ok(keccak256(env, &m))
}

/// Checks that a recovered public key is uncompressed and belongs to the
/// expected EVM address.
pub fn check_recovered_evm_address(env: &Env, recovered: &Vec<u8>, expected_address: &Vec<u8>) -> (r:
    Result<(), AccountError>)
    requires
        recovered@.len() == 65,
        expected_address@.len() == 20,
    ensures
        r is Ok <==> (recovered@[0] == 4u8 && evm_address_of(recovered@) == expected_address@),
        r is Err ==> r == Err::<(), AccountError>(AccountError::InvalidSignature),
{
    if recovered[0] != 4u8 {
        return Err(AccountError::InvalidSignature);
    }
    let mut raw: Vec<u8> = Vec::new();
    let mut i: usize = 1;
    while i < 65
        invariant
            1 <= i <= 65,
            recovered@.len() == 65,
            raw@ == recovered@.subrange(1, i as int),
        decreases 65 - i,
    {
        raw.push(recovered[i]);
        i = i + 1;
        assert(raw@ =~= recovered@.subrange(1, i as int));
    }
    assert(raw@ =~= recovered@.subrange(1, 65));
    let hash = keccak256(env, &raw);
    let mut k: usize = 0;
    while k < 20
        invariant
            k <= 20,
            recovered@.len() == 65,
            recovered@[0] == 4u8,
            hash@ == keccak256_digest(recovered@.subrange(1, 65)),
            hash@.len() == 32,
            expected_address@.len() == 20,
            forall|j: int| 0 <= j < k ==> hash@[j + 12] == expected_address@[j],
        decreases 20 - k,
    {
        if hash[k + 12] != expected_address[k] {
            assert(hash@.subrange(12, 32)[k as int] != expected_address@[k as int]);
            return Err(AccountError::InvalidSignature);
        }
        k = k + 1;
    }
    assert(hash@.subrange(12, 32) =~= expected_address@);
    Ok(())
}

/// What the caller must still verify, with the host, for an owner
/// authorization that passed the account's own checks.
pub enum AuthObligation {
    /// The passkey's P-256 signature over this digest.
    Passkey { public_key: Vec<u8>, digest: Vec<u8>, signature: Vec<u8> },
    /// The Stellar signer's Ed25519 signature over the payload.
    Stellar { public_key: Vec<u8>, signature: Vec<u8> },
    /// Recover the secp256k1 key from this digest and check it against the
    /// EVM signer with `Account::verify_evm`.
    Evm { digest: Vec<u8>, signature: Vec<u8>, recovery_id: u32, expected_address: Vec<u8> },
    /// Authorize through the session policy.
    Session { policy_id: Vec<u8> },
}

/// The paused-account rule: while paused, only calls of this account's own
/// `unpause` may be authorized.
pub open spec fn contexts_allowed_spec(paused: bool, account: AddressView, cs: Seq<ContextView>) -> bool {
    !paused || forall|i: int|
        0 <= i < cs.len() ==> (#[trigger] cs[i] matches ContextView::Contract { contract, fn_name, .. }
            && contract == account && fn_name == unpause_fn())
}

/// A call of `account`'s own `unpause`.
pub open spec fn is_own_unpause(account: AddressView, c: ContextView) -> bool {
    c matches ContextView::Contract { contract, fn_name, .. } && contract == account && fn_name
        == seq![117u8, 110, 112, 97, 117, 115, 101]
}

/// While the account is paused, an owner's authorization covers a set of
/// calls only when every one of them is the account's own `unpause`, so no
/// other call can ride along with it: a list of calls is allowed exactly
/// when each of its parts is, whatever their order. An unpaused account
/// allows any calls.
pub proof fn lemma_paused_allows_only_unpause(
    account: AddressView,
    cs: Seq<ContextView>,
    ds: Seq<ContextView>,
)
    ensures
        contexts_allowed_spec(false, account, cs),
        contexts_allowed_spec(true, account, cs) <==> forall|i: int|
            0 <= i < cs.len() ==> is_own_unpause(account, #[trigger] cs[i]),
        contexts_allowed_spec(true, account, cs + ds) <==> (contexts_allowed_spec(true, account, cs)
            && contexts_allowed_spec(true, account, ds)),
{
    let all = cs + ds;
    if contexts_allowed_spec(true, account, cs) && contexts_allowed_spec(true, account, ds) {
        assert forall|i: int| 0 <= i < all.len() implies (#[trigger] all[i] matches ContextView::Contract {
            contract,
            fn_name,
            ..
        } && contract == account && fn_name == unpause_fn()) by {
            if i < cs.len() {
                assert(all[i] == cs[i]);
            } else {
                assert(all[i] == ds[i - cs.len()]);
            }
        }
    }
    if contexts_allowed_spec(true, account, all) {
        assert forall|i: int| 0 <= i < cs.len() implies (#[trigger] cs[i] matches ContextView::Contract {
            contract,
            fn_name,
            ..
        } && contract == account && fn_name == unpause_fn()) by {
            assert(all[i] == cs[i]);
        }
        assert forall|i: int| 0 <= i < ds.len() implies (#[trigger] ds[i] matches ContextView::Contract {
            contract,
            fn_name,
            ..
        } && contract == account && fn_name == unpause_fn()) by {
            assert(all[i + cs.len()] == ds[i]);
        }
    }
}

impl Account {
    /// A freshly deployed account, not yet initialized.
    pub fn new() -> (r: Account)
        ensures
            r@ == (AccountView {
                factory: None,
                installed_wasm: None,
                guardians: Seq::empty(),
                paused: false,
                unpause_approved: false,
                agg_bls_key: None,
                passkey: None,
                stellar_signer: None,
                evm_signer: None,
                rpid_hash: None,
                session_epoch: 0,
            }),
    {
        let r = Account {
            factory: None,
            installed_wasm: None,
            guardians: Vec::new(),
            paused: false,
            unpause_approved: false,
            agg_bls_key: None,
            passkey: None,
            stellar_signer: None,
            evm_signer: None,
            rpid_hash: None,
            session_epoch: 0,
        };
        assert(r@.guardians =~= Seq::<AddressView>::empty());
        r
    }

    /// Whether the account is initialized: its guardian key is set.
    pub fn is_initialized(&self) -> (r: bool)
        ensures
            r == (self@.agg_bls_key is Some),
    {
        self.agg_bls_key.is_some()
    }

    /// The constructor's checks on the owner configuration.
    pub fn check_constructor_config(
        &self,
        guardians: &Vec<Address>,
        passkey: &Option<Vec<u8>>,
        passkey_sig: &Option<PasskeySignature>,
        rpid_hash: &Option<Vec<u8>>,
        stellar_signer: &Option<Vec<u8>>,
        stellar_address: &Option<Address>,
        evm_signer: &Option<Vec<u8>>,
        evm_sig: &Option<EvmSignature>,
    ) -> (r: Result<(), AccountError>)
        ensures
            r == constructor_config_spec(
                self@.agg_bls_key is Some,
                views_of(guardians@),
                passkey is Some,
                passkey_sig is Some,
                rpid_hash is Some,
                stellar_signer is Some,
                stellar_address is Some,
                evm_signer is Some,
                evm_sig is Some,
            ),
    {
        if self.is_initialized() {
            return Err(AccountError::AlreadyInitialized);
        }
        validate_guardians(guardians)?;
        if passkey.is_some() != passkey_sig.is_some() || stellar_signer.is_some()
            != stellar_address.is_some() || evm_signer.is_some() != evm_sig.is_some() {
            return Err(AccountError::InvalidConfig);
        }
        if passkey.is_none() && stellar_signer.is_none() && evm_signer.is_none() {
            return Err(AccountError::InvalidConfig);
        }
        if rpid_hash.is_none() {
            return Err(AccountError::RpidNotFound);
        }
        Ok(())
    }

    /// Initializes a newly deployed account from its owner configuration and
    /// the host's results on it: `evm_recovered` is the key the host
    /// recovered from the EVM owner's signature over `challenge`;
    /// `in_subgroup`, `agg`, `agg_in_subgroup` and `pop_valid` are the host's
    /// subgroup checks of the guardian keys, their sum, its subgroup check and
    /// the pairing check of each proof of possession. The checks run in the
    /// order the account applies them; on success the owners, the
    /// relying-party hash, the aggregate guardian key, the guardians, the code
    /// hash and the factory are installed and the account is unpaused. The
    /// passkey's P-256 signature is verified by the host before this call.
    pub fn initialize(
        &mut self,
        env: &Env,
        challenge: &Vec<u8>,
        passkey: Option<Vec<u8>>,
        passkey_sig: Option<PasskeySignature>,
        rpid_hash: Option<Vec<u8>>,
        stellar_signer: Option<Vec<u8>>,
        stellar_address: Option<Address>,
        evm_signer: Option<Vec<u8>>,
        evm_sig: Option<EvmSignature>,
        evm_recovered: Option<Vec<u8>>,
        bls_keys_pop: &Vec<crate::bls::BlsKeyWithPoP>,
        in_subgroup: &Vec<bool>,
        agg: &Vec<u8>,
        agg_in_subgroup: bool,
        pop_valid: &Vec<bool>,
        guardians: Vec<Address>,
        wasm_hash: Vec<u8>,
        factory: Address,
    ) -> (r: Result<(), AccountError>)
        requires
            rpid_hash matches Some(h) ==> h@.len() == 32,
            evm_signer matches Some(a) ==> a@.len() == 20,
            (evm_sig matches Some(s) && s.recovery_id <= 1) ==> (evm_recovered matches Some(k)
                && k@.len() == 65),
            in_subgroup@.len() == bls_keys_pop@.len(),
            pop_valid@.len() == bls_keys_pop@.len(),
            forall|i: int|
                0 <= i < bls_keys_pop@.len() ==> (#[trigger] bls_keys_pop@[i]).key@.len() == 96,
            agg@.len() == 96,
        ensures
            ({
                let config = constructor_config_spec(
                    old(self)@.agg_bls_key is Some,
                    views_of(guardians@),
                    passkey is Some,
                    passkey_sig is Some,
                    rpid_hash is Some,
                    stellar_signer is Some,
                    stellar_address is Some,
                    evm_signer is Some,
                    evm_sig is Some,
                );
                let proofs = owner_proofs_spec(
                    challenge@,
                    opt_bytes(rpid_hash)->Some_0,
                    match passkey_sig {
                        Some(s) => Some((s.authenticator_data@, s.client_data_json@)),
                        None => None,
                    },
                    match (stellar_signer, stellar_address) {
                        (Some(k), Some(a)) => Some((k@, a@)),
                        _ => None,
                    },
                    match (evm_signer, evm_sig) {
                        (Some(a), Some(s)) => Some(
                            (
                                a@,
                                s.recovery_id,
                                match evm_recovered {
                                    Some(k) => k@,
                                    None => Seq::empty(),
                                },
                            ),
                        ),
                        _ => None,
                    },
                );
                let keys = guardian_keys_spec(
                    crate::bls::keys_of(bls_keys_pop@),
                    in_subgroup@,
                    agg@,
                    agg_in_subgroup,
                    pop_valid@,
                );
                if config is Err {
                    r == config && final(self)@ == old(self)@
                } else if proofs is Err {
                    r == proofs && final(self)@ == old(self)@
                } else if keys is Err {
                    r == keys && final(self)@ == old(self)@
                } else {
                    r is Ok && final(self)@ == installed_spec(
                        opt_bytes(passkey),
                        opt_bytes(rpid_hash)->Some_0,
                        opt_bytes(stellar_signer),
                        opt_bytes(evm_signer),
                        agg@,
                        views_of(guardians@),
                        wasm_hash@,
                        factory@,
                        old(self)@.session_epoch,
                    )
                }
            }),
    {
        self.check_constructor_config(
            &guardians,
            &passkey,
            &passkey_sig,
            &rpid_hash,
            &stellar_signer,
            &stellar_address,
            &evm_signer,
            &evm_sig,
        )?;
        let rpid = match &rpid_hash {
            Some(h) => copy_bytes(h),
            None => {
                return Err(AccountError::RpidNotFound);
            },
        };
        if let Some(s) = &passkey_sig {
            match crate::webauthn::validate_passkey_assertion_data(
                challenge,
                &rpid,
                &s.authenticator_data,
                &s.client_data_json,
            ) {
                Err(e) => {
                    return Err(crate::webauthn::to_account_error(e));
                },
                Ok(()) => {},
            }
        }
        if let (Some(k), Some(a)) = (&stellar_signer, &stellar_address) {
            validate_stellar_address_key(a, k)?;
        }
        if let (Some(address), Some(s)) = (&evm_signer, &evm_sig) {
            if s.recovery_id > 1 {
                return Err(AccountError::InvalidEvmRecoveryId);
            }
            match &evm_recovered {
                Some(key) => {
                    check_recovered_evm_address(env, key, address)?;
                },
                None => {
                    return Err(AccountError::InvalidSignature);
                },
            }
        }
        let agg_key = crate::bls::validate_verify_bls_key_set_pop(
            bls_keys_pop,
            in_subgroup,
            agg,
            agg_in_subgroup,
            pop_valid,
        )?;
        self.install(
            passkey,
            rpid,
            stellar_signer,
            evm_signer,
            agg_key,
            guardians,
            wasm_hash,
            factory,
        );
        Ok(())
    }

    /// Installs the first owners, the relying-party hash, the aggregated
    /// guardian key, the guardians, the installed code hash and the factory;
    /// the account starts unpaused.
    pub fn install(
        &mut self,
        passkey: Option<Vec<u8>>,
        rpid_hash: Vec<u8>,
        stellar_signer: Option<Vec<u8>>,
        evm_signer: Option<Vec<u8>>,
        agg_bls_key: Vec<u8>,
        guardians: Vec<Address>,
        wasm_hash: Vec<u8>,
        factory: Address,
    )
        ensures
            final(self)@ == installed_spec(
                opt_bytes(passkey),
                rpid_hash@,
                opt_bytes(stellar_signer),
                opt_bytes(evm_signer),
                agg_bls_key@,
                views_of(guardians@),
                wasm_hash@,
                factory@,
                old(self)@.session_epoch,
            ),
    {
        self.passkey = passkey;
        self.rpid_hash = Some(rpid_hash);
        self.stellar_signer = stellar_signer;
        self.evm_signer = evm_signer;
        self.agg_bls_key = Some(agg_bls_key);
        self.guardians = guardians;
        self.installed_wasm = Some(wasm_hash);
        self.factory = Some(factory);
        self.paused = false;
        self.unpause_approved = false;
    }

    /// Removes every active owner; the relying-party hash and the guardian
    /// key are kept.
    pub fn clear_active_signers(&mut self)
        ensures
            final(self)@ == (AccountView {
                passkey: None,
                stellar_signer: None,
                evm_signer: None,
                ..old(self)@
            }),
    {
        self.passkey = None;
        self.stellar_signer = None;
        self.evm_signer = None;
    }

    /// The stored relying-party hash, required to install a passkey.
    pub fn read_rpid_hash(&self) -> (r: Option<Vec<u8>>)
        ensures
            opt_bytes(r) == self@.rpid_hash,
    {
        copy_opt_bytes(&self.rpid_hash)
    }

    /// The registered passkey.
    pub fn read_passkey(&self) -> (r: Option<Vec<u8>>)
        ensures
            opt_bytes(r) == self@.passkey,
    {
        copy_opt_bytes(&self.passkey)
    }

    /// The factory that deployed the account.
    pub fn read_factory(&self) -> (r: Option<Address>)
        ensures
            match r {
                Some(a) => self@.factory == Some(a@),
                None => self@.factory is None,
            },
    {
        match &self.factory {
            Some(a) => Some(a.duplicate()),
            None => None,
        }
    }

    /// Verifies an EVM owner's signature, given the key the host recovered
    /// from it (`recovered`); see `evm_verification_spec`.
    pub fn verify_evm(
        &self,
        env: &Env,
        evm_sig: &EvmSignature,
        recovered: &Option<Vec<u8>>,
    ) -> (r: Result<(), AccountError>)
        requires
            self@.evm_signer matches Some(a) ==> a.len() == 20,
            recovered matches Some(k) ==> k@.len() == 65,
        ensures
            r == evm_verification_spec(self@.evm_signer, evm_sig.recovery_id, opt_bytes(*recovered)),
    {
        if evm_sig.recovery_id > 1 {
            return Err(AccountError::InvalidEvmRecoveryId);
        }
        let expected = match &self.evm_signer {
            Some(a) => a,
            None => {
                return Err(AccountError::EvmSignerNotFound);
            },
        };
        match recovered {
            Some(k) => match check_recovered_evm_address(env, k, expected) {
                Ok(()) => Ok(()),
                Err(_) => Err(AccountError::InvalidSignature),
            },
            None => Err(AccountError::InvalidSignature),
        }
    }

    /// Rotates the account to `signer` at ledger `current`, for a rotation
    /// valid through `live_until_ledger`, once the host has done its part of
    /// the owner's proof over the rotation `challenge` (the P-256 check of a
    /// passkey assertion, the Stellar owner's authorization, the recovery of
    /// an EVM key into `evm_recovered`). The window, then the proof are
    /// checked in the account's order; then the owner replaces every active
    /// owner and the session epoch advances. On any error the account is
    /// unchanged.
    pub fn rotate_signer(
        &mut self,
        env: &Env,
        current: u32,
        live_until_ledger: u32,
        challenge: &Vec<u8>,
        signer: &AccountSigner,
        evm_recovered: &Option<Vec<u8>>,
    ) -> (r: Result<u64, AccountError>)
        requires
            old(self)@.rpid_hash matches Some(h) ==> h.len() == 32,
            signer matches AccountSigner::Evm(s) ==> s.address@.len() == 20,
            evm_recovered matches Some(k) ==> k@.len() == 65,
        ensures
            r is Err ==> final(self)@ == old(self)@,
            match rotation_window_spec(current, live_until_ledger) {
                Err(e) => r == Err::<u64, AccountError>(e),
                Ok(_) => replaced_by(old(self)@, final(self)@, r, challenge@, *signer, opt_bytes(*evm_recovered)),
            },
            r is Ok ==> match *signer {
                AccountSigner::Evm(s) => (evm_recovered matches Some(k) && k@[0] == 4u8
                    && evm_address_of(k@) == s.address@),
                _ => true,
            },
    {
        proof {
            lemma_replacement_proves_control(
                challenge@,
                old(self)@.rpid_hash,
                *signer,
                opt_bytes(*evm_recovered),
            );
        }
        check_rotation_window(current, live_until_ledger)?;
        self.replace_signer(env, challenge, signer, evm_recovered)
    }

    /// Recovers the account to `signer` at ledger `current`, for a recovery
    /// valid through `live_until_ledger`: the window, then the guardians'
    /// approval (`pairing_ok`, the host's pairing check of the recovery
    /// signature against the aggregate guardian key over the recovery
    /// `challenge`), then the replacement owner's proof as in
    /// `rotate_signer`. On any error the account is unchanged.
    pub fn recover_signer(
        &mut self,
        env: &Env,
        current: u32,
        live_until_ledger: u32,
        challenge: &Vec<u8>,
        pairing_ok: bool,
        signer: &AccountSigner,
        evm_recovered: &Option<Vec<u8>>,
    ) -> (r: Result<u64, AccountError>)
        requires
            old(self)@.rpid_hash matches Some(h) ==> h.len() == 32,
            signer matches AccountSigner::Evm(s) ==> s.address@.len() == 20,
            evm_recovered matches Some(k) ==> k@.len() == 65,
        ensures
            r is Err ==> final(self)@ == old(self)@,
            match recovery_window_spec(current, live_until_ledger) {
                Err(e) => r == Err::<u64, AccountError>(e),
                Ok(_) => if !pairing_ok {
                    r == Err::<u64, AccountError>(AccountError::InvalidSignature)
                } else {
                    replaced_by(old(self)@, final(self)@, r, challenge@, *signer, opt_bytes(*evm_recovered))
                },
            },
            r is Ok ==> match *signer {
                AccountSigner::Evm(s) => (evm_recovered matches Some(k) && k@[0] == 4u8
                    && evm_address_of(k@) == s.address@),
                _ => true,
            },
    {
        proof {
            lemma_replacement_proves_control(
                challenge@,
                old(self)@.rpid_hash,
                *signer,
                opt_bytes(*evm_recovered),
            );
        }
        check_recovery_window(current, live_until_ledger)?;
        crate::bls::check_recovery_signature(pairing_ok)?;
        self.replace_signer(env, challenge, signer, evm_recovered)
    }

    /// Checks a replacement owner's proof, then installs it.
    fn replace_signer(
        &mut self,
        env: &Env,
        challenge: &Vec<u8>,
        signer: &AccountSigner,
        evm_recovered: &Option<Vec<u8>>,
    ) -> (r: Result<u64, AccountError>)
        requires
            old(self)@.rpid_hash matches Some(h) ==> h.len() == 32,
            signer matches AccountSigner::Evm(s) ==> s.address@.len() == 20,
            evm_recovered matches Some(k) ==> k@.len() == 65,
        ensures
            r is Err ==> final(self)@ == old(self)@,
            replaced_by(old(self)@, final(self)@, r, challenge@, *signer, opt_bytes(*evm_recovered)),
    {
        self.check_replacement_proof(env, challenge, signer, evm_recovered)?;
        let commitment = resolve_signer(signer);
        self.install_signer(&commitment)
    }

    /// Checks a replacement owner's proof; see `replacement_proof_spec`.
    fn check_replacement_proof(
        &self,
        env: &Env,
        challenge: &Vec<u8>,
        signer: &AccountSigner,
        evm_recovered: &Option<Vec<u8>>,
    ) -> (r: Result<(), AccountError>)
        requires
            self@.rpid_hash matches Some(h) ==> h.len() == 32,
            signer matches AccountSigner::Evm(s) ==> s.address@.len() == 20,
            evm_recovered matches Some(k) ==> k@.len() == 65,
        ensures
            r == replacement_proof_spec(challenge@, self@.rpid_hash, *signer, opt_bytes(*evm_recovered)),
    {
        match signer {
            AccountSigner::Passkey(s) => {
                let rpid = match &self.rpid_hash {
                    Some(h) => h,
                    None => {
                        return Err(AccountError::RpidNotFound);
                    },
                };
                match crate::webauthn::validate_passkey_assertion_data(
                    challenge,
                    rpid,
                    &s.pop_signature.authenticator_data,
                    &s.pop_signature.client_data_json,
                ) {
                    Err(e) => Err(crate::webauthn::to_account_error(e)),
                    Ok(()) => Ok(()),
                }
            },
            AccountSigner::Stellar(s) => validate_stellar_address_key(&s.address, &s.public_key),
            AccountSigner::Evm(s) => {
                if s.pop_signature.recovery_id > 1 {
                    return Err(AccountError::InvalidEvmRecoveryId);
                }
                match evm_recovered {
                    Some(k) => match check_recovered_evm_address(env, k, &s.address) {
                        Ok(()) => Ok(()),
                        Err(_) => Err(AccountError::InvalidSignature),
                    },
                    None => Err(AccountError::InvalidSignature),
                }
            },
        }
    }

    /// Replaces every active owner with the one `commitment` names and
    /// advances the session epoch, revoking all sessions; returns the new
    /// epoch. A passkey owner needs the stored relying-party hash.
    pub fn install_signer(&mut self, commitment: &AccountCommitment) -> (r: Result<u64, AccountError>)
        ensures
            match commitment@ {
                CommitmentView::Passkey(_) => old(self)@.rpid_hash is None ==> r == Err::<
                    u64,
                    AccountError,
                >(AccountError::RpidNotFound),
                _ => true,
            },
            r matches Err(e) ==> final(self)@ == old(self)@ && (e == AccountError::RpidNotFound
                || e == AccountError::ArithmeticOverflow),
            old(self)@.session_epoch == u64::MAX && !(commitment@ is Passkey && old(self)@.rpid_hash is None)
                ==> r == Err::<u64, AccountError>(AccountError::ArithmeticOverflow),
            r matches Ok(epoch) ==> epoch == old(self)@.session_epoch + 1 && final(self)@ == (
            AccountView {
                passkey: match commitment@ {
                    CommitmentView::Passkey(k) => Some(k),
                    _ => None,
                },
                stellar_signer: match commitment@ {
                    CommitmentView::Stellar(k) => Some(k),
                    _ => None,
                },
                evm_signer: match commitment@ {
                    CommitmentView::Evm(k) => Some(k),
                    _ => None,
                },
                session_epoch: epoch,
                ..old(self)@
            }),
            !(commitment@ is Passkey && old(self)@.rpid_hash is None) && old(self)@.session_epoch
                < u64::MAX ==> r is Ok,
    {
        if let AccountCommitment::Passkey(_) = commitment {
            if self.rpid_hash.is_none() {
                return Err(AccountError::RpidNotFound);
            }
        }
        let epoch = match self.session_epoch.checked_add(1) {
            Some(e) => e,
            None => {
                return Err(AccountError::ArithmeticOverflow);
            },
        };
        self.clear_active_signers();
        match commitment {
            AccountCommitment::Passkey(k) => {
                self.passkey = Some(copy_bytes(k));
            },
            AccountCommitment::Stellar(k) => {
                self.stellar_signer = Some(copy_bytes(k));
            },
            AccountCommitment::Evm(k) => {
                self.evm_signer = Some(copy_bytes(k));
            },
        }
        self.session_epoch = epoch;
        Ok(epoch)
    }

    /// Advances the session epoch, revoking every existing session.
    pub fn revoke_all_sessions(&mut self) -> (r: Result<u64, AccountError>)
        ensures
            old(self)@.session_epoch < u64::MAX ==> (r matches Ok(e) && e == old(self)@.session_epoch
                + 1 && final(self)@ == (AccountView { session_epoch: e, ..old(self)@ })),
            old(self)@.session_epoch == u64::MAX ==> r == Err::<u64, AccountError>(
                AccountError::ArithmeticOverflow,
            ) && final(self)@ == old(self)@,
    {
        match self.session_epoch.checked_add(1) {
            Some(e) => {
                self.session_epoch = e;
                Ok(e)
            },
            None => Err(AccountError::ArithmeticOverflow),
        }
    }

    /// While the account is paused, only its own `unpause` can be authorized
    /// by an owner.
    pub fn validate_auth_contexts(&self, account: &Address, contexts: &Vec<AuthContext>) -> (r:
        Result<(), AccountError>)
        ensures
            r is Ok <==> contexts_allowed_spec(self.paused, account@, context_views(contexts@)),
            r is Err ==> r == Err::<(), AccountError>(AccountError::AccountPaused),
            self.paused && r is Ok ==> forall|i: int|
                0 <= i < contexts@.len() ==> is_own_unpause(account@, (#[trigger] contexts@[i])@),
    {
        proof {
            lemma_paused_allows_only_unpause(account@, context_views(contexts@), Seq::empty());
            assert forall|i: int| 0 <= i < contexts@.len() implies context_views(contexts@)[i] == (
            #[trigger] contexts@[i])@ by {}
        }
        if !self.paused {
            return Ok(());
        }
        let ghost cs = context_views(contexts@);
        let unpause = unpause_fn_bytes();
        let mut i: usize = 0;
        while i < contexts.len()
            invariant
                i <= contexts.len(),
                self.paused,
                cs == context_views(contexts@),
                unpause@ == unpause_fn(),
                forall|k: int|
                    0 <= k < i ==> (#[trigger] cs[k] matches ContextView::Contract {
                        contract,
                        fn_name,
                        ..
                    } && contract == account@ && fn_name == unpause_fn()),
            decreases contexts.len() - i,
        {
            assert(cs[i as int] == contexts@[i as int]@);
            match &contexts[i] {
                AuthContext::Contract(c) => {
                    if !c.contract.same(account) {
                        return Err(AccountError::AccountPaused);
                    }
                    if !bytes_eq(&c.fn_name, &unpause) {
                        return Err(AccountError::AccountPaused);
                    }
                },
                AuthContext::CreateContract => {
                    return Err(AccountError::AccountPaused);
                },
            }
            i = i + 1;
        }
        Ok(())
    }

    /// Pauses the account at a guardian's request; `guardian_can_pause` is
    /// whether that guardian may pause. A new pause withdraws any earlier
    /// unpause approval; pausing a paused account changes nothing.
    pub fn pause(&mut self, guardian_can_pause: bool) -> (r: Result<(), AccountError>)
        ensures
            !guardian_can_pause ==> r == Err::<(), AccountError>(AccountError::UnauthorizedGuardian)
                && final(self)@ == old(self)@,
            guardian_can_pause && old(self).paused ==> r is Ok && final(self)@ == old(self)@,
            guardian_can_pause && !old(self).paused ==> r is Ok && final(self)@ == (AccountView {
                paused: true,
                unpause_approved: false,
                ..old(self)@
            }),
    {
        if !guardian_can_pause {
            return Err(AccountError::UnauthorizedGuardian);
        }
        if self.paused {
            return Ok(());
        }
        self.paused = true;
        self.unpause_approved = false;
        Ok(())
    }

    /// Records a guardian's approval to unpause; `guardian_can_approve` is
    /// whether that guardian may approve.
    pub fn approve_unpause(&mut self, guardian_can_approve: bool) -> (r: Result<(), AccountError>)
        ensures
            !guardian_can_approve ==> r == Err::<(), AccountError>(
                AccountError::UnauthorizedGuardian,
            ) && final(self)@ == old(self)@,
            guardian_can_approve && !old(self).paused ==> r is Ok && final(self)@ == old(self)@,
            guardian_can_approve && old(self).paused ==> r is Ok && final(self)@ == (AccountView {
                unpause_approved: true,
                ..old(self)@
            }),
    {
        if !guardian_can_approve {
            return Err(AccountError::UnauthorizedGuardian);
        }
        if !self.paused {
            return Ok(());
        }
        self.unpause_approved = true;
        Ok(())
    }

    /// Resumes the account once a guardian approved it.
    pub fn unpause(&mut self) -> (r: Result<(), AccountError>)
        ensures
            !old(self).paused ==> r is Ok && final(self)@ == old(self)@,
            old(self).paused && !old(self).unpause_approved ==> r == Err::<(), AccountError>(
                AccountError::UnpauseNotApproved,
            ) && final(self)@ == old(self)@,
            old(self).paused && old(self).unpause_approved ==> r is Ok && final(self)@ == (
            AccountView { paused: false, unpause_approved: false, ..old(self)@ }),
    {
        if !self.paused {
            return Ok(());
        }
        if !self.unpause_approved {
            return Err(AccountError::UnpauseNotApproved);
        }
        self.paused = false;
        self.unpause_approved = false;
        Ok(())
    }

    /// Adds a guardian: never the account itself, at most five, none twice.
    pub fn add_guardian(&mut self, account: &Address, guardian: &Address) -> (r: Result<
        (),
        AccountError,
    >)
        ensures
            guardian@ == account@ ==> r == Err::<(), AccountError>(AccountError::InvalidGuardian),
            guardian@ != account@ && old(self)@.guardians.contains(guardian@) ==> r == Err::<
                (),
                AccountError,
            >(AccountError::DuplicateGuardian),
            guardian@ != account@ && !old(self)@.guardians.contains(guardian@)
                && old(self)@.guardians.len() >= MAX_GUARDIANS ==> r == Err::<(), AccountError>(
                AccountError::MaxGuardiansExceeded,
            ),
            r is Err ==> final(self)@ == old(self)@,
            r is Ok ==> final(self)@ == (AccountView {
                guardians: old(self)@.guardians.push(guardian@),
                ..old(self)@
            }),
            guardian@ != account@ && !old(self)@.guardians.contains(guardian@)
                && old(self)@.guardians.len() < MAX_GUARDIANS ==> r is Ok,
    {
        if guardian.same(account) {
            return Err(AccountError::InvalidGuardian);
        }
        let ghost g = views_of(self.guardians@);
        let mut i: usize = 0;
        while i < self.guardians.len()
            invariant
                i <= self.guardians.len(),
                guardian@ != account@,
                g == views_of(self.guardians@),
                forall|k: int| 0 <= k < i ==> g[k] != guardian@,
            decreases self.guardians.len() - i,
        {
            assert(g[i as int] == self.guardians@[i as int]@);
            if self.guardians[i].same(guardian) {
                return Err(AccountError::DuplicateGuardian);
            }
            i = i + 1;
        }
        if self.guardians.len() >= 5 {
            return Err(AccountError::MaxGuardiansExceeded);
        }
        self.guardians.push(guardian.duplicate());
        assert(views_of(self.guardians@) =~= g.push(guardian@));
        Ok(())
    }

    /// Whether the account runs an older code hash than the factory's latest
    /// approved one, and that target hash.
    pub fn read_migration_required(&self, latest_wasm: &Vec<u8>) -> (r: (bool, Option<Vec<u8>>))
        requires
            self@.installed_wasm is Some,
        ensures
            r.0 == (self@.installed_wasm != Some(latest_wasm@)),
            r.0 ==> opt_bytes(r.1) == Some(latest_wasm@),
            !r.0 ==> r.1 is None,
    {
        match &self.installed_wasm {
            Some(w) => {
                if bytes_eq(w, latest_wasm) {
                    (false, None)
                } else {
                    (true, Some(copy_bytes(latest_wasm)))
                }
            },
            None => (false, None),
        }
    }

    /// Whether `guardian` is one of the account's guardians.
    pub fn is_guardian(&self, guardian: &Address) -> (r: bool)
        ensures
            r == self@.guardians.contains(guardian@),
    {
        let ghost g = views_of(self.guardians@);
        let mut i: usize = 0;
        while i < self.guardians.len()
            invariant
                i <= self.guardians.len(),
                g == views_of(self.guardians@),
                forall|k: int| 0 <= k < i ==> g[k] != guardian@,
            decreases self.guardians.len() - i,
        {
            assert(g[i as int] == self.guardians@[i as int]@);
            if self.guardians[i].same(guardian) {
                return true;
            }
            i = i + 1;
        }
        false
    }

    /// Migration to the factory's latest code hash: the hash to install, or
    /// `MigrationNotRequired` when the account runs it already.
    pub fn migrate(&self, latest_wasm: &Vec<u8>) -> (r: Result<Vec<u8>, AccountError>)
        requires
            self@.installed_wasm is Some,
        ensures
            self@.installed_wasm == Some(latest_wasm@) ==> r == Err::<Vec<u8>, AccountError>(
                AccountError::MigrationNotRequired,
            ),
            self@.installed_wasm != Some(latest_wasm@) ==> (r matches Ok(w) && w@ == latest_wasm@),
    {
        let (required, wasm) = self.read_migration_required(latest_wasm);
        if !required {
            return Err(AccountError::MigrationNotRequired);
        }
        match wasm {
            Some(w) => Ok(w),
            None => Err(AccountError::MigrationNotRequired),
        }
    }

    /// The checks the account makes on an authorization before any
    /// signature is verified, and what the host must still verify. The
    /// `payload` is the 32-byte authorization payload.
    pub fn begin_check_auth(
        &self,
        env: &Env,
        account: &Address,
        payload: &Vec<u8>,
        auth: &crate::account_auth::AccountAuth,
        contexts: &Vec<AuthContext>,
    ) -> (r: Result<AuthObligation, AccountError>)
        requires
            payload@.len() == 32,
            self@.rpid_hash matches Some(h) ==> h.len() == 32,
            auth matches crate::account_auth::AccountAuth::Passkey(s) ==> s.authenticator_data@.len()
                + 32 <= u32::MAX,
        ensures
            match auth {
                crate::account_auth::AccountAuth::Passkey(s) => if self@.passkey is None {
                    r == Err::<AuthObligation, AccountError>(AccountError::PasskeyNotFound)
                } else if !contexts_allowed_spec(self.paused, account@, context_views(contexts@)) {
                    r == Err::<AuthObligation, AccountError>(AccountError::AccountPaused)
                } else if self@.rpid_hash is None {
                    r == Err::<AuthObligation, AccountError>(AccountError::RpidNotFound)
                } else {
                    match (match crate::webauthn::client_data_spec(payload@, s.client_data_json@) {
                        Err(e) => Err(e),
                        Ok(_) => crate::webauthn::authenticator_data_spec(
                            self@.rpid_hash->Some_0,
                            s.authenticator_data@,
                        ),
                    }) {
                        Err(e) => r == Err::<AuthObligation, AccountError>(
                            crate::webauthn::assertion_error(e),
                        ),
                        Ok(_) => (r matches Ok(AuthObligation::Passkey { public_key, digest, signature })
                            && Some(public_key@) == self@.passkey && digest@
                            == crate::webauthn::passkey_digest_spec(
                            s.authenticator_data@,
                            s.client_data_json@,
                        ) && signature@ == s.signature@),
                    }
                },
                crate::account_auth::AccountAuth::Stellar(s) => if self@.stellar_signer is None {
                    r == Err::<AuthObligation, AccountError>(AccountError::StellarSignerNotFound)
                } else if !contexts_allowed_spec(self.paused, account@, context_views(contexts@)) {
                    r == Err::<AuthObligation, AccountError>(AccountError::AccountPaused)
                } else {
                    (r matches Ok(AuthObligation::Stellar { public_key, signature }) && Some(
                        public_key@,
                    ) == self@.stellar_signer && signature@ == s.signature@)
                },
                crate::account_auth::AccountAuth::Evm(s) => if self@.evm_signer is None {
                    r == Err::<AuthObligation, AccountError>(AccountError::EvmSignerNotFound)
                } else if !contexts_allowed_spec(self.paused, account@, context_views(contexts@)) {
                    r == Err::<AuthObligation, AccountError>(AccountError::AccountPaused)
                } else if s.recovery_id > 1 {
                    r == Err::<AuthObligation, AccountError>(AccountError::InvalidEvmRecoveryId)
                } else {
                    (r matches Ok(
                        AuthObligation::Evm { digest, signature, recovery_id, expected_address },
                    ) && digest@ == evm_digest_spec(payload@) && signature@ == s.signature@
                        && recovery_id == s.recovery_id && Some(expected_address@)
                        == self@.evm_signer)
                },
                crate::account_auth::AccountAuth::Session(s) => if self.paused {
                    r == Err::<AuthObligation, AccountError>(AccountError::AccountPaused)
                } else {
                    (r matches Ok(AuthObligation::Session { policy_id }) && policy_id@
                        == s.policy_id@)
                },
            },
    {
        match auth {
            crate::account_auth::AccountAuth::Passkey(s) => {
                let passkey = match &self.passkey {
                    Some(p) => copy_bytes(p),
                    None => {
                        return Err(AccountError::PasskeyNotFound);
                    },
                };
                self.validate_auth_contexts(account, contexts)?;
                let rpid = match &self.rpid_hash {
                    Some(h) => h,
                    None => {
                        return Err(AccountError::RpidNotFound);
                    },
                };
                let digest = crate::webauthn::verify_passkey_pop(
                    env,
                    payload,
                    &s.authenticator_data,
                    &s.client_data_json,
                    rpid,
                )?;
                Ok(
                    AuthObligation::Passkey {
                        public_key: passkey,
                        digest,
                        signature: copy_bytes(&s.signature),
                    },
                )
            },
            crate::account_auth::AccountAuth::Stellar(s) => {
                let key = match &self.stellar_signer {
                    Some(k) => copy_bytes(k),
                    None => {
                        return Err(AccountError::StellarSignerNotFound);
                    },
                };
                self.validate_auth_contexts(account, contexts)?;
                Ok(AuthObligation::Stellar { public_key: key, signature: copy_bytes(&s.signature) })
            },
            crate::account_auth::AccountAuth::Evm(s) => {
                let expected = match &self.evm_signer {
                    Some(k) => copy_bytes(k),
                    None => {
                        return Err(AccountError::EvmSignerNotFound);
                    },
                };
                self.validate_auth_contexts(account, contexts)?;
                let digest = evm_signature_digest(env, s.recovery_id, payload)?;
                Ok(
                    AuthObligation::Evm {
                        digest,
                        signature: copy_bytes(&s.signature),
                        recovery_id: s.recovery_id,
                        expected_address: expected,
                    },
                )
            },
            crate::account_auth::AccountAuth::Session(s) => {
                if self.paused {
                    return Err(AccountError::AccountPaused);
                }
                Ok(AuthObligation::Session { policy_id: copy_bytes(&s.policy_id) })
            },
        }
    }
}

/// Checks the window of a rotation: `live_until_ledger` lies within the
/// next sixty ledgers, the current one included.
pub fn check_rotation_window(current: u32, live_until_ledger: u32) -> (r: Result<(), AccountError>)
    ensures
        r == rotation_window_spec(current, live_until_ledger),
{
    let latest = match current.checked_add(MAX_AUTH_WINDOW_LEDGER) {
        Some(l) => l,
        None => {
            return Err(AccountError::ArithmeticOverflow);
        },
    };
    if live_until_ledger < current || live_until_ledger > latest {
        return Err(AccountError::InvalidConfig);
    }
    Ok(())
}

/// Checks the window of a recovery: `live_until_ledger` lies strictly after
/// the current ledger and within the next sixty.
pub fn check_recovery_window(current: u32, live_until_ledger: u32) -> (r: Result<(), AccountError>)
    ensures
        r == recovery_window_spec(current, live_until_ledger),
{
    let latest = match current.checked_add(MAX_AUTH_WINDOW_LEDGER) {
        Some(l) => l,
        None => {
            return Err(AccountError::ArithmeticOverflow);
        },
    };
    if live_until_ledger <= current || live_until_ledger > latest {
        return Err(AccountError::InvalidConfig);
    }
    Ok(())
}

} // verus!
