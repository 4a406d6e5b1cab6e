//! Account creation: proof challenges bound to the network, the factory,
//! the relying party, a one-time nonce and an expiry; replay tombstones;
//! the owner configuration a new account may have.
use vstd::prelude::*;

use crate::address::{Address, AddressKind, AddressView};
use crate::bytes::{bytes_eq, copy_bytes, copy_opt_bytes, opt_bytes};
use crate::constants::{creation_domain, creation_domain_bytes, MAX_CREATION_WINDOW_LEDGERS};
use crate::crypto::{sha256, sha256_digest};
use crate::errors::{AccountError, UpgradeError};
use crate::governance::{active_spec, Governance, GovernanceView};
use crate::key_types::{EvmSignature, PasskeySignature};
use crate::xdr::{
    be32, lemma_be32_injective, push_xdr_address, push_xdr_bytes, push_xdr_symbol, push_xdr_u32, xdr_address, xdr_bytes,
    xdr_symbol, xdr_u32,
};

use soroban_sdk::Env;

verus! {

/// "TESTNET"
pub open spec fn testnet() -> Seq<u8> {
    seq![84u8, 69, 83, 84, 78, 69, 84]
}

/// "PUBLIC"
pub open spec fn public_network() -> Seq<u8> {
    seq![80u8, 85, 66, 76, 73, 67]
}

/// Accepts the network names "TESTNET" and "PUBLIC".
pub fn validate_network(network: &Vec<u8>) -> (r: Result<(), AccountError>)
    ensures
        r is Ok <==> (network@ == testnet() || network@ == public_network()),
        r is Err ==> r == Err::<(), AccountError>(AccountError::InvalidNetwork),
{
    let t: Vec<u8> = vec![84u8, 69, 83, 84, 78, 69, 84];
    let p: Vec<u8> = vec![80u8, 85, 66, 76, 73, 67];
    assert(t@ =~= testnet() && p@ =~= public_network());
    if !bytes_eq(network, &t) && !bytes_eq(network, &p) {
        return Err(AccountError::InvalidNetwork);
    }
    Ok(())
}

/// A creation proof valid through `live_until` is acceptable at ledger
/// `current` when it has not expired and lives at most 120 ledgers and at
/// most the network's maximum entry lifetime.
pub open spec fn creation_expiry_spec(current: u32, max_ttl: u32, live_until: u32) -> Result<
    (),
    AccountError,
> {
    if live_until < current {
        Err(AccountError::CreationProofExpired)
    } else if live_until - current > MAX_CREATION_WINDOW_LEDGERS || live_until - current > max_ttl {
        Err(AccountError::InvalidCreationExpiry)
    } else {
        Ok(())
    }
}

/// Checks the expiry of a creation proof.
pub fn validate_creation_expiry(current: u32, max_ttl: u32, live_until_ledger: u32) -> (r: Result<
    (),
    AccountError,
>)
    ensures
        r == creation_expiry_spec(current, max_ttl, live_until_ledger),
{
    if live_until_ledger < current {
        return Err(AccountError::CreationProofExpired);
    }
    let duration = live_until_ledger - current;
    if duration > MAX_CREATION_WINDOW_LEDGERS || duration > max_ttl {
        return Err(AccountError::InvalidCreationExpiry);
    }
    Ok(())
}

/// Marks a creation nonce used: returns the lifetime, in ledgers, of its
/// tombstone, which stays readable through the proof's expiry ledger.
pub fn write_creation_nonce_used(current: u32, max_ttl: u32, live_until_ledger: u32) -> (r: Result<
    u32,
    AccountError,
>)
    ensures
        match creation_expiry_spec(current, max_ttl, live_until_ledger) {
            Err(e) => r == Err::<u32, AccountError>(e),
            Ok(_) => r == Ok::<u32, AccountError>((live_until_ledger - current) as u32),
        },
{
    validate_creation_expiry(current, max_ttl, live_until_ledger)?;
    Ok(live_until_ledger - current)
}

/// The payload of an account-creation challenge.
pub open spec fn creation_payload(
    network_id: Seq<u8>,
    factory: AddressView,
    network: Seq<u8>,
    rpid_hash: Seq<u8>,
    nonce: Seq<u8>,
    live_until: u32,
) -> Seq<u8> {
    creation_domain() + xdr_bytes(network_id) + xdr_address(factory) + xdr_symbol(network)
        + xdr_bytes(rpid_hash) + xdr_bytes(nonce) + xdr_u32(live_until)
}

/// The state of the account factory.
pub struct FactoryContract {
    pub admin: Option<Address>,
    pub rpid_hash: Option<Vec<u8>>,
    pub governance: Governance,
}

/// The deployment that account creation asks for: the salt, the account
/// code hash and the relying-party hash handed to the new account.
pub struct AccountDeployment {
    pub salt: Vec<u8>,
    pub wasm: Vec<u8>,
    pub rpid_hash: Vec<u8>,
}

/// The owner configurations a factory accepts: exactly one of a passkey
/// with its proof, a Stellar key with its address, or an EVM address with
/// its proof.
pub open spec fn single_owner_spec(
    passkey: bool,
    passkey_sig: bool,
    stellar_signer: bool,
    stellar_address: bool,
    evm_signer: bool,
    evm_sig: bool,
) -> bool {
    ||| (passkey && passkey_sig && !stellar_signer && !stellar_address && !evm_signer && !evm_sig)
    ||| (!passkey && !passkey_sig && stellar_signer && stellar_address && !evm_signer && !evm_sig)
    ||| (!passkey && !passkey_sig && !stellar_signer && !stellar_address && evm_signer && evm_sig)
}

/// Checks that a new account gets exactly one complete owner configuration:
/// a passkey with its proof, a Stellar key with its address, or an EVM
/// address with its proof; anything else is `InvalidConfig`. Gives the
/// address that must authorize the creation before anything else is read:
/// the Stellar owner's, and none for the other owners.
pub fn check_create_account_owner(
    passkey: &Option<Vec<u8>>,
    passkey_sig: &Option<PasskeySignature>,
    stellar_signer: &Option<Vec<u8>>,
    stellar_address: &Option<Address>,
    evm_signer: &Option<Vec<u8>>,
    evm_sig: &Option<EvmSignature>,
) -> (r: Result<Option<Address>, AccountError>)
    ensures
        !single_owner_spec(
            passkey is Some,
            passkey_sig is Some,
            stellar_signer is Some,
            stellar_address is Some,
            evm_signer is Some,
            evm_sig is Some,
        ) ==> r == Err::<Option<Address>, AccountError>(AccountError::InvalidConfig),
        single_owner_spec(
            passkey is Some,
            passkey_sig is Some,
            stellar_signer is Some,
            stellar_address is Some,
            evm_signer is Some,
            evm_sig is Some,
        ) ==> r is Ok,
        r matches Ok(o) ==> (o is Some <==> stellar_address is Some),
        r matches Ok(Some(x)) ==> (stellar_address matches Some(a) && x@ == a@),
{
    let ok = (passkey.is_some() && passkey_sig.is_some() && stellar_signer.is_none()
        && stellar_address.is_none() && evm_signer.is_none() && evm_sig.is_none()) || (
    passkey.is_none() && passkey_sig.is_none() && stellar_signer.is_some()
        && stellar_address.is_some() && evm_signer.is_none() && evm_sig.is_none()) || (
    passkey.is_none() && passkey_sig.is_none() && stellar_signer.is_none()
        && stellar_address.is_none() && evm_signer.is_some() && evm_sig.is_some());
    if !ok {
        return Err(AccountError::InvalidConfig);
    }
    match stellar_address {
        Some(a) => Ok(Some(a.duplicate())),
        None => Ok(None),
    }
}

impl FactoryContract {
    /// A factory with nothing configured.
    pub fn new() -> (r: FactoryContract)
        ensures
            r.admin is None,
            r.rpid_hash is None,
            r.governance@.account_wasm is None,
            r.governance@.voters == Set::<AddressView>::empty(),
            r.governance@.future_wasm is None,
            r.governance@.voting_deadline == 0,
    {
        FactoryContract { admin: None, rpid_hash: None, governance: Governance::new() }
    }

    /// Initializes the factory once, at time `now`: the admin, the relying
    /// party, the first account code hash, and the admin as a governance
    /// voter. Nothing changes when it fails.
    pub fn initialize(
        &mut self,
        env: &Env,
        admin: &Address,
        rpid: &Vec<u8>,
        wasm: &Vec<u8>,
        now: u64,
    ) -> (r: Result<(), UpgradeError>)
        requires
            rpid@.len() <= u32::MAX,
        ensures
            old(self).admin is Some ==> r == Err::<(), UpgradeError>(
                UpgradeError::AlreadyInitialized,
            ),
            old(self).admin is None && old(self).governance@.account_wasm is Some ==> r == Err::<
                (),
                UpgradeError,
            >(UpgradeError::AlreadyInitialized),
            old(self).admin is None && old(self).governance@.account_wasm is None && active_spec(
                old(self).governance@,
                now,
            ) ==> r == Err::<(), UpgradeError>(UpgradeError::AnotherUpgradePending),
            r is Err ==> final(self).admin == old(self).admin && final(self).rpid_hash == old(
                self,
            ).rpid_hash && final(self).governance@ == old(self).governance@,
            r is Ok ==> (final(self).admin matches Some(a) && a@ == admin@),
            r is Ok ==> opt_bytes(final(self).rpid_hash) == Some(sha256_digest(rpid@)),
            r is Ok ==> final(self).governance@ == (GovernanceView {
                account_wasm: Some(wasm@),
                voters: old(self).governance@.voters.insert(admin@),
                ..old(self).governance@
            }),
            (old(self).admin is None && old(self).governance@.account_wasm is None && !active_spec(
                old(self).governance@,
                now,
            )) ==> r is Ok,
    {
        if self.admin.is_some() {
            return Err(UpgradeError::AlreadyInitialized);
        }
        if self.governance.read_account_wasm_hash().is_some() {
            return Err(UpgradeError::AlreadyInitialized);
        }
        if self.governance.has_active_upgrade_proposal(now) {
            return Err(UpgradeError::AnotherUpgradePending);
        }
        self.admin = Some(admin.duplicate());
        self.rpid_hash = Some(sha256(env, rpid));
        let _ = self.governance.init_account_wasm_hash(wasm);
        let _ = self.governance.upgrade_add_voter(now, admin);
        Ok(())
    }

    /// Sets the relying party: stores the SHA-256 hash of its identifier.
    pub fn write_rpid_hash(&mut self, env: &Env, rpid: &Vec<u8>)
        requires
            rpid@.len() <= u32::MAX,
        ensures
            opt_bytes(final(self).rpid_hash) == Some(sha256_digest(rpid@)),
            final(self).admin == old(self).admin,
            final(self).governance == old(self).governance,
    {
        self.rpid_hash = Some(sha256(env, rpid));
    }

    /// The stored relying-party hash.
    pub fn read_rpid_hash(&self) -> (r: Result<Vec<u8>, AccountError>)
        ensures
            match opt_bytes(self.rpid_hash) {
                Some(h) => (r matches Ok(v) && v@ == h),
                None => r == Err::<Vec<u8>, AccountError>(AccountError::RpidNotFound),
            },
    {
        match &self.rpid_hash {
            Some(h) => Ok(copy_bytes(h)),
            None => Err(AccountError::RpidNotFound),
        }
    }

    /// The account-creation challenge for `nonce` on `network`, valid
    /// through `live_until_ledger`, for the factory at address `factory` on
    /// the network with identifier `network_id`; `nonce_used` is whether a
    /// tombstone for the nonce is stored.
    pub fn read_creation_pop_challenge(
        &self,
        env: &Env,
        network_id: &Vec<u8>,
        factory: &Address,
        nonce: &Vec<u8>,
        network: &Vec<u8>,
        live_until_ledger: u32,
        current: u32,
        max_ttl: u32,
        nonce_used: bool,
    ) -> (r: Result<Vec<u8>, AccountError>)
        requires
            network_id@.len() <= 64,
            factory@.key.len() <= 64,
            nonce@.len() <= 64,
            network@.len() <= 64,
            opt_bytes(self.rpid_hash) matches Some(h) ==> h.len() <= 64,
        ensures
            !(network@ == testnet() || network@ == public_network()) ==> r == Err::<
                Vec<u8>,
                AccountError,
            >(AccountError::InvalidNetwork),
            (network@ == testnet() || network@ == public_network()) ==> match creation_expiry_spec(
                current,
                max_ttl,
                live_until_ledger,
            ) {
                Err(e) => r == Err::<Vec<u8>, AccountError>(e),
                Ok(_) => if nonce_used {
                    r == Err::<Vec<u8>, AccountError>(AccountError::NonceAlreadyUsed)
                } else {
                    match opt_bytes(self.rpid_hash) {
                        None => r == Err::<Vec<u8>, AccountError>(AccountError::RpidNotFound),
                        Some(h) => (r matches Ok(c) && c@ == sha256_digest(
                            creation_payload(
                                network_id@,
                                factory@,
                                network@,
                                h,
                                nonce@,
                                live_until_ledger,
                            ),
                        )),
                    }
                },
            },
    {
        validate_network(network)?;
        validate_creation_expiry(current, max_ttl, live_until_ledger)?;
        if nonce_used {
            return Err(AccountError::NonceAlreadyUsed);
        }
        let rp_id_hash = self.read_rpid_hash()?;
        let mut salt = creation_domain_bytes();
        push_xdr_bytes(&mut salt, network_id);
        push_xdr_address(&mut salt, factory);
        push_xdr_symbol(&mut salt, network);
        push_xdr_bytes(&mut salt, &rp_id_hash);
        push_xdr_bytes(&mut salt, nonce);
        push_xdr_u32(&mut salt, live_until_ledger);
        assert(salt@ =~= creation_payload(
            network_id@,
            factory@,
            network@,
            rp_id_hash@,
            nonce@,
            live_until_ledger,
        ));
        Ok(sha256(env, &salt))
    }

    /// Checks the owner configuration of a new account and returns its
    /// deployment: the verified challenge as salt, the approved account code
    /// hash, and the factory's relying-party hash, which every new account
    /// receives. A Stellar owner must also authorize the creation.
    pub fn write_create_account(
        &self,
        challenge: &Vec<u8>,
        passkey: &Option<Vec<u8>>,
        passkey_sig: &Option<PasskeySignature>,
        stellar_signer: &Option<Vec<u8>>,
        stellar_address: &Option<Address>,
        evm_signer: &Option<Vec<u8>>,
        evm_sig: &Option<EvmSignature>,
    ) -> (r: Result<AccountDeployment, AccountError>)
        ensures
            !single_owner_spec(
                passkey is Some,
                passkey_sig is Some,
                stellar_signer is Some,
                stellar_address is Some,
                evm_signer is Some,
                evm_sig is Some,
            ) ==> r == Err::<AccountDeployment, AccountError>(AccountError::InvalidConfig),
            single_owner_spec(
                passkey is Some,
                passkey_sig is Some,
                stellar_signer is Some,
                stellar_address is Some,
                evm_signer is Some,
                evm_sig is Some,
            ) ==> match (opt_bytes(self.rpid_hash), self.governance@.account_wasm) {
                (None, _) => r == Err::<AccountDeployment, AccountError>(AccountError::RpidNotFound),
                (Some(_), None) => r == Err::<AccountDeployment, AccountError>(
                    AccountError::AccountVersionNotFound,
                ),
                (Some(h), Some(w)) => (r matches Ok(d) && d.salt@ == challenge@ && d.wasm@ == w
                    && d.rpid_hash@ == h),
            },
    {
        check_create_account_owner(
            passkey,
            passkey_sig,
            stellar_signer,
            stellar_address,
            evm_signer,
            evm_sig,
        )?;
        let rpid_hash = self.read_rpid_hash()?;
        let wasm = match self.governance.read_account_wasm_hash() {
            Some(w) => w,
            None => {
                return Err(AccountError::AccountVersionNotFound);
            },
        };
        Ok(AccountDeployment { salt: copy_bytes(challenge), wasm, rpid_hash })
    }

    /// The approved account code hash.
    pub fn get_latest_account_wasm(&self) -> (r: Result<Vec<u8>, UpgradeError>)
        ensures
            match self.governance@.account_wasm {
                Some(w) => (r matches Ok(v) && v@ == w),
                None => r == Err::<Vec<u8>, UpgradeError>(UpgradeError::NotFound),
            },
    {
        match self.governance.read_account_wasm_hash() {
            Some(w) => Ok(w),
            None => Err(UpgradeError::NotFound),
        }
    }
}

/// The creation challenge binds every input it covers: two payloads are
/// equal only for the same network identifier, factory, network name,
/// relying-party hash, nonce and expiry. Network identifiers, keys, hashes
/// and nonces are 32 bytes, a factory is a contract, and a network name is
/// a symbol of at most 32 bytes.
pub proof fn lemma_creation_payload_binds_inputs(
    id1: Seq<u8>,
    f1: AddressView,
    n1: Seq<u8>,
    h1: Seq<u8>,
    c1: Seq<u8>,
    l1: u32,
    id2: Seq<u8>,
    f2: AddressView,
    n2: Seq<u8>,
    h2: Seq<u8>,
    c2: Seq<u8>,
    l2: u32,
)
    requires
        id1.len() == 32 && id2.len() == 32,
        f1.kind == AddressKind::Contract && f2.kind == AddressKind::Contract,
        f1.key.len() == 32 && f2.key.len() == 32,
        n1.len() <= 32 && n2.len() <= 32,
        h1.len() == 32 && h2.len() == 32,
        c1.len() == 32 && c2.len() == 32,
        creation_payload(id1, f1, n1, h1, c1, l1) == creation_payload(id2, f2, n2, h2, c2, l2),
    ensures
        id1 == id2,
        f1 == f2,
        n1 == n2,
        h1 == h2,
        c1 == c2,
        l1 == l2,
{
    let p1 = creation_payload(id1, f1, n1, h1, c1, l1);
    let p2 = creation_payload(id2, f2, n2, h2, c2, l2);
    assert(creation_domain().len() == 30);
    assert(xdr_bytes(id1).len() == 40 && xdr_bytes(id2).len() == 40);
    assert(xdr_address(f1).len() == 40 && xdr_address(f2).len() == 40);
    assert forall|k: int| 0 <= k < 32 implies id1[k] == id2[k] by {
        assert(p1[38 + k] == id1[k]);
        assert(p2[38 + k] == id2[k]);
    }
    assert(id1 =~= id2);
    assert forall|k: int| 0 <= k < 32 implies f1.key[k] == f2.key[k] by {
        assert(p1[78 + k] == f1.key[k]);
        assert(p2[78 + k] == f2.key[k]);
    }
    assert(f1.key =~= f2.key);
    assert(be32(n1.len() as u32) =~= be32(n2.len() as u32)) by {
        assert forall|k: int| 0 <= k < 4 implies #[trigger] be32(n1.len() as u32)[k] == be32(
            n2.len() as u32,
        )[k] by {
            assert(p1[114 + k] == be32(n1.len() as u32)[k]);
            assert(p2[114 + k] == be32(n2.len() as u32)[k]);
        }
    }
    lemma_be32_injective(n1.len() as u32, n2.len() as u32);
    assert(n1.len() == n2.len());
    assert forall|k: int| 0 <= k < n1.len() implies n1[k] == n2[k] by {
        assert(p1[118 + k] == n1[k]);
        assert(p2[118 + k] == n2[k]);
    }
    assert(n1 =~= n2);
    let t = 110 + xdr_symbol(n1).len();
    assert(xdr_symbol(n1) == xdr_symbol(n2));
    assert forall|k: int| 0 <= k < 32 implies h1[k] == h2[k] by {
        assert(p1[t + 8 + k] == h1[k]);
        assert(p2[t + 8 + k] == h2[k]);
    }
    assert(h1 =~= h2);
    assert forall|k: int| 0 <= k < 32 implies c1[k] == c2[k] by {
        assert(p1[t + 48 + k] == c1[k]);
        assert(p2[t + 48 + k] == c2[k]);
    }
    assert(c1 =~= c2);
    assert(be32(l1) =~= be32(l2)) by {
        assert forall|k: int| 0 <= k < 4 implies #[trigger] be32(l1)[k] == be32(l2)[k] by {
            assert(p1[t + 84 + k] == be32(l1)[k]);
            assert(p2[t + 84 + k] == be32(l2)[k]);
        }
    }
    lemma_be32_injective(l1, l2);
}

} // verus!
