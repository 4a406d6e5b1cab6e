//! The identity registry: canonical user ids, the storage keys derived from
//! identities and passkeys, the validator set, and the checks that bind a
//! social identity to a wallet.
use vstd::prelude::*;

use crate::address::{Address, AddressView};
use crate::bytes::{append_bytes, copy_bytes};
use crate::constants::MAX_LEN;
use crate::crypto::{sha256, sha256_digest};
use crate::errors::{RegistryError, UpgradeError};
use crate::governance::{empty_governance, Governance};
use crate::key_set::{key_views, strictly_ascending, KeySet};
use crate::platform::{platform_name, platform_of_name, SocialPlatform};
use crate::xdr::{push_xdr_address, push_xdr_string, xdr_address, xdr_string};

use soroban_sdk::Env;

verus! {

/// An ASCII uppercase letter.
pub open spec fn is_ascii_upper(b: u8) -> bool {
    65 <= b <= 90
}

/// ASCII whitespace: tab, newline, vertical tab, form feed, carriage return
/// and space.
pub open spec fn is_ascii_space(b: u8) -> bool {
    b == 9 || b == 10 || b == 11 || b == 12 || b == 13 || b == 32
}

/// The first offending byte of a user id decides its error: an uppercase
/// letter or a whitespace byte.
pub open spec fn userid_chars_check(s: Seq<u8>) -> Result<(), RegistryError>
    decreases s.len(),
{
    if s.len() == 0 {
        Ok(())
    } else if is_ascii_upper(s[0]) {
        Err(RegistryError::UpperNotAllowed)
    } else if is_ascii_space(s[0]) {
        Err(RegistryError::SpacesNotAllowed)
    } else {
        userid_chars_check(s.drop_first())
    }
}

/// The verdict on a user id: not empty, at most `MAX_LEN` bytes, then no
/// uppercase letter and no whitespace.
pub open spec fn userid_check(s: Seq<u8>) -> Result<(), RegistryError> {
    if s.len() == 0 {
        Err(RegistryError::InvalidUserId)
    } else if s.len() > MAX_LEN {
        Err(RegistryError::MaxLengthExceeded)
    } else {
        userid_chars_check(s)
    }
}

/// Validates a user id, given as its UTF-8 bytes.
pub fn validate_userid(id: &Vec<u8>) -> (r: Result<(), RegistryError>)
    ensures
        r == userid_check(id@),
{
    let len = id.len();
    if len == 0 {
        return Err(RegistryError::InvalidUserId);
    }
    if len > MAX_LEN as usize {
        return Err(RegistryError::MaxLengthExceeded);
    }
    let mut i: usize = 0;
    assert(id@.skip(0) =~= id@);
    while i < len
        invariant
            i <= len,
            len == id@.len(),
            0 < len <= MAX_LEN,
            userid_chars_check(id@) == userid_chars_check(id@.skip(i as int)),
        decreases len - i,
    {
        let v = id[i];
        assert(id@.skip(i as int).len() > 0);
        assert(id@.skip(i as int)[0] == v);
        if v >= 65 && v <= 90 {
            return Err(RegistryError::UpperNotAllowed);
        }
        if v == 9 || v == 10 || v == 11 || v == 12 || v == 13 || v == 32 {
            return Err(RegistryError::SpacesNotAllowed);
        }
        assert(id@.skip(i as int).drop_first() =~= id@.skip(i + 1));
        i = i + 1;
    }
    assert(id@.skip(i as int) =~= Seq::<u8>::empty());
    Ok(())
}

/// No byte of `s` is an uppercase letter or whitespace, by induction.
proof fn lemma_chars_ok(s: Seq<u8>)
    requires
        userid_chars_check(s) is Ok,
    ensures
        forall|i: int| 0 <= i < s.len() ==> !is_ascii_upper(#[trigger] s[i]) && !is_ascii_space(s[i]),
    decreases s.len(),
{
    if s.len() > 0 {
        lemma_chars_ok(s.drop_first());
        assert forall|i: int| 0 <= i < s.len() implies !is_ascii_upper(#[trigger] s[i])
            && !is_ascii_space(s[i]) by {
            if i > 0 {
                assert(s[i] == s.drop_first()[i - 1]);
            }
        }
    }
}

/// An accepted user id is canonical: between 1 and `MAX_LEN` bytes, with no
/// uppercase ASCII letter and no ASCII whitespace.
pub proof fn lemma_accepted_userid_is_canonical(s: Seq<u8>)
    requires
        userid_check(s) is Ok,
    ensures
        1 <= s.len() <= MAX_LEN,
        forall|i: int| 0 <= i < s.len() ==> !is_ascii_upper(#[trigger] s[i]) && !is_ascii_space(s[i]),
{
    lemma_chars_ok(s);
}

/// "userid_wallet"
pub open spec fn userid_domain() -> Seq<u8> {
    seq![117u8, 115, 101, 114, 105, 100, 95, 119, 97, 108, 108, 101, 116]
}

/// "passkey_wallet"
pub open spec fn passkey_domain() -> Seq<u8> {
    seq![112u8, 97, 115, 115, 107, 101, 121, 95, 119, 97, 108, 108, 101, 116]
}

/// "verify_identity_binding"
pub open spec fn identity_binding_tag() -> Seq<u8> {
    seq![
        118u8, 101, 114, 105, 102, 121, 95, 105, 100, 101, 110, 116, 105, 116, 121, 95, 98,
        105, 110, 100, 105, 110, 103,
    ]
}

/// The bytes hashed into the key of an identity: the domain, the platform's
/// canonical name and the user id, separated by zero bytes.
pub open spec fn userid_salt(p: SocialPlatform, user_id: Seq<u8>) -> Seq<u8> {
    userid_domain() + seq![0u8] + platform_name(p) + seq![0u8] + user_id
}

/// The bytes hashed into the key of a passkey.
pub open spec fn passkey_salt(passkey: Seq<u8>) -> Seq<u8> {
    passkey_domain() + seq![0u8] + passkey
}

/// The bytes hashed into the marker that a wallet holds an identity on a
/// platform.
pub open spec fn wallet_mapped_salt(platform: Seq<u8>, wallet: AddressView) -> Seq<u8> {
    platform + seq![0u8] + xdr_address(wallet)
}

/// No canonical platform name holds a zero byte.
proof fn lemma_platform_name_nonzero(p: SocialPlatform)
    ensures
        forall|i: int| 0 <= i < platform_name(p).len() ==> #[trigger] platform_name(p)[i] != 0u8,
{
}

/// Identity keys do not collide through their encoding: the zero-byte
/// separators make the salt determine the platform and the user id, so
/// `("ab", "c")` and `("a", "bc")` give different salts.
pub proof fn lemma_userid_salt_injective(
    p1: SocialPlatform,
    u1: Seq<u8>,
    p2: SocialPlatform,
    u2: Seq<u8>,
)
    requires
        userid_salt(p1, u1) == userid_salt(p2, u2),
    ensures
        p1 == p2,
        u1 == u2,
{
    let s1 = userid_salt(p1, u1);
    let s2 = userid_salt(p2, u2);
    let n1 = platform_name(p1);
    let n2 = platform_name(p2);
    lemma_platform_name_nonzero(p1);
    lemma_platform_name_nonzero(p2);
    assert(s1[14 + n1.len() as int] == 0u8);
    assert(s2[14 + n2.len() as int] == 0u8);
    if n1.len() < n2.len() {
        assert(s2[14 + n1.len() as int] == n2[n1.len() as int]);
    }
    if n2.len() < n1.len() {
        assert(s1[14 + n2.len() as int] == n1[n2.len() as int]);
    }
    assert(n1.len() == n2.len());
    assert forall|k: int| 0 <= k < n1.len() implies n1[k] == n2[k] by {
        assert(s1[14 + k] == n1[k]);
        assert(s2[14 + k] == n2[k]);
    }
    assert(n1 =~= n2);
    crate::platform::lemma_platform_name_round_trip(p1);
    crate::platform::lemma_platform_name_round_trip(p2);
    assert(s1.len() == 15 + n1.len() + u1.len());
    assert(s2.len() == 15 + n2.len() + u2.len());
    assert(u1.len() == u2.len());
    assert forall|k: int| 0 <= k < u1.len() implies u1[k] == u2[k] by {
        assert(s1[15 + n1.len() + k] == u1[k]);
        assert(s2[15 + n2.len() + k] == u2[k]);
    }
    assert(u1 =~= u2);
}

/// The identity and passkey key namespaces are disjoint: no identity salt
/// equals a passkey salt.
pub proof fn lemma_key_namespaces_disjoint(p: SocialPlatform, user_id: Seq<u8>, passkey: Seq<u8>)
    ensures
        userid_salt(p, user_id) != passkey_salt(passkey),
{
    assert(userid_salt(p, user_id)[0] == 117u8);
    assert(passkey_salt(passkey)[0] == 112u8);
}

/// The message the validators sign to bind an identity to a wallet.
pub open spec fn identity_binding_message(
    registry: AddressView,
    wallet: AddressView,
    p: SocialPlatform,
    user_id: Seq<u8>,
) -> Seq<u8> {
    xdr_string(identity_binding_tag()) + xdr_address(registry) + xdr_address(wallet) + xdr_string(
        platform_name(p),
    ) + xdr_string(user_id)
}

/// The key of an identity, with the verdicts on its platform and user id.
pub open spec fn userid_key_spec(platform: Seq<u8>, user_id: Seq<u8>) -> Result<
    Seq<u8>,
    RegistryError,
> {
    match platform_of_name(platform) {
        None => Err(RegistryError::PlatformNotSupported),
        Some(p) => match userid_check(user_id) {
            Err(e) => Err(e),
            Ok(_) => Ok(sha256_digest(userid_salt(p, user_id))),
        },
    }
}

/// The view of a result that carries a byte string.
pub open spec fn bytes_result(r: Result<Vec<u8>, RegistryError>) -> Result<Seq<u8>, RegistryError> {
    match r {
        Ok(v) => Ok(v@),
        Err(e) => Err(e),
    }
}

fn userid_domain_bytes() -> (r: Vec<u8>)
    ensures
        r@ == userid_domain(),
{
    let r: Vec<u8> = vec![117u8, 115, 101, 114, 105, 100, 95, 119, 97, 108, 108, 101, 116];
    assert(r@ =~= userid_domain());
    r
}

fn passkey_domain_bytes() -> (r: Vec<u8>)
    ensures
        r@ == passkey_domain(),
{
    let r: Vec<u8> = vec![112u8, 97, 115, 115, 107, 101, 121, 95, 119, 97, 108, 108, 101, 116];
    assert(r@ =~= passkey_domain());
    r
}

fn identity_binding_tag_bytes() -> (r: Vec<u8>)
    ensures
        r@ == identity_binding_tag(),
{
    let r: Vec<u8> = vec![
        118u8, 101, 114, 105, 102, 121, 95, 105, 100, 101, 110, 116, 105, 116, 121, 95, 98, 105,
        110, 100, 105, 110, 103,
    ];
    assert(r@ =~= identity_binding_tag());
    r
}

/// The bytes hashed into the key of a validated identity.
fn userid_salt_bytes(p: SocialPlatform, user_id: &Vec<u8>) -> (r: Vec<u8>)
    ensures
        r@ == userid_salt(p, user_id@),
{
    let mut salt = userid_domain_bytes();
    salt.push(0u8);
    let name = p.as_str();
    append_bytes(&mut salt, &name);
    salt.push(0u8);
    append_bytes(&mut salt, user_id);
    assert(salt@ =~= userid_salt(p, user_id@));
    salt
}

/// The storage key of the wallet bound to `(platform, user_id)`: the SHA-256
/// digest of the identity's salt, once the platform and the user id are
/// accepted.
pub fn userid_wallet_key(env: &Env, platform_str: &Vec<u8>, user_id: &Vec<u8>) -> (r: Result<
    Vec<u8>,
    RegistryError,
>)
    ensures
        bytes_result(r) == userid_key_spec(platform_str@, user_id@),
{
    let p = SocialPlatform::is_platform_supported(platform_str)?;
    validate_userid(user_id)?;
    let salt = userid_salt_bytes(p, user_id);
    Ok(sha256(env, &salt))
}

/// The identifier under which the payments to `(platform, user_id)` are
/// indexed; the same digest as the identity's wallet key.
pub fn userid_payment_key(env: &Env, platform_str: &Vec<u8>, user_id: &Vec<u8>) -> (r: Result<
    Vec<u8>,
    RegistryError,
>)
    ensures
        bytes_result(r) == userid_key_spec(platform_str@, user_id@),
{
    userid_wallet_key(env, platform_str, user_id)
}

/// The storage key of the wallet bound to a passkey.
pub fn passkey_wallet_key(env: &Env, passkey: &Vec<u8>) -> (r: Result<Vec<u8>, RegistryError>)
    requires
        passkey@.len() <= 65,
    ensures
        r matches Ok(k) && k@ == sha256_digest(passkey_salt(passkey@)),
{
    let mut salt = passkey_domain_bytes();
    salt.push(0u8);
    append_bytes(&mut salt, passkey);
    assert(salt@ =~= passkey_salt(passkey@));
    Ok(sha256(env, &salt))
}

/// The storage key of the marker that `wallet` holds an identity on the
/// validated platform `platform`.
pub fn wallet_mapped_key(env: &Env, platform: &Vec<u8>, wallet: &Address) -> (r: Vec<u8>)
    requires
        platform@.len() <= 64,
        wallet@.key.len() <= 64,
    ensures
        r@ == sha256_digest(wallet_mapped_salt(platform@, wallet@)),
{
    let mut salt = copy_bytes(platform);
    salt.push(0u8);
    push_xdr_address(&mut salt, wallet);
    assert(salt@ =~= wallet_mapped_salt(platform@, wallet@));
    sha256(env, &salt)
}

/// One validator's signature over an identity binding.
pub struct ValidatorSignature {
    pub validator: Vec<u8>,
    pub signature: Vec<u8>,
}

/// The validator keys of a list of signatures, in order.
pub open spec fn signer_keys(sigs: Seq<ValidatorSignature>) -> Seq<Seq<u8>> {
    sigs.map_values(|s: ValidatorSignature| s.validator@)
}

/// Scans the signers in order: the first that is not a validator, or that
/// signed already, decides the error.
pub open spec fn signer_scan(keys: Seq<Seq<u8>>, validators: Set<Seq<u8>>, seen: Set<Seq<u8>>) -> Result<
    (),
    RegistryError,
>
    decreases keys.len(),
{
    if keys.len() == 0 {
        Ok(())
    } else if !validators.contains(keys[0]) {
        Err(RegistryError::NotValidator)
    } else if seen.contains(keys[0]) {
        Err(RegistryError::DuplicateValidator)
    } else {
        signer_scan(keys.drop_first(), validators, seen.insert(keys[0]))
    }
}

/// Signers that pass the scan are validators, none of them seen before and
/// none twice.
proof fn lemma_signer_scan_ok(keys: Seq<Seq<u8>>, validators: Set<Seq<u8>>, seen: Set<Seq<u8>>)
    requires
        signer_scan(keys, validators, seen) is Ok,
    ensures
        forall|i: int| 0 <= i < keys.len() ==> validators.contains(#[trigger] keys[i]),
        forall|i: int| 0 <= i < keys.len() ==> !seen.contains(#[trigger] keys[i]),
        keys.no_duplicates(),
    decreases keys.len(),
{
    if keys.len() > 0 {
        let rest = keys.drop_first();
        lemma_signer_scan_ok(rest, validators, seen.insert(keys[0]));
        assert forall|i: int| 0 <= i < keys.len() implies validators.contains(#[trigger] keys[i])
            && !seen.contains(keys[i]) by {
            if i > 0 {
                assert(keys[i] == rest[i - 1]);
            }
        }
        assert forall|i: int, j: int|
            0 <= i < keys.len() && 0 <= j < keys.len() && i != j implies keys[i] != keys[j] by {
            if i > 0 && j > 0 {
                assert(keys[i] == rest[i - 1] && keys[j] == rest[j - 1]);
            } else if i == 0 {
                assert(keys[j] == rest[j - 1]);
                assert(!seen.insert(keys[0]).contains(rest[j - 1]));
            } else {
                assert(keys[i] == rest[i - 1]);
                assert(!seen.insert(keys[0]).contains(rest[i - 1]));
            }
        }
    }
}

/// A binding that passes the scan with as many signatures as validators
/// carries one signature from every validator and none twice.
pub proof fn lemma_accepted_signers_are_the_validators(
    keys: Seq<Seq<u8>>,
    validators: Set<Seq<u8>>,
)
    requires
        validators.finite(),
        keys.len() == validators.len(),
        signer_scan(keys, validators, Set::empty()) is Ok,
    ensures
        keys.no_duplicates(),
        keys.to_set() == validators,
{
    lemma_signer_scan_ok(keys, validators, Set::empty());
    keys.unique_seq_to_set();
    assert(keys.to_set().subset_of(validators));
    vstd::set_lib::lemma_len_subset(keys.to_set(), validators);
    vstd::set_lib::lemma_subset_equality(keys.to_set(), validators);
}

/// What binding an identity asks for once the checks pass: the identity's
/// storage key, its platform, and the message that every signature must
/// verify against.
pub struct IdentityBinding {
    pub key: Vec<u8>,
    pub platform: SocialPlatform,
    pub message: Vec<u8>,
}

/// The view of an identity binding.
pub struct IdentityBindingView {
    pub key: Seq<u8>,
    pub platform: SocialPlatform,
    pub message: Seq<u8>,
}

impl View for IdentityBinding {
    type V = IdentityBindingView;

    open spec fn view(&self) -> IdentityBindingView {
        IdentityBindingView { key: self.key@, platform: self.platform, message: self.message@ }
    }
}

/// The view of the result of an identity-binding check.
pub open spec fn binding_result(r: Result<IdentityBinding, RegistryError>) -> Result<
    IdentityBindingView,
    RegistryError,
> {
    match r {
        Ok(b) => Ok(b@),
        Err(e) => Err(e),
    }
}

/// The state of the identity registry that is not keyed by identity: its
/// admin, the factory allowed to bind passkeys, the validator set and
/// upgrade governance.
pub struct Registry {
    pub admin: Option<Address>,
    pub factory: Option<Address>,
    pub validators: KeySet,
    pub governance: Governance,
}

impl Registry {
    /// The verdict on binding `user_id` on `platform` to `wallet` with
    /// `sigs`, for the registry at `registry`.
    pub open spec fn binding_spec(
        &self,
        registry: AddressView,
        wallet: AddressView,
        user_id: Seq<u8>,
        platform: Seq<u8>,
        sigs: Seq<ValidatorSignature>,
    ) -> Result<IdentityBindingView, RegistryError> {
        match platform_of_name(platform) {
            None => Err(RegistryError::PlatformNotSupported),
            Some(p) => match userid_check(user_id) {
                Err(e) => Err(e),
                Ok(_) => if self.validators@.len() == 0 {
                    Err(RegistryError::InvalidThreshold)
                } else if sigs.len() != self.validators@.len() {
                    Err(RegistryError::IncorrectNumberOfSignatures)
                } else {
                    match signer_scan(signer_keys(sigs), self.validators@, Set::empty()) {
                        Err(e) => Err(e),
                        Ok(_) => Ok(
                            IdentityBindingView {
                                key: sha256_digest(userid_salt(p, user_id)),
                                platform: p,
                                message: identity_binding_message(registry, wallet, p, user_id),
                            },
                        ),
                    }
                },
            },
        }
    }

    /// A registry with nothing configured.
    pub fn new() -> (r: Registry)
        ensures
            r.admin is None,
            r.factory is None,
            r.validators@ == Set::<Seq<u8>>::empty(),
            r.validators.keys() == Seq::<Seq<u8>>::empty(),
            r.governance@ == empty_governance(),
    {
        Registry {
            admin: None,
            factory: None,
            validators: KeySet::new(),
            governance: Governance::new(),
        }
    }

    /// Sets the first admin; a registry is initialized once.
    pub fn initialize(&mut self, admin: &Address) -> (r: Result<(), UpgradeError>)
        ensures
            old(self).admin is Some ==> r == Err::<(), UpgradeError>(
                UpgradeError::AlreadyInitialized,
            ) && final(self).admin == old(self).admin,
            old(self).admin is None ==> r is Ok,
            old(self).admin is None ==> (final(self).admin matches Some(a) && a@ == admin@),
            final(self).factory == old(self).factory,
            final(self).validators == old(self).validators,
    {
        if self.admin.is_some() {
            return Err(UpgradeError::AlreadyInitialized);
        }
        self.admin = Some(admin.duplicate());
        Ok(())
    }

    /// Adds a validator key; adding a member again changes nothing.
    pub fn add_validator(&mut self, validator: &Vec<u8>)
        ensures
            final(self).validators@ == old(self).validators@.insert(validator@),
            final(self).admin == old(self).admin,
            final(self).factory == old(self).factory,
    {
        self.validators.insert(validator);
    }

    /// Removes a validator key; removing a non-member changes nothing.
    pub fn remove_validator(&mut self, validator: &Vec<u8>)
        ensures
            final(self).validators@ == old(self).validators@.remove(validator@),
            final(self).admin == old(self).admin,
            final(self).factory == old(self).factory,
    {
        self.validators.remove(validator);
    }

    /// Whether `validator` is in the validator set.
    pub fn read_is_validator(&self, validator: &Vec<u8>) -> (r: bool)
        ensures
            r == self.validators@.contains(validator@),
    {
        self.validators.contains(validator)
    }

    /// The validator keys, in ascending order.
    pub fn get_validators(&self) -> (r: Vec<Vec<u8>>)
        ensures
            key_views(r@) == self.validators.keys(),
            strictly_ascending(key_views(r@)),
            key_views(r@).to_set() == self.validators@,
            key_views(r@).len() == self.validators@.len(),
    {
        let r = self.validators.to_vec();
        proof {
            self.validators.lemma_view_is_keys();
        }
        r
    }

    /// The number of validator signatures a binding needs: one per validator.
    pub fn read_threshold(&self) -> (r: u32)
        requires
            self.validators@.len() <= u32::MAX,
        ensures
            r == self.validators@.len(),
    {
        self.validators.len() as u32
    }

    /// Checks a request to bind `user_id` on `platform_str` to `wallet`,
    /// for the registry at address `registry`: the platform, the user id, the
    /// number of signatures (one per validator), and that every signer is a
    /// validator that signs once. On success it gives the identity's storage
    /// key and the message each signature must verify against; a binding
    /// accepted here carries exactly one signature from every validator.
    pub fn set_id_wallet_map(
        &self,
        env: &Env,
        registry: &Address,
        wallet: &Address,
        user_id: &Vec<u8>,
        platform_str: &Vec<u8>,
        sigs: &Vec<ValidatorSignature>,
    ) -> (r: Result<IdentityBinding, RegistryError>)
        requires
            self.validators@.len() <= u32::MAX,
            registry@.key.len() <= 64,
            wallet@.key.len() <= 64,
        ensures
            binding_result(r) == self.binding_spec(
                registry@,
                wallet@,
                user_id@,
                platform_str@,
                sigs@,
            ),
            r is Ok ==> signer_keys(sigs@).no_duplicates() && signer_keys(sigs@).to_set()
                == self.validators@,
    {
        let p = SocialPlatform::is_platform_supported(platform_str)?;
        validate_userid(user_id)?;
        let threshold = self.read_threshold();
        if threshold == 0 {
            return Err(RegistryError::InvalidThreshold);
        }
        if sigs.len() != threshold as usize {
            return Err(RegistryError::IncorrectNumberOfSignatures);
        }
        let ghost keys = signer_keys(sigs@);
        let mut seen = KeySet::new();
        let mut i: usize = 0;
        assert(keys.skip(0) =~= keys);
        while i < sigs.len()
            invariant
                i <= sigs.len(),
                platform_of_name(platform_str@) == Some(p),
                userid_check(user_id@) is Ok,
                self.validators@.len() != 0,
                sigs@.len() == self.validators@.len(),
                keys == signer_keys(sigs@),
                keys.len() == sigs@.len(),
                signer_scan(keys, self.validators@, Set::empty()) == signer_scan(
                    keys.skip(i as int),
                    self.validators@,
                    seen@,
                ),
            decreases sigs.len() - i,
        {
            let v = &sigs[i].validator;
            assert(keys.skip(i as int).len() > 0);
            assert(keys.skip(i as int)[0] == v@);
            if !self.validators.contains(v) {
                return Err(RegistryError::NotValidator);
            }
            if seen.contains(v) {
                return Err(RegistryError::DuplicateValidator);
            }
            seen.insert(v);
            assert(keys.skip(i as int).drop_first() =~= keys.skip(i + 1));
            i = i + 1;
        }
        assert(keys.skip(i as int) =~= Seq::<Seq<u8>>::empty());
        proof {
            self.validators.lemma_view_is_keys();
            lemma_accepted_signers_are_the_validators(keys, self.validators@);
        }
        let tag = identity_binding_tag_bytes();
        let mut out: Vec<u8> = Vec::new();
        push_xdr_string(&mut out, &tag);
        push_xdr_address(&mut out, registry);
        push_xdr_address(&mut out, wallet);
        let name = p.as_str();
        push_xdr_string(&mut out, &name);
        push_xdr_string(&mut out, user_id);
        assert(out@ =~= identity_binding_message(registry@, wallet@, p, user_id@));
        let salt = userid_salt_bytes(p, user_id);
        let key = sha256(env, &salt);
        Ok(IdentityBinding { key, platform: p, message: out })
    }

    /// The factory that may bind passkeys, when one is set.
    pub fn check_passkey_binding(&self) -> (r: Result<Address, RegistryError>)
        ensures
            match self.factory {
                None => r == Err::<Address, RegistryError>(RegistryError::FactoryNotSet),
                Some(f) => (r matches Ok(a) && a@ == f@),
            },
    {
        match &self.factory {
            None => Err(RegistryError::FactoryNotSet),
            Some(f) => Ok(f.duplicate()),
        }
    }
}

/// Identity bindings are written once: given what the identity's key holds
/// (`existing`), a key that holds a wallet already is refused and left as it
/// is; an empty key gets `wallet`, which is returned to be stored.
pub fn write_userid_wallet_map(existing: &Option<Address>, wallet: &Address) -> (r: Result<
    Address,
    RegistryError,
>)
    ensures
        existing is Some ==> r == Err::<Address, RegistryError>(RegistryError::UseridAlreadyMapped),
        existing is None ==> (r matches Ok(w) && w@ == wallet@),
{
    if existing.is_some() {
        return Err(RegistryError::UseridAlreadyMapped);
    }
    Ok(wallet.duplicate())
}

/// Passkey bindings are written once: a key that holds a wallet already is
/// refused.
pub fn check_passkey_unbound(bound: bool) -> (r: Result<(), RegistryError>)
    ensures
        bound ==> r == Err::<(), RegistryError>(RegistryError::PasskeyAlreadyMapped),
        !bound ==> r is Ok,
{
    if bound {
        return Err(RegistryError::PasskeyAlreadyMapped);
    }
    Ok(())
}

/// Unlinking an identity: the wallet bound to it (`bound`, read under the
/// identity's key), which must then authorize; the identity's key is
/// returned with it. A manager's unlink first requires `is_manager`.
pub open spec fn unlink_spec(
    platform: Seq<u8>,
    user_id: Seq<u8>,
    bound: Option<AddressView>,
) -> Result<(Seq<u8>, AddressView), RegistryError> {
    match userid_key_spec(platform, user_id) {
        Err(e) => Err(e),
        Ok(k) => match bound {
            None => Err(RegistryError::IdentityNotFound),
            Some(w) => Ok((k, w)),
        },
    }
}

/// The view of an optional address.
pub open spec fn opt_address(a: Option<Address>) -> Option<AddressView> {
    match a {
        Some(x) => Some(x@),
        None => None,
    }
}

/// The view of the result of an unlink.
pub open spec fn unlink_result(r: Result<(Vec<u8>, Address), RegistryError>) -> Result<
    (Seq<u8>, AddressView),
    RegistryError,
> {
    match r {
        Ok((k, w)) => Ok((k@, w@)),
        Err(e) => Err(e),
    }
}

/// Unlinks an identity at the request of the wallet bound to it: the
/// identity's key to clear and the wallet that must authorize.
pub fn remove_id_wallet_map(
    env: &Env,
    user_id: &Vec<u8>,
    platform_str: &Vec<u8>,
    bound: &Option<Address>,
) -> (r: Result<(Vec<u8>, Address), RegistryError>)
    ensures
        unlink_result(r) == unlink_spec(platform_str@, user_id@, opt_address(*bound)),
{
    let key = userid_wallet_key(env, platform_str, user_id)?;
    match bound {
        None => Err(RegistryError::IdentityNotFound),
        Some(w) => Ok((key, w.duplicate())),
    }
}

/// Unlinks an identity at the request of a registry manager, who can only
/// clear a stale binding: the identity's key to clear and the wallet it held.
pub fn manager_remove_id_wallet_map(
    env: &Env,
    user_id: &Vec<u8>,
    platform_str: &Vec<u8>,
    is_manager: bool,
    bound: &Option<Address>,
) -> (r: Result<(Vec<u8>, Address), RegistryError>)
    ensures
        !is_manager ==> r == Err::<(Vec<u8>, Address), RegistryError>(
            RegistryError::NotRegistryManager,
        ),
        is_manager ==> unlink_result(r) == unlink_spec(platform_str@, user_id@, opt_address(*bound)),
{
    if !is_manager {
        return Err(RegistryError::NotRegistryManager);
    }
    remove_id_wallet_map(env, user_id, platform_str, bound)
}

} // verus!
