//! Identifiers and delegate challenges of session policies: each is the
//! SHA-256 digest of a domain tag, the account's address and the XDR
//! encoding of the policy request.
use vstd::prelude::*;

use crate::address::{Address, AddressView};
use crate::bytes::append_bytes;
use crate::constants::{
    session_id_domain, session_id_domain_bytes, session_pop_domain, session_pop_domain_bytes,
};
use crate::crypto::{sha256, sha256_digest};
use crate::xdr::{push_xdr_address, xdr_address};

use soroban_sdk::Env;

verus! {

/// The bytes hashed into a session policy id.
pub open spec fn policy_id_payload(account: AddressView, input_xdr: Seq<u8>) -> Seq<u8> {
    session_id_domain() + xdr_address(account) + input_xdr
}

/// The bytes hashed into the challenge a delegate signs to prove it holds
/// its key.
pub open spec fn delegate_pop_payload(account: AddressView, input_xdr: Seq<u8>) -> Seq<u8> {
    session_pop_domain() + xdr_address(account) + input_xdr
}

/// The id of the session policy requested by `input_xdr` (the XDR encoding
/// of the request) on the account at `account`.
pub fn derive_policy_id(env: &Env, account: &Address, input_xdr: &Vec<u8>) -> (r: Vec<u8>)
    requires
        account@.key.len() <= 64,
        input_xdr@.len() <= 0x1000_0000,
    ensures
        r@ == sha256_digest(policy_id_payload(account@, input_xdr@)),
{
    let mut payload = session_id_domain_bytes();
    push_xdr_address(&mut payload, account);
    append_bytes(&mut payload, input_xdr);
    assert(payload@ =~= policy_id_payload(account@, input_xdr@));
    sha256(env, &payload)
}

/// The challenge the delegate of the session policy requested by
/// `input_xdr` signs to prove possession of its key.
pub fn build_delegate_pop_challenge(env: &Env, account: &Address, input_xdr: &Vec<u8>) -> (r: Vec<
    u8,
>)
    requires
        account@.key.len() <= 64,
        input_xdr@.len() <= 0x1000_0000,
    ensures
        r@ == sha256_digest(delegate_pop_payload(account@, input_xdr@)),
{
    let mut payload = session_pop_domain_bytes();
    push_xdr_address(&mut payload, account);
    append_bytes(&mut payload, input_xdr);
    assert(payload@ =~= delegate_pop_payload(account@, input_xdr@));
    sha256(env, &payload)
}

/// The time to live, in ledgers, of a stored session at ledger `current`:
/// through its expiry ledger, or nothing to extend once it has expired.
pub fn session_ttl(expires_at_ledger: u32, current: u32) -> (r: Option<u32>)
    ensures
        expires_at_ledger <= current ==> r is None,
        current < expires_at_ledger && expires_at_ledger - current < u32::MAX ==> r == Some(
            (expires_at_ledger - current + 1) as u32,
        ),
        current < expires_at_ledger && expires_at_ledger - current == u32::MAX ==> r == Some(
            u32::MAX,
        ),
{
    let remaining = expires_at_ledger.saturating_sub(current);
    if remaining > 0 {
        Some(remaining.saturating_add(1))
    } else {
        None
    }
}

/// Policy ids and delegate challenges are domain-separated: no policy-id
/// payload equals a delegate-challenge payload, whatever the accounts and
/// requests.
pub proof fn lemma_policy_id_and_pop_domains_differ(
    a1: AddressView,
    x1: Seq<u8>,
    a2: AddressView,
    x2: Seq<u8>,
)
    ensures
        policy_id_payload(a1, x1) != delegate_pop_payload(a2, x2),
{
    assert(policy_id_payload(a1, x1)[19] == 76u8);
    assert(delegate_pop_payload(a2, x2)[19] == 80u8);
}

} // verus!
