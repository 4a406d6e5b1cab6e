//! Hash functions of the contract environment.
use vstd::prelude::*;

use soroban_sdk::Env;

verus! {

/// The contract environment, which provides the host's hash functions.
#[verifier::external_type_specification]
#[verifier::external_body]
pub struct ExEnv(soroban_sdk::Env);

/// The SHA-256 digest of `data`.
pub uninterp spec fn sha256_digest(data: Seq<u8>) -> Seq<u8>;

/// The Keccak-256 digest of `data`.
pub uninterp spec fn keccak256_digest(data: Seq<u8>) -> Seq<u8>;

/// Hashes `data` with the host's SHA-256 (`Crypto::sha256`); the digest is
/// 32 bytes and a function of `data` alone.
#[verifier::external_body]
pub fn sha256(env: &Env, data: &Vec<u8>) -> (r: Vec<u8>)
    requires
        data@.len() <= u32::MAX,
    ensures
        r@ == sha256_digest(data@),
        r@.len() == 32,
{
    let bytes = soroban_sdk::Bytes::from_slice(env, data.as_slice());
    env.crypto().sha256(&bytes).to_array().to_vec()
}

/// Hashes `data` with the host's Keccak-256 (`Crypto::keccak256`); the
/// digest is 32 bytes and a function of `data` alone.
#[verifier::external_body]
pub fn keccak256(env: &Env, data: &Vec<u8>) -> (r: Vec<u8>)
    requires
        data@.len() <= u32::MAX,
    ensures
        r@ == keccak256_digest(data@),
        r@.len() == 32,
{
    let bytes = soroban_sdk::Bytes::from_slice(env, data.as_slice());
    env.crypto().keccak256(&bytes).to_array().to_vec()
}

} // verus!
