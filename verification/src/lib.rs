//! SocketFi smart-account protocol logic: account signer configuration,
//! session policies, account creation proofs, fee management, identity
//! registry, social payments and upgrade governance, each stated over plain
//! values and verified.
use vstd::prelude::*;

pub mod bytes;
pub mod address;
pub mod address_set;
pub mod errors;
pub mod constants;
pub mod xdr;
pub mod crypto;
pub mod webauthn;
pub mod bls;
pub mod key_types;
pub mod account_auth;
pub mod account;
pub mod platform;
pub mod upgrade_types;
pub mod proposal_types;
pub mod fee_types;
pub mod fees;
pub mod governance;
pub mod session;
pub mod factory;
pub mod byte_order;
pub mod key_set;
pub mod identity;
pub mod payments;
pub mod tokens;
pub mod session_ids;
pub mod ttl;


verus! {

} // verus!
