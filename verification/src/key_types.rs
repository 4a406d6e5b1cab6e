//! Owner signers, their proofs and the commitments that identify them.
use vstd::prelude::*;

use crate::address::{Address, AddressView};
use crate::bytes::copy_bytes;

verus! {

/// A WebAuthn passkey assertion.
pub struct PasskeySignature {
    pub signature: Vec<u8>,
    pub client_data_json: Vec<u8>,
    pub authenticator_data: Vec<u8>,
}

/// An Ed25519 signature of the account's Stellar signer.
pub struct StellarSignature {
    pub signature: Vec<u8>,
}

/// A recoverable secp256k1 signature of the account's EVM signer.
pub struct EvmSignature {
    pub signature: Vec<u8>,
    pub recovery_id: u32,
}

/// A guardian and, when its removal is scheduled, the ledger of removal.
pub struct GuardianInfo {
    pub address: Address,
    pub removal_time: Option<u32>,
}

/// A passkey owner with its proof of possession.
pub struct PasskeyAccountSigner {
    pub public_key: Vec<u8>,
    pub pop_signature: PasskeySignature,
}

/// A Stellar account owner: its Ed25519 key and its account address.
pub struct StellarAccountSigner {
    pub public_key: Vec<u8>,
    pub address: Address,
}

/// An EVM owner: its 20-byte address and its proof of possession.
pub struct EvmAccountSigner {
    pub address: Vec<u8>,
    pub pop_signature: EvmSignature,
}

/// A replacement owner of an account.
pub enum AccountSigner {
    Passkey(PasskeyAccountSigner),
    Stellar(StellarAccountSigner),
    Evm(EvmAccountSigner),
}

/// The public identity of an owner, which rotation and recovery commit to.
pub enum AccountCommitment {
    Passkey(Vec<u8>),
    Stellar(Vec<u8>),
    Evm(Vec<u8>),
}

/// A commitment over views.
pub enum CommitmentView {
    Passkey(Seq<u8>),
    Stellar(Seq<u8>),
    Evm(Seq<u8>),
}

impl View for AccountCommitment {
    type V = CommitmentView;

    open spec fn view(&self) -> CommitmentView {
        match self {
            AccountCommitment::Passkey(k) => CommitmentView::Passkey(k@),
            AccountCommitment::Stellar(k) => CommitmentView::Stellar(k@),
            AccountCommitment::Evm(k) => CommitmentView::Evm(k@),
        }
    }
}

/// The commitment of a replacement owner: its public key or address.
pub open spec fn commitment_of(signer: AccountSigner) -> CommitmentView {
    match signer {
        AccountSigner::Passkey(s) => CommitmentView::Passkey(s.public_key@),
        AccountSigner::Stellar(s) => CommitmentView::Stellar(s.public_key@),
        AccountSigner::Evm(s) => CommitmentView::Evm(s.address@),
    }
}

/// The commitment that identifies a replacement owner.
pub fn resolve_signer(signer: &AccountSigner) -> (r: AccountCommitment)
    ensures
        r@ == commitment_of(*signer),
{
    match signer {
        AccountSigner::Passkey(s) => AccountCommitment::Passkey(copy_bytes(&s.public_key)),
        AccountSigner::Stellar(s) => AccountCommitment::Stellar(copy_bytes(&s.public_key)),
        AccountSigner::Evm(s) => AccountCommitment::Evm(copy_bytes(&s.address)),
    }
}

} // verus!
