//! Addresses of accounts and contracts, held by their payload.
use vstd::prelude::*;

use crate::bytes::{bytes_eq, copy_bytes};

verus! {

/// The kind of an address: a classic account keyed by an Ed25519 public key,
/// or a contract keyed by its contract hash.
#[derive(PartialEq, Eq, Structural, Clone, Copy, Debug)]
pub enum AddressKind {
    Account,
    Contract,
}

/// An address, held as its kind and its 32-byte payload.
pub struct Address {
    pub kind: AddressKind,
    pub key: Vec<u8>,
}

/// What an address stands for: its kind and its payload bytes.
pub struct AddressView {
    pub kind: AddressKind,
    pub key: Seq<u8>,
}

impl View for Address {
    type V = AddressView;

    open spec fn view(&self) -> AddressView {
        AddressView { kind: self.kind, key: self.key@ }
    }
}

impl Address {
    /// Builds an account address from its Ed25519 public key.
    pub fn account(key: Vec<u8>) -> (r: Address)
        ensures
            r@ == (AddressView { kind: AddressKind::Account, key: key@ }),
    {
        Address { kind: AddressKind::Account, key }
    }

    /// Builds a contract address from its contract hash.
    pub fn contract(key: Vec<u8>) -> (r: Address)
        ensures
            r@ == (AddressView { kind: AddressKind::Contract, key: key@ }),
    {
        Address { kind: AddressKind::Contract, key }
    }

    /// Whether two addresses are the same address.
    pub fn same(&self, other: &Address) -> (r: bool)
        ensures
            r == (self@ == other@),
    {
        let k = self.kind == other.kind;
        let b = bytes_eq(&self.key, &other.key);
        k && b
    }

    /// A copy of this address.
    pub fn duplicate(&self) -> (r: Address)
        ensures
            r@ == self@,
    {
        Address { kind: self.kind, key: copy_bytes(&self.key) }
    }
}

} // verus!
