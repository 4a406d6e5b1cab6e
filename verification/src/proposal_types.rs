//! The kinds of upgrade proposal that the governance module stores and
//! executes.
use vstd::prelude::*;

use crate::bytes::bytes_eq;

verus! {

/// The kind of an upgrade proposal: upgrade this contract's code, or approve
/// a new wallet implementation hash.
#[derive(PartialEq, Eq, Structural, Clone, Copy, Debug)]
pub enum UpgradeType {
    Upgrade,
    WalletVersion,
}

/// The name under which each proposal kind is submitted.
pub open spec fn upgrade_type_name(t: UpgradeType) -> Seq<u8> {
    match t {
        UpgradeType::Upgrade => seq![117u8, 112, 103, 114, 97, 100, 101],
        UpgradeType::WalletVersion => seq![119u8, 97, 108, 108, 101, 116],
    }
}

/// The proposal kind named exactly by `s`, if any.
pub open spec fn upgrade_type_of_name(s: Seq<u8>) -> Option<UpgradeType> {
    if s == upgrade_type_name(UpgradeType::Upgrade) {
        Some(UpgradeType::Upgrade)
    } else if s == upgrade_type_name(UpgradeType::WalletVersion) {
        Some(UpgradeType::WalletVersion)
    } else {
        None
    }
}

impl UpgradeType {
    /// Parses a proposal kind: "upgrade" or "wallet", case-sensitive.
    pub fn upgrade_type(s: &Vec<u8>) -> (r: Option<UpgradeType>)
        ensures
            r == upgrade_type_of_name(s@),
    {
        let upgrade: Vec<u8> = vec![117u8, 112, 103, 114, 97, 100, 101];
        let wallet: Vec<u8> = vec![119u8, 97, 108, 108, 101, 116];
        assert(upgrade@ =~= upgrade_type_name(UpgradeType::Upgrade));
        assert(wallet@ =~= upgrade_type_name(UpgradeType::WalletVersion));
        if bytes_eq(s, &upgrade) {
            Some(UpgradeType::Upgrade)
        } else if bytes_eq(s, &wallet) {
            Some(UpgradeType::WalletVersion)
        } else {
            None
        }
    }
}

} // verus!
