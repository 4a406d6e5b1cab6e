//! The kinds of upgrade proposal that governance can vote on.
use vstd::prelude::*;

use crate::bytes::bytes_eq;

verus! {

/// The kind of an upgrade proposal: upgrade this contract's code, or approve
/// a new account implementation hash.
#[derive(PartialEq, Eq, Structural, Clone, Copy, Debug)]
pub enum UpgradeType {
    Upgrade,
    AccountVersion,
}

/// The name under which each proposal kind is submitted.
pub open spec fn upgrade_type_name(t: UpgradeType) -> Seq<u8> {
    match t {
        UpgradeType::Upgrade => seq![117u8, 112, 103, 114, 97, 100, 101],
        UpgradeType::AccountVersion => seq![97u8, 99, 99, 111, 117, 110, 116],
    }
}

/// The proposal kind named exactly by `s`, if any.
pub open spec fn upgrade_type_of_name(s: Seq<u8>) -> Option<UpgradeType> {
    if s == upgrade_type_name(UpgradeType::Upgrade) {
        Some(UpgradeType::Upgrade)
    } else if s == upgrade_type_name(UpgradeType::AccountVersion) {
        Some(UpgradeType::AccountVersion)
    } else {
        None
    }
}

impl UpgradeType {
    /// Parses a proposal kind: "upgrade" or "account", case-sensitive.
    pub fn upgrade_type(s: &Vec<u8>) -> (r: Option<UpgradeType>)
        ensures
            r == upgrade_type_of_name(s@),
    {
        let upgrade: Vec<u8> = vec![117u8, 112, 103, 114, 97, 100, 101];
        let account: Vec<u8> = vec![97u8, 99, 99, 111, 117, 110, 116];
        assert(upgrade@ =~= upgrade_type_name(UpgradeType::Upgrade));
        assert(account@ =~= upgrade_type_name(UpgradeType::AccountVersion));
        if bytes_eq(s, &upgrade) {
            Some(UpgradeType::Upgrade)
        } else if bytes_eq(s, &account) {
            Some(UpgradeType::AccountVersion)
        } else {
            None
        }
    }
}

} // verus!
