use socketfi::address::Address;
use socketfi::errors::UpgradeError;
use socketfi::governance::{compute_approval_threshold, Governance};
use socketfi::proposal_types::UpgradeType;

const DAY: u64 = 86_400;

fn voter(i: u8) -> Address {
    Address::account(vec![i; 32])
}

fn with_voters(n: u8) -> Governance {
    let mut g = Governance::new();
    for i in 0..n {
        assert_eq!(g.upgrade_add_voter(0, &voter(i)), Ok(()));
    }
    g
}

#[test]
fn approval_threshold_is_three_quarters_rounded_up() {
    assert_eq!(compute_approval_threshold(0), 0);
    assert_eq!(compute_approval_threshold(1), 1);
    assert_eq!(compute_approval_threshold(2), 2);
    assert_eq!(compute_approval_threshold(3), 3);
    assert_eq!(compute_approval_threshold(4), 3);
    assert_eq!(compute_approval_threshold(5), 4);
    assert_eq!(compute_approval_threshold(8), 6);
    assert_eq!(compute_approval_threshold(100), 75);
}

#[test]
fn proposal_types_parse_exactly() {
    assert_eq!(UpgradeType::upgrade_type(&b"upgrade".to_vec()), Some(UpgradeType::Upgrade));
    assert_eq!(UpgradeType::upgrade_type(&b"wallet".to_vec()), Some(UpgradeType::WalletVersion));
    assert_eq!(UpgradeType::upgrade_type(&b"Wallet".to_vec()), None);
    assert_eq!(
        socketfi::upgrade_types::UpgradeType::upgrade_type(&b"account".to_vec()),
        Some(socketfi::upgrade_types::UpgradeType::AccountVersion)
    );
}

#[test]
fn proposals_need_voters_and_a_known_kind() {
    let mut g = Governance::new();
    assert_eq!(
        g.create_upgrade_proposal(0, &b"upgrade".to_vec(), &vec![1u8; 32]),
        Err(UpgradeError::NotEnoughVoters)
    );
    let mut g2 = with_voters(1);
    assert_eq!(
        g2.create_upgrade_proposal(0, &b"rollback".to_vec(), &vec![1u8; 32]),
        Err(UpgradeError::UpgradeTypeNotFound)
    );
    assert_eq!(g2.create_upgrade_proposal(10, &b"wallet".to_vec(), &vec![1u8; 32]), Ok(()));
    assert_eq!(g2.get_upgrade_voting_deadline(), 10 + 7 * DAY);
    assert_eq!(
        g2.create_upgrade_proposal(11, &b"wallet".to_vec(), &vec![2u8; 32]),
        Err(UpgradeError::AnotherUpgradePending)
    );
    assert_eq!(g2.upgrade_add_voter(11, &voter(9)), Err(UpgradeError::AnotherUpgradePending));
    assert_eq!(g2.upgrade_remove_voter(11, &voter(0)), Err(UpgradeError::AnotherUpgradePending));
    let _ = g.get_upgrade_voting_deadline();
}

#[test]
fn votes_count_once_per_snapshot_voter() {
    let mut g = with_voters(4);
    let wasm = vec![7u8; 32];
    assert_eq!(g.write_cast_vote(0, &voter(0), &wasm), Err(UpgradeError::NoPendingUpgradeAction));
    assert_eq!(g.create_upgrade_proposal(0, &b"wallet".to_vec(), &wasm), Ok(()));
    assert_eq!(g.write_cast_vote(1, &voter(9), &wasm), Err(UpgradeError::NotInVotersList));
    assert_eq!(g.write_cast_vote(1, &voter(0), &vec![8u8; 32]), Err(UpgradeError::InvalidUpgradeHash));
    assert_eq!(g.write_cast_vote(1, &voter(0), &wasm), Ok(()));
    assert_eq!(g.write_cast_vote(2, &voter(0), &wasm), Err(UpgradeError::AlreadyVoted));
    assert_eq!(g.get_upgrade_votes(), Ok((1, false)));
    assert_eq!(g.write_cast_vote(2, &voter(1), &wasm), Ok(()));
    assert_eq!(g.write_cast_vote(3, &voter(2), &wasm), Ok(()));
    assert_eq!(g.get_upgrade_votes(), Ok((3, true)));
    assert_eq!(g.write_cast_vote(7 * DAY + 1, &voter(3), &wasm), Err(UpgradeError::VotingClosed));
}

#[test]
fn passed_wallet_proposal_installs_the_new_hash() {
    let mut g = with_voters(2);
    let wasm = vec![7u8; 32];
    assert_eq!(g.create_upgrade_proposal(0, &b"wallet".to_vec(), &wasm), Ok(()));
    assert_eq!(g.write_cast_vote(1, &voter(0), &wasm), Ok(()));
    assert!(matches!(g.execute_upgrade(5), Err(UpgradeError::VotingStillOngoing)));
    assert!(matches!(g.execute_upgrade(7 * DAY), Err(UpgradeError::DidNotPass)));
    assert_eq!(g.write_cast_vote(2, &voter(1), &wasm), Ok(()));
    let (hash, kind) = g.execute_upgrade(7 * DAY).unwrap();
    assert_eq!(hash, wasm);
    assert_eq!(kind, UpgradeType::WalletVersion);
    assert_eq!(g.read_account_wasm_hash(), Some(wasm));
    assert!(matches!(g.execute_upgrade(7 * DAY), Err(UpgradeError::NoPendingUpgradeAction)));
    assert!(!g.has_active_upgrade_proposal(7 * DAY));
}

#[test]
fn cancelled_proposal_clears_state_and_keeps_hash() {
    let mut g = with_voters(1);
    assert_eq!(g.init_account_wasm_hash(&vec![1u8; 32]), Ok(()));
    assert_eq!(g.init_account_wasm_hash(&vec![2u8; 32]), Err(UpgradeError::AlreadyInitialized));
    assert!(matches!(g.cancel_upgrade_proposal(), Err(UpgradeError::NoPendingUpgradeAction)));
    assert_eq!(g.create_upgrade_proposal(0, &b"upgrade".to_vec(), &vec![3u8; 32]), Ok(()));
    assert_eq!(g.cancel_upgrade_proposal(), Ok(vec![3u8; 32]));
    assert!(!g.has_active_upgrade_proposal(1));
    assert_eq!(g.read_account_wasm_hash(), Some(vec![1u8; 32]));
    assert_eq!(g.get_upgrade_votes(), Err(UpgradeError::NoPendingUpgradeAction));
}

#[test]
fn snapshot_voters_decide_even_after_voter_changes() {
    let mut g = with_voters(1);
    let wasm = vec![4u8; 32];
    assert_eq!(g.create_upgrade_proposal(0, &b"upgrade".to_vec(), &wasm), Ok(()));
    // After the deadline, voters may change again, but the open proposal
    // still counts only its snapshot.
    assert_eq!(g.upgrade_add_voter(7 * DAY + 1, &voter(5)), Ok(()));
    assert!(matches!(g.execute_upgrade(7 * DAY + 1), Err(UpgradeError::DidNotPass)));
    // An expired proposal is replaced by a new one.
    assert_eq!(g.create_upgrade_proposal(7 * DAY + 2, &b"upgrade".to_vec(), &wasm), Ok(()));
    assert_eq!(g.write_cast_vote(7 * DAY + 3, &voter(5), &wasm), Ok(()));
    assert_eq!(g.get_upgrade_votes(), Ok((1, false)));
}
