//! Upgrade governance: proposals snapshot the voter set and the approval
//! threshold, snapshot voters vote once before the deadline, and a proposal
//! passes with at least 75% of its snapshot voters.
use vstd::prelude::*;

use crate::address::{Address, AddressView};
use crate::address_set::AddressSet;
use crate::bytes::{bytes_eq, copy_bytes, opt_bytes};
use crate::errors::UpgradeError;
use crate::proposal_types::{upgrade_type_of_name, UpgradeType};

verus! {

/// Length of an upgrade vote, in seconds (seven days).
pub const UPGRADE_VOTING_DURATION_SECONDS: u64 = 604800;

/// Percentage of the snapshot voters whose votes pass a proposal.
pub const VOTING_THRESHOLD: u32 = 75;

/// The approval threshold for `voter_count` voters: 75% of them, rounded up.
pub open spec fn threshold_spec(voter_count: int) -> int {
    (voter_count * 75 + 99) / 100
}

/// Computes the approval threshold, `ceil(voter_count * 75 / 100)`.
pub fn compute_approval_threshold(voter_count: u32) -> (r: u32)
    requires
        voter_count * 75 <= u32::MAX,
    ensures
        r == threshold_spec(voter_count as int),
{
    let numerator = voter_count * VOTING_THRESHOLD;
    let mut threshold = numerator / 100;
    if numerator % 100 != 0 {
        threshold = threshold + 1;
    }
    threshold
}

/// The threshold is the least number of votes that reaches 75% of the
/// voters, and for at least one voter it lies between one and the count.
pub proof fn lemma_threshold_bounds(voter_count: int)
    requires
        voter_count >= 0,
    ensures
        100 * threshold_spec(voter_count) >= 75 * voter_count,
        100 * (threshold_spec(voter_count) - 1) < 75 * voter_count,
        voter_count >= 1 ==> 1 <= threshold_spec(voter_count) <= voter_count,
{
}

/// The governance state of a contract that has no voters, no approved
/// hash and no proposal.
pub open spec fn empty_governance() -> GovernanceView {
    GovernanceView {
        voting_deadline: 0,
        future_wasm: None,
        proposal_type: None,
        account_wasm: None,
        voters: Set::empty(),
        voted: Set::empty(),
        proposal_threshold: None,
        proposal_voters: None,
    }
}

/// The governance state, over views.
pub struct GovernanceView {
    pub voting_deadline: u64,
    pub future_wasm: Option<Seq<u8>>,
    pub proposal_type: Option<UpgradeType>,
    pub account_wasm: Option<Seq<u8>>,
    pub voters: Set<AddressView>,
    pub voted: Set<AddressView>,
    pub proposal_threshold: Option<u32>,
    pub proposal_voters: Option<Set<AddressView>>,
}

/// Governance state of a contract: the voter set, the approved account
/// implementation hash and the pending proposal with its snapshot.
pub struct Governance {
    pub voting_deadline: u64,
    pub future_wasm: Option<Vec<u8>>,
    pub proposal_type: Option<UpgradeType>,
    pub account_wasm: Option<Vec<u8>>,
    pub voters: AddressSet,
    pub voted: AddressSet,
    pub proposal_threshold: Option<u32>,
    pub proposal_voters: Option<AddressSet>,
}

impl View for Governance {
    type V = GovernanceView;

    open spec fn view(&self) -> GovernanceView {
        GovernanceView {
            voting_deadline: self.voting_deadline,
            future_wasm: opt_bytes(self.future_wasm),
            proposal_type: self.proposal_type,
            account_wasm: opt_bytes(self.account_wasm),
            voters: self.voters@,
            voted: self.voted@,
            proposal_threshold: self.proposal_threshold,
            proposal_voters: match self.proposal_voters {
                Some(s) => Some(s@),
                None => None,
            },
        }
    }
}

/// Whether a proposal is open for voting at time `now`.
pub open spec fn active_spec(g: GovernanceView, now: u64) -> bool {
    g.voting_deadline != 0 && now <= g.voting_deadline
}

/// The state with every trace of a pending proposal removed.
pub open spec fn cleared_spec(g: GovernanceView) -> GovernanceView {
    GovernanceView {
        voting_deadline: 0,
        future_wasm: None,
        proposal_type: None,
        proposal_threshold: None,
        voted: Set::empty(),
        proposal_voters: None,
        ..g
    }
}

/// Creating a proposal of kind `kind` for `wasm` at time `now`.
pub open spec fn create_spec(g: GovernanceView, now: u64, kind: Seq<u8>, wasm: Seq<u8>) -> Result<
    GovernanceView,
    UpgradeError,
> {
    if active_spec(g, now) {
        Err(UpgradeError::AnotherUpgradePending)
    } else if g.voters.len() == 0 {
        Err(UpgradeError::NotEnoughVoters)
    } else {
        match upgrade_type_of_name(kind) {
            None => Err(UpgradeError::UpgradeTypeNotFound),
            Some(t) => Ok(
                GovernanceView {
                    voting_deadline: (now + UPGRADE_VOTING_DURATION_SECONDS) as u64,
                    future_wasm: Some(wasm),
                    proposal_type: Some(t),
                    proposal_threshold: Some(threshold_spec(g.voters.len() as int) as u32),
                    proposal_voters: Some(g.voters),
                    voted: Set::empty(),
                    ..g
                },
            ),
        }
    }
}

/// Casting `voter`'s vote for `wasm` at time `now`.
pub open spec fn vote_spec(g: GovernanceView, now: u64, voter: AddressView, wasm: Seq<u8>) -> Result<
    GovernanceView,
    UpgradeError,
> {
    if g.voting_deadline == 0 {
        Err(UpgradeError::NoPendingUpgradeAction)
    } else if now > g.voting_deadline {
        Err(UpgradeError::VotingClosed)
    } else {
        match g.proposal_voters {
            None => Err(UpgradeError::NoPendingUpgradeAction),
            Some(snapshot) => if !snapshot.contains(voter) {
                Err(UpgradeError::NotInVotersList)
            } else {
                match g.future_wasm {
                    None => Err(UpgradeError::NoPendingUpgradeAction),
                    Some(f) => if f != wasm {
                        Err(UpgradeError::InvalidUpgradeHash)
                    } else if g.voted.contains(voter) {
                        Err(UpgradeError::AlreadyVoted)
                    } else {
                        Ok(GovernanceView { voted: g.voted.insert(voter), ..g })
                    },
                }
            },
        }
    }
}

/// The tally of the pending proposal: the number of snapshot voters that
/// voted, and whether it reaches the snapshot threshold.
pub open spec fn votes_spec(g: GovernanceView) -> Result<(u32, bool), UpgradeError> {
    match (g.proposal_voters, g.proposal_threshold) {
        (Some(snapshot), Some(t)) => {
            let n = g.voted.intersect(snapshot).len();
            Ok((n as u32, n >= t))
        },
        _ => Err(UpgradeError::NoPendingUpgradeAction),
    }
}

/// Executing the pending proposal at time `now`: the new state and the
/// executed hash and kind.
pub open spec fn execute_spec(g: GovernanceView, now: u64) -> Result<
    (GovernanceView, Seq<u8>, UpgradeType),
    UpgradeError,
> {
    if g.voting_deadline == 0 {
        Err(UpgradeError::NoPendingUpgradeAction)
    } else if now < g.voting_deadline {
        Err(UpgradeError::VotingStillOngoing)
    } else {
        match (g.future_wasm, g.proposal_type) {
            (Some(w), Some(t)) => match votes_spec(g) {
                Err(e) => Err(e),
                Ok((_, passed)) => if !passed {
                    Err(UpgradeError::DidNotPass)
                } else {
                    match t {
                        UpgradeType::Upgrade => Ok((cleared_spec(g), w, t)),
                        UpgradeType::WalletVersion => Ok(
                            (cleared_spec(GovernanceView { account_wasm: Some(w), ..g }), w, t),
                        ),
                    }
                },
            },
            _ => Err(UpgradeError::NoPendingUpgradeAction),
        }
    }
}

/// Executing a proposal carries out exactly what was voted on: it returns
/// the proposed hash and kind and ends the proposal (no deadline, hash, kind,
/// threshold, votes or voter snapshot remain) while the voters stay. Only a
/// wallet-version proposal changes the approved account implementation
/// hash, to the proposed hash; a contract upgrade leaves it as it was, since
/// it replaces only the contract's own code.
pub proof fn lemma_execute_effect(g: GovernanceView, now: u64)
    ensures
        execute_spec(g, now) is Ok ==> {
            let (g2, w, t) = execute_spec(g, now)->Ok_0;
            &&& g.voting_deadline != 0 && now >= g.voting_deadline
            &&& g.future_wasm == Some(w) && g.proposal_type == Some(t)
            &&& g2.voting_deadline == 0 && g2.future_wasm is None && g2.proposal_type is None
            &&& g2.proposal_threshold is None && g2.proposal_voters is None
            &&& g2.voted == Set::<AddressView>::empty()
            &&& g2.voters == g.voters
            &&& (t == UpgradeType::Upgrade ==> g2.account_wasm == g.account_wasm)
            &&& (t == UpgradeType::WalletVersion ==> g2.account_wasm == Some(w))
        },
{
}

impl Governance {
    /// Governance with no voters, no approved account hash and no proposal.
    pub fn new() -> (r: Governance)
        ensures
            r@ == (GovernanceView {
                voting_deadline: 0,
                future_wasm: None,
                proposal_type: None,
                account_wasm: None,
                voters: Set::empty(),
                voted: Set::empty(),
                proposal_threshold: None,
                proposal_voters: None,
            }),
    {
        Governance {
            voting_deadline: 0,
            future_wasm: None,
            proposal_type: None,
            account_wasm: None,
            voters: AddressSet::new(),
            voted: AddressSet::new(),
            proposal_threshold: None,
            proposal_voters: None,
        }
    }

    /// Whether a proposal is open for voting at time `now`.
    pub fn has_active_upgrade_proposal(&self, now: u64) -> (r: bool)
        ensures
            r == active_spec(self@, now),
    {
        self.voting_deadline != 0 && now <= self.voting_deadline
    }

    /// The voting deadline of the pending proposal, `0` when there is none.
    pub fn get_upgrade_voting_deadline(&self) -> (r: u64)
        ensures
            r == self.voting_deadline,
    {
        self.voting_deadline
    }

    /// Removes the pending proposal, its votes and its snapshot.
    pub fn clear_pending_upgrade_state(&mut self)
        ensures
            final(self)@ == cleared_spec(old(self)@),
    {
        self.voting_deadline = 0;
        self.future_wasm = None;
        self.proposal_type = None;
        self.proposal_threshold = None;
        self.voted = AddressSet::new();
        self.proposal_voters = None;
    }

    /// Sets the approved account implementation hash once.
    pub fn init_account_wasm_hash(&mut self, wasm: &Vec<u8>) -> (r: Result<(), UpgradeError>)
        ensures
            old(self).account_wasm is Some ==> r == Err::<(), UpgradeError>(
                UpgradeError::AlreadyInitialized,
            ) && final(self)@ == old(self)@,
            old(self).account_wasm is None ==> r is Ok && final(self)@ == (GovernanceView {
                account_wasm: Some(wasm@),
                ..old(self)@
            }),
    {
        if self.account_wasm.is_some() {
            return Err(UpgradeError::AlreadyInitialized);
        }
        self.account_wasm = Some(copy_bytes(wasm));
        Ok(())
    }

    /// The approved account implementation hash, if set.
    pub fn read_account_wasm_hash(&self) -> (r: Option<Vec<u8>>)
        ensures
            opt_bytes(r) == self@.account_wasm,
    {
        match &self.account_wasm {
            Some(w) => Some(copy_bytes(w)),
            None => None,
        }
    }

    /// Opens a proposal of kind `proposal_type` ("upgrade" or "wallet") for
    /// `wasm`, snapshotting the voters and the threshold; an expired proposal
    /// is cleared first. Voting closes seven days after `now`.
    pub fn create_upgrade_proposal(&mut self, now: u64, proposal_type: &Vec<u8>, wasm: &Vec<u8>) -> (r:
        Result<(), UpgradeError>)
        requires
            old(self)@.voters.len() * 75 <= u32::MAX,
            now + UPGRADE_VOTING_DURATION_SECONDS <= u64::MAX,
        ensures
            match create_spec(old(self)@, now, proposal_type@, wasm@) {
                Ok(g) => r is Ok && final(self)@ == g,
                Err(e) => r == Err::<(), UpgradeError>(e) && final(self)@ == old(self)@,
            },
    {
        if self.has_active_upgrade_proposal(now) {
            return Err(UpgradeError::AnotherUpgradePending);
        }
        let count = self.voters.len();
        if count == 0 {
            return Err(UpgradeError::NotEnoughVoters);
        }
        let kind = match UpgradeType::upgrade_type(proposal_type) {
            Some(k) => k,
            None => {
                return Err(UpgradeError::UpgradeTypeNotFound);
            },
        };
        if self.voting_deadline != 0 {
            self.clear_pending_upgrade_state();
        }
        let threshold = compute_approval_threshold(count as u32);
        let mut snapshot = AddressSet::new();
        let members = self.voters.to_vec();
        let mut i: usize = 0;
        while i < members.len()
            invariant
                i <= members.len(),
                crate::address_set::views_of(members@) == self.voters.elems(),
                snapshot@ == crate::address_set::views_of(members@).subrange(0, i as int).to_set(),
            decreases members.len() - i,
        {
            let ghost before = crate::address_set::views_of(members@).subrange(0, i as int);
            snapshot.insert(&members[i]);
            proof {
                assert(crate::address_set::views_of(members@).subrange(0, i + 1) =~= before.push(
                    members@[i as int]@,
                ));
                before.lemma_push_to_set_commute(members@[i as int]@);
            }
            i = i + 1;
        }
        proof {
            assert(crate::address_set::views_of(members@).subrange(0, members.len() as int)
                =~= crate::address_set::views_of(members@));
            self.voters.lemma_view_is_elems();
        }
        self.proposal_threshold = Some(threshold);
        self.proposal_voters = Some(snapshot);
        self.voted = AddressSet::new();
        self.voting_deadline = now + UPGRADE_VOTING_DURATION_SECONDS;
        self.future_wasm = Some(copy_bytes(wasm));
        self.proposal_type = Some(kind);
        Ok(())
    }

    /// Records `voter`'s vote for `wasm`: only snapshot voters may vote, once
    /// each, before the deadline, for the proposal's own hash.
    pub fn write_cast_vote(&mut self, now: u64, voter: &Address, wasm: &Vec<u8>) -> (r: Result<
        (),
        UpgradeError,
    >)
        ensures
            match vote_spec(old(self)@, now, voter@, wasm@) {
                Ok(g) => r is Ok && final(self)@ == g,
                Err(e) => r == Err::<(), UpgradeError>(e) && final(self)@ == old(self)@,
            },
    {
        if self.voting_deadline == 0 {
            return Err(UpgradeError::NoPendingUpgradeAction);
        }
        if now > self.voting_deadline {
            return Err(UpgradeError::VotingClosed);
        }
        match &self.proposal_voters {
            None => {
                return Err(UpgradeError::NoPendingUpgradeAction);
            },
            Some(snapshot) => {
                if !snapshot.contains(voter) {
                    return Err(UpgradeError::NotInVotersList);
                }
            },
        }
        match &self.future_wasm {
            None => {
                return Err(UpgradeError::NoPendingUpgradeAction);
            },
            Some(f) => {
                if !bytes_eq(f, wasm) {
                    return Err(UpgradeError::InvalidUpgradeHash);
                }
            },
        }
        if self.voted.contains(voter) {
            return Err(UpgradeError::AlreadyVoted);
        }
        self.voted.insert(voter);
        Ok(())
    }

    /// The number of snapshot voters that voted, and whether that reaches
    /// the snapshot threshold.
    pub fn get_upgrade_votes(&self) -> (r: Result<(u32, bool), UpgradeError>)
        requires
            self@.voted.len() <= u32::MAX,
        ensures
            r == votes_spec(self@),
    {
        match (&self.proposal_voters, self.proposal_threshold) {
            (Some(snapshot), Some(t)) => {
                let n = self.voted.count_in(snapshot);
                Ok((n, n >= t))
            },
            _ => Err(UpgradeError::NoPendingUpgradeAction),
        }
    }

    /// Executes the pending proposal once voting has ended and it passed:
    /// a wallet-version proposal installs the new approved account hash;
    /// either kind clears the proposal. Returns the hash and the kind; a
    /// contract upgrade is then applied by the caller.
    pub fn execute_upgrade(&mut self, now: u64) -> (r: Result<(Vec<u8>, UpgradeType), UpgradeError>)
        requires
            old(self)@.voted.len() <= u32::MAX,
        ensures
            match execute_spec(old(self)@, now) {
                Ok((g, w, t)) => (r matches Ok(v) && v.0@ == w && v.1 == t) && final(self)@ == g,
                Err(e) => r == Err::<(Vec<u8>, UpgradeType), UpgradeError>(e) && final(self)@ == old(
                    self,
                )@,
            },
            r matches Ok(v) ==> old(self)@.future_wasm == Some(v.0@) && final(self)@.voting_deadline
                == 0 && final(self)@.future_wasm is None && final(self)@.voters == old(self)@.voters,
            r matches Ok(v) ==> (v.1 == UpgradeType::Upgrade ==> final(self)@.account_wasm == old(
                self,
            )@.account_wasm),
            r matches Ok(v) ==> (v.1 == UpgradeType::WalletVersion ==> final(self)@.account_wasm == Some(
                v.0@,
            )),
    {
        proof {
            lemma_execute_effect(old(self)@, now);
        }
        if self.voting_deadline == 0 {
            return Err(UpgradeError::NoPendingUpgradeAction);
        }
        if now < self.voting_deadline {
            return Err(UpgradeError::VotingStillOngoing);
        }
        let wasm = match &self.future_wasm {
            Some(w) => copy_bytes(w),
            None => {
                return Err(UpgradeError::NoPendingUpgradeAction);
            },
        };
        let kind = match self.proposal_type {
            Some(t) => t,
            None => {
                return Err(UpgradeError::NoPendingUpgradeAction);
            },
        };
        let (_, passed) = self.get_upgrade_votes()?;
        if !passed {
            return Err(UpgradeError::DidNotPass);
        }
        match kind {
            UpgradeType::Upgrade => {
                self.clear_pending_upgrade_state();
            },
            UpgradeType::WalletVersion => {
                self.account_wasm = Some(copy_bytes(&wasm));
                self.clear_pending_upgrade_state();
            },
        }
        Ok((wasm, kind))
    }

    /// Cancels the pending proposal, returning its hash.
    pub fn cancel_upgrade_proposal(&mut self) -> (r: Result<Vec<u8>, UpgradeError>)
        ensures
            match old(self)@.future_wasm {
                None => r == Err::<Vec<u8>, UpgradeError>(UpgradeError::NoPendingUpgradeAction)
                    && final(self)@ == old(self)@,
                Some(w) => (r matches Ok(v) && v@ == w) && final(self)@ == cleared_spec(old(self)@),
            },
    {
        let wasm = match &self.future_wasm {
            Some(w) => copy_bytes(w),
            None => {
                return Err(UpgradeError::NoPendingUpgradeAction);
            },
        };
        self.clear_pending_upgrade_state();
        Ok(wasm)
    }

    /// Adds a voter; refused while a proposal is open, so that an open
    /// proposal's snapshot is never affected.
    pub fn upgrade_add_voter(&mut self, now: u64, voter: &Address) -> (r: Result<(), UpgradeError>)
        ensures
            active_spec(old(self)@, now) ==> r == Err::<(), UpgradeError>(
                UpgradeError::AnotherUpgradePending,
            ) && final(self)@ == old(self)@,
            !active_spec(old(self)@, now) ==> r is Ok && final(self)@ == (GovernanceView {
                voters: old(self)@.voters.insert(voter@),
                ..old(self)@
            }),
    {
        if self.has_active_upgrade_proposal(now) {
            return Err(UpgradeError::AnotherUpgradePending);
        }
        self.voters.insert(voter);
        Ok(())
    }

    /// Removes a voter; refused while a proposal is open.
    pub fn upgrade_remove_voter(&mut self, now: u64, voter: &Address) -> (r: Result<(), UpgradeError>)
        ensures
            active_spec(old(self)@, now) ==> r == Err::<(), UpgradeError>(
                UpgradeError::AnotherUpgradePending,
            ) && final(self)@ == old(self)@,
            !active_spec(old(self)@, now) ==> r is Ok && final(self)@ == (GovernanceView {
                voters: old(self)@.voters.remove(voter@),
                ..old(self)@
            }),
    {
        if self.has_active_upgrade_proposal(now) {
            return Err(UpgradeError::AnotherUpgradePending);
        }
        self.voters.remove(voter);
        Ok(())
    }
}

/// The pending proposal's threshold is the one computed from its snapshot,
/// and only snapshot voters have voted.
pub open spec fn proposal_consistent(g: GovernanceView) -> bool {
    &&& g.voted.finite()
    &&& match g.proposal_voters {
        Some(s) => s.finite() && s.len() * 75 <= u32::MAX && g.proposal_threshold == Some(threshold_spec(s.len() as int) as u32)
            && g.voted.subset_of(s),
        None => g.voted.len() == 0,
    }
}

/// Opening a proposal, casting a vote, changing the voter set, cancelling
/// and executing all keep the proposal consistent with its snapshot.
pub proof fn lemma_operations_keep_proposal_consistent(
    g: GovernanceView,
    now: u64,
    kind: Seq<u8>,
    wasm: Seq<u8>,
    voter: AddressView,
)
    requires
        proposal_consistent(g),
        g.voters.finite(),
        g.voters.len() * 75 <= u32::MAX,
    ensures
        create_spec(g, now, kind, wasm) matches Ok(g2) ==> proposal_consistent(g2),
        vote_spec(g, now, voter, wasm) matches Ok(g2) ==> proposal_consistent(g2),
        proposal_consistent(GovernanceView { voters: g.voters.insert(voter), ..g }),
        proposal_consistent(GovernanceView { voters: g.voters.remove(voter), ..g }),
        proposal_consistent(cleared_spec(g)),
        execute_spec(g, now) matches Ok((g2, _, _)) ==> proposal_consistent(g2),
{
    if let Ok(g2) = create_spec(g, now, kind, wasm) {
        assert(g2.voted =~= Set::<AddressView>::empty());
    }
    if let Ok(g2) = vote_spec(g, now, voter, wasm) {
        let s = g.proposal_voters->Some_0;
        assert(g2.voted.subset_of(s));
    }
}

/// Each accepted vote adds exactly one to the proposal's tally.
pub proof fn lemma_vote_counts_once(g: GovernanceView, now: u64, voter: AddressView, wasm: Seq<u8>)
    requires
        g.voted.finite(),
        vote_spec(g, now, voter, wasm) is Ok,
    ensures
        ({
            let g2 = vote_spec(g, now, voter, wasm)->Ok_0;
            let s = g.proposal_voters->Some_0;
            &&& g2.proposal_voters == g.proposal_voters
            &&& g2.voted.intersect(s).len() == g.voted.intersect(s).len() + 1
        }),
{
    let s = g.proposal_voters->Some_0;
    crate::address_set::lemma_intersect_insert(g.voted, voter, s);
}

/// A consistent proposal executes only when at least 75% of its snapshot
/// voters voted for it, and execution leaves no proposal pending.
pub proof fn lemma_execution_requires_supermajority(g: GovernanceView, now: u64)
    requires
        proposal_consistent(g),
        execute_spec(g, now) is Ok,
    ensures
        ({
            let s = g.proposal_voters->Some_0;
            100 * g.voted.intersect(s).len() >= 75 * s.len()
        }),
        execute_spec(g, now)->Ok_0.0.voting_deadline == 0,
        execute_spec(g, now)->Ok_0.0.future_wasm is None,
        execute_spec(g, now)->Ok_0.0.proposal_voters is None,
{
    let s = g.proposal_voters->Some_0;
    lemma_threshold_bounds(s.len() as int);
}

} // verus!
