//! The quorum rule: how a tally of votes decides a claim.
//!
//! A side carries a claim when at least three votes have been cast and that
//! side holds two thirds of them. While voting is open either side can carry
//! it; once the deadline has passed, anything short of an approving
//! supermajority is a rejection.

use crate::state::ClaimStatus;
use vstd::prelude::*;

verus! {

/// Fewest votes that can resolve a claim.
pub const QUORUM: u32 = 3;

/// `side` holds two thirds of `total`, and `total` reaches the quorum.
pub open spec fn supermajority(side: nat, total: nat) -> bool {
    total >= QUORUM && side * 3 >= total * 2
}

/// The status a tally gives a claim while voting is open.
pub open spec fn live_outcome(votes_for: nat, votes_against: nat) -> ClaimStatus {
    let total = votes_for + votes_against;
    if supermajority(votes_for, total) {
        ClaimStatus::Approved
    } else if supermajority(votes_against, total) {
        ClaimStatus::Rejected
    } else {
        ClaimStatus::Pending
    }
}

/// The status a tally gives a claim once its deadline has passed.
pub open spec fn expiry_outcome(votes_for: nat, votes_against: nat) -> ClaimStatus {
    if supermajority(votes_for, votes_for + votes_against) {
        ClaimStatus::Approved
    } else {
        ClaimStatus::Rejected
    }
}

/// Decides a claim from its tally while voting is open.
pub fn evaluate_quorum(votes_for: u16, votes_against: u16) -> (status: ClaimStatus)
    ensures
        status == live_outcome(votes_for as nat, votes_against as nat),
{
    let approvals: u32 = votes_for as u32;
    let rejections: u32 = votes_against as u32;
    let total: u32 = approvals + rejections;
    if total >= QUORUM && approvals * 3 >= total * 2 {
        ClaimStatus::Approved
    } else if total >= QUORUM && rejections * 3 >= total * 2 {
        ClaimStatus::Rejected
    } else {
        ClaimStatus::Pending
    }
}

/// Decides a claim from its tally after the deadline.
pub fn evaluate_expiry(votes_for: u16, votes_against: u16) -> (status: ClaimStatus)
    ensures
        status == expiry_outcome(votes_for as nat, votes_against as nat),
{
    let approvals: u32 = votes_for as u32;
    let total: u32 = approvals + votes_against as u32;
    if total >= QUORUM && approvals * 3 >= total * 2 {
        ClaimStatus::Approved
    } else {
        ClaimStatus::Rejected
    }
}

/// Below the quorum nothing is decided while voting is open.
pub proof fn below_quorum_stays_pending(votes_for: nat, votes_against: nat)
    requires
        votes_for + votes_against < QUORUM,
    ensures
        live_outcome(votes_for, votes_against) == ClaimStatus::Pending,
{
}

/// The vote that completes the quorum always resolves the claim: of three
/// votes one side holds at least two.
pub proof fn quorum_vote_resolves(votes_for: nat, votes_against: nat)
    requires
        votes_for + votes_against == QUORUM,
    ensures
        live_outcome(votes_for, votes_against) != ClaimStatus::Pending,
        live_outcome(votes_for, votes_against) == ClaimStatus::Approved <==> votes_for >= 2,
        live_outcome(votes_for, votes_against) == ClaimStatus::Rejected <==> votes_against >= 2,
{
}

/// At most one side can hold a supermajority of the same tally.
pub proof fn supermajority_is_exclusive(votes_for: nat, votes_against: nat)
    ensures
        !(supermajority(votes_for, votes_for + votes_against) && supermajority(
            votes_against,
            votes_for + votes_against,
        )),
{
}

/// While voting is open a tally at or above the quorum resolves the claim
/// exactly when one side holds two thirds of it, and then for that side.
pub proof fn live_outcome_follows_supermajority(votes_for: nat, votes_against: nat)
    ensures
        live_outcome(votes_for, votes_against) == ClaimStatus::Approved <==> supermajority(
            votes_for,
            votes_for + votes_against,
        ),
        live_outcome(votes_for, votes_against) == ClaimStatus::Rejected <==> supermajority(
            votes_against,
            votes_for + votes_against,
        ),
        live_outcome(votes_for, votes_against) != ClaimStatus::Paid,
{
}

/// At expiry every tally is decided, and only an approving supermajority
/// approves: too few votes, a tie and a rejecting majority all reject.
pub proof fn expiry_rejects_without_approving_supermajority(votes_for: nat, votes_against: nat)
    ensures
        expiry_outcome(votes_for, votes_against) == ClaimStatus::Approved <==> supermajority(
            votes_for,
            votes_for + votes_against,
        ),
        expiry_outcome(votes_for, votes_against) == ClaimStatus::Rejected <==> !supermajority(
            votes_for,
            votes_for + votes_against,
        ),
        votes_for + votes_against < QUORUM ==> expiry_outcome(votes_for, votes_against)
            == ClaimStatus::Rejected,
        votes_for <= votes_against ==> expiry_outcome(votes_for, votes_against)
            == ClaimStatus::Rejected,
{
}

/// Whenever the open-voting rule approves a tally, so does the expiry rule.
pub proof fn expiry_agrees_with_live_approval(votes_for: nat, votes_against: nat)
    ensures
        live_outcome(votes_for, votes_against) == ClaimStatus::Approved ==> expiry_outcome(
            votes_for,
            votes_against,
        ) == ClaimStatus::Approved,
        live_outcome(votes_for, votes_against) == ClaimStatus::Rejected ==> expiry_outcome(
            votes_for,
            votes_against,
        ) == ClaimStatus::Rejected,
{
}

} // verus!
