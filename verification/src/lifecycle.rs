//! What stays true of a record over its whole life, whatever operations are
//! applied to it and in whatever order.

use crate::consensus::{expiry_outcome, supermajority, QUORUM};
use crate::error::GigError;
use crate::rules::{
    claim_after_payout, claim_after_resolution, claim_after_vote, claim_cap, deposit_refusal,
    may_follow, policy_after_deposit, pool_after_deposit, reachable, resolve_refusal, rewarded,
    submit_refusal, unstake_refusal, validator_after_unstake, validator_after_vote,
    vote_refusal, withdraw_refusal,
};
use crate::state::{
    ClaimStatus, ClaimView, PolicyView, PoolView, ValidatorView, CLAIM_MULTIPLIER,
};
use vstd::prelude::*;

verus! {

/// A status never moves back. What a claim can reach is an order on the
/// statuses: steps compose, no status is reached again once it was left, and
/// nothing but `Pending` leads to `Pending`.
pub proof fn status_never_reverts(a: ClaimStatus, b: ClaimStatus, c: ClaimStatus)
    ensures
        may_follow(a, b) ==> reachable(a, b),
        reachable(a, b) && reachable(b, c) ==> reachable(a, c),
        reachable(a, b) && reachable(b, a) ==> a == b,
        reachable(a, b) && b == ClaimStatus::Pending ==> a == ClaimStatus::Pending,
        reachable(a, b) && a == ClaimStatus::Rejected ==> b == ClaimStatus::Rejected,
        reachable(a, b) && a == ClaimStatus::Paid ==> b == ClaimStatus::Paid,
{
}

/// An accepted vote leaves a valid claim valid, moves its status only
/// forward, and makes the status exactly what the new tally decides: pending
/// below the quorum or without a supermajority, resolved for the side that
/// holds one.
pub proof fn vote_keeps_claim_valid(
    claim: ClaimView,
    validator: ValidatorView,
    approve: bool,
    now: int,
)
    requires
        claim.valid(),
        vote_refusal(claim, validator, now) is None,
    ensures
        claim_after_vote(claim, approve).valid(),
        may_follow(claim.status, claim_after_vote(claim, approve).status),
        claim_after_vote(claim, approve).total_votes() == claim.total_votes() + 1,
        claim_after_vote(claim, approve).total_votes() < QUORUM ==> claim_after_vote(
            claim,
            approve,
        ).status == ClaimStatus::Pending,
        claim_after_vote(claim, approve).amount == claim.amount,
{
}

/// Resolving an expired claim leaves a valid claim valid and decided:
/// approved or rejected, never pending again.
pub proof fn resolution_keeps_claim_valid(claim: ClaimView, now: int)
    requires
        claim.valid(),
        resolve_refusal(claim, now) is None,
    ensures
        claim_after_resolution(claim).valid(),
        may_follow(claim.status, claim_after_resolution(claim).status),
        claim_after_resolution(claim).status != ClaimStatus::Pending,
        claim_after_resolution(claim).status == expiry_outcome(
            claim.votes_for,
            claim.votes_against,
        ),
{
}

/// Paying a claim leaves a valid claim valid; only a claim with an approving
/// supermajority of at least the quorum is ever paid.
pub proof fn payout_keeps_claim_valid(claim: ClaimView, worker: Seq<u8>, vault: nat)
    requires
        claim.valid(),
        withdraw_refusal(claim, worker, vault) is None,
    ensures
        claim_after_payout(claim).valid(),
        may_follow(claim.status, ClaimStatus::Paid),
        supermajority(claim.votes_for, claim.total_votes()),
        claim.total_votes() >= QUORUM,
{
}

/// Once a claim has left `Pending` its verdict is final: every further vote
/// and every further resolution is refused as not pending.
pub proof fn resolved_claim_is_closed(claim: ClaimView, validator: ValidatorView, now: int)
    requires
        claim.status != ClaimStatus::Pending,
    ensures
        vote_refusal(claim, validator, now) == Some(GigError::ClaimNotPending),
        resolve_refusal(claim, now) == Some(GigError::ClaimNotPending),
{
}

/// A claim is paid at most once: after a payout, and for any claim that is
/// paid, rejected or still pending, every payout is refused as not approved,
/// whoever asks and whatever the pool holds.
pub proof fn payout_happens_at_most_once(claim: ClaimView, worker: Seq<u8>, vault: nat)
    ensures
        withdraw_refusal(claim_after_payout(claim), worker, vault) == Some(
            GigError::ClaimNotApproved,
        ),
        claim.status != ClaimStatus::Approved ==> withdraw_refusal(claim, worker, vault) == Some(
            GigError::ClaimNotApproved,
        ),
{
}

/// A claim that was accepted at submission is within the cap.
pub proof fn submission_is_within_cap(
    pool: PoolView,
    policy: PolicyView,
    amount: nat,
    description: Seq<char>,
)
    requires
        submit_refusal(pool, policy, amount, description) is None,
    ensures
        0 < amount <= claim_cap(pool, policy),
        amount <= pool.max_payout,
        amount <= policy.premiums_paid * CLAIM_MULTIPLIER,
{
}

/// A deposit never lowers the cap: premiums only grow and the pool's
/// ceiling stays, so a claim within the cap before a deposit is within it
/// after.
pub proof fn deposit_never_lowers_cap(
    claim: ClaimView,
    pool: PoolView,
    policy: PolicyView,
    first: bool,
    amount: nat,
)
    requires
        claim.within_cap(pool, policy),
    ensures
        policy_after_deposit(policy, amount).premiums_paid >= policy.premiums_paid,
        pool_after_deposit(pool, first, amount).max_payout == pool.max_payout,
        claim_cap(pool_after_deposit(pool, first, amount), policy_after_deposit(policy, amount))
            >= claim_cap(pool, policy),
        claim.within_cap(
            pool_after_deposit(pool, first, amount),
            policy_after_deposit(policy, amount),
        ),
{
}

/// A deposit into a valid pool leaves it valid and keeps what it was
/// created with.
pub proof fn deposit_keeps_pool_valid(pool: PoolView, first: bool, amount: nat)
    requires
        pool.valid(),
        deposit_refusal(pool, amount) is None,
    ensures
        pool_after_deposit(pool, first, amount).valid(),
        pool_after_deposit(pool, first, amount).total_deposits == pool.total_deposits + amount,
{
}

/// Voting leaves a valid validator valid; reputation never goes down, and
/// goes up exactly when the vote resolved the claim.
pub proof fn vote_keeps_validator_valid(
    claim: ClaimView,
    validator: ValidatorView,
    approve: bool,
    now: int,
)
    requires
        validator.valid(),
        vote_refusal(claim, validator, now) is None,
    ensures
        validator_after_vote(validator, claim, approve).valid(),
        validator_after_vote(validator, claim, approve).reputation_score
            >= validator.reputation_score,
        claim_after_vote(claim, approve).status == ClaimStatus::Pending ==> validator_after_vote(
            validator,
            claim,
            approve,
        ).reputation_score == validator.reputation_score,
        claim_after_vote(claim, approve).status != ClaimStatus::Pending ==> validator_after_vote(
            validator,
            claim,
            approve,
        ).reputation_score == rewarded(validator.reputation_score),
{
}

/// Unstaking leaves a valid validator valid, and retired for good: an
/// inactive validator can neither vote nor unstake again.
pub proof fn unstake_retires_validator(
    validator: ValidatorView,
    claim: ClaimView,
    voter: Seq<u8>,
    vault: nat,
    now: int,
)
    requires
        validator.valid(),
    ensures
        validator_after_unstake(validator).valid(),
        vote_refusal(claim, validator_after_unstake(validator), now) is Some,
        unstake_refusal(validator_after_unstake(validator), voter, vault, now) is Some,
{
}

} // verus!
