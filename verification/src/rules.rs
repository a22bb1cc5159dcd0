//! The rules of each operation, as mathematics: when it is refused and with
//! what, what it leaves behind when it is accepted, and which machine limits
//! it has to stay within.

use crate::consensus::{expiry_outcome, live_outcome, supermajority, QUORUM};
use crate::error::GigError;
use crate::state::{
    ClaimStatus, ClaimView, GigCategory, Policy, PolicyView, PoolView, ValidatorView, VoteView,
    CLAIM_MULTIPLIER, INITIAL_REPUTATION, MAX_DESCRIPTION_LEN, MAX_ID_LEN, MAX_PREMIUM_RATE_BPS,
    MIN_STAKE, REPUTATION_REWARD, UNSTAKE_COOLDOWN, VOTING_PERIOD,
};
use vstd::prelude::*;

verus! {

// Opening a pool

/// Why opening a pool is refused, if it is.
pub open spec fn create_pool_refusal(
    pool_id: Seq<char>,
    premium_rate_bps: nat,
    max_payout: nat,
) -> Option<GigError> {
    if premium_rate_bps == 0 || premium_rate_bps > MAX_PREMIUM_RATE_BPS {
        Some(GigError::InvalidPremiumRate)
    } else if max_payout == 0 {
        Some(GigError::InvalidAmount)
    } else if pool_id.len() > MAX_ID_LEN {
        Some(GigError::PoolIdTooLong)
    } else {
        None
    }
}

/// The pool that opening one creates: active, with nothing deposited,
/// nothing paid and no policies.
pub open spec fn new_pool(
    admin: Seq<u8>,
    bump: nat,
    pool_id: Seq<char>,
    category: GigCategory,
    premium_rate_bps: nat,
    max_payout: nat,
    now: int,
) -> PoolView {
    PoolView {
        admin,
        pool_id,
        category,
        premium_rate_bps,
        max_payout,
        total_deposits: 0,
        total_claims_paid: 0,
        active_policies: 0,
        is_active: true,
        created_at: now,
        bump,
    }
}

// Depositing a premium

/// Why a deposit is refused, if it is.
pub open spec fn deposit_refusal(pool: PoolView, amount: nat) -> Option<GigError> {
    if !pool.is_active {
        Some(GigError::PoolInactive)
    } else if amount == 0 {
        Some(GigError::InvalidAmount)
    } else {
        None
    }
}

/// The view of a policy slot.
pub open spec fn policy_slot(slot: Option<Policy>) -> Option<PolicyView> {
    match slot {
        Some(policy) => Some(policy@),
        None => None,
    }
}

/// The policy a deposit starts from: the worker's existing one, or a new,
/// empty one opened at `now`.
pub open spec fn policy_before_deposit(
    prior: Option<PolicyView>,
    pool_key: Seq<u8>,
    worker: Seq<u8>,
    bump: nat,
    now: int,
) -> PolicyView {
    match prior {
        Some(policy) => policy,
        None => PolicyView {
            pool: pool_key,
            worker,
            premiums_paid: 0,
            gigs_covered: 0,
            is_active: true,
            created_at: now,
            bump,
        },
    }
}

/// A policy after a deposit of `amount`.
pub open spec fn policy_after_deposit(start: PolicyView, amount: nat) -> PolicyView {
    PolicyView {
        premiums_paid: start.premiums_paid + amount,
        gigs_covered: (start.gigs_covered + 1) as nat,
        ..start
    }
}

/// A pool after a deposit of `amount`; `first` tells whether the deposit
/// opened the worker's policy.
pub open spec fn pool_after_deposit(pool: PoolView, first: bool, amount: nat) -> PoolView {
    PoolView {
        total_deposits: pool.total_deposits + amount,
        active_policies: if first {
            (pool.active_policies + 1) as nat
        } else {
            pool.active_policies
        },
        ..pool
    }
}

/// The counters a deposit increments have room for it.
pub open spec fn deposit_fits(pool: PoolView, prior: Option<PolicyView>, amount: nat) -> bool {
    &&& pool.total_deposits + amount <= u64::MAX
    &&& match prior {
        Some(policy) => policy.premiums_paid + amount <= u64::MAX && policy.gigs_covered
            < u32::MAX,
        None => pool.active_policies < u32::MAX,
    }
}

// Filing a claim

/// The most a claim under `policy` may ask of `pool`: the pool's ceiling or
/// the policy's premium-proportional cap, whichever is lower.
pub open spec fn claim_cap(pool: PoolView, policy: PolicyView) -> nat {
    if pool.max_payout <= policy.premiums_paid * CLAIM_MULTIPLIER {
        pool.max_payout
    } else {
        (policy.premiums_paid * CLAIM_MULTIPLIER) as nat
    }
}

/// Why a claim submission is refused, if it is.
pub open spec fn submit_refusal(
    pool: PoolView,
    policy: PolicyView,
    amount: nat,
    description: Seq<char>,
) -> Option<GigError> {
    if !pool.is_active {
        Some(GigError::PoolInactive)
    } else if amount == 0 || amount > pool.max_payout {
        Some(GigError::ClaimExceedsMax)
    } else if description.len() > MAX_DESCRIPTION_LEN {
        Some(GigError::DescriptionTooLong)
    } else if !policy.is_active {
        Some(GigError::PolicyInactive)
    } else if policy.premiums_paid == 0 {
        Some(GigError::NoPremiumsPaid)
    } else if amount > policy.premiums_paid * CLAIM_MULTIPLIER {
        Some(GigError::ClaimExceedsPremiumCap)
    } else {
        None
    }
}

/// The claim that a submission creates: pending, without votes, open to
/// votes for the voting period.
pub open spec fn new_claim(
    pool: Seq<u8>,
    policy: Seq<u8>,
    worker: Seq<u8>,
    bump: nat,
    claim_id: Seq<char>,
    amount: nat,
    evidence_hash: Seq<u8>,
    description: Seq<char>,
    now: int,
) -> ClaimView {
    ClaimView {
        pool,
        policy,
        worker,
        claim_id,
        amount,
        evidence_hash,
        description,
        votes_for: 0,
        votes_against: 0,
        status: ClaimStatus::Pending,
        created_at: now,
        voting_deadline: now + VOTING_PERIOD,
        bump,
    }
}

/// A voting window opened at `now` closes at a time the clock can show.
pub open spec fn submit_fits(now: int) -> bool {
    now + VOTING_PERIOD <= i64::MAX
}

// Voting

/// Why a vote is refused, if it is.
pub open spec fn vote_refusal(claim: ClaimView, validator: ValidatorView, now: int) -> Option<
    GigError,
> {
    if claim.status != ClaimStatus::Pending {
        Some(GigError::ClaimNotPending)
    } else if now > claim.voting_deadline {
        Some(GigError::VotingExpired)
    } else if !validator.is_active {
        Some(GigError::ValidatorInactive)
    } else {
        None
    }
}

/// A claim after one more vote: the tally grows by one on the voted side and
/// the status is whatever the new tally decides.
pub open spec fn claim_after_vote(claim: ClaimView, approve: bool) -> ClaimView {
    let votes_for = if approve { claim.votes_for + 1 } else { claim.votes_for };
    let votes_against = if approve { claim.votes_against } else { claim.votes_against + 1 };
    ClaimView {
        votes_for: votes_for as nat,
        votes_against: votes_against as nat,
        status: live_outcome(votes_for as nat, votes_against as nat),
        ..claim
    }
}

/// `base` raised by the resolution reward, without passing the largest score.
pub open spec fn rewarded(base: nat) -> nat {
    if base + REPUTATION_REWARD <= u16::MAX {
        (base + REPUTATION_REWARD) as nat
    } else {
        u16::MAX as nat
    }
}

/// A validator after voting: one more claim voted, and the reward if this
/// vote is the one that resolved the claim.
pub open spec fn validator_after_vote(
    validator: ValidatorView,
    claim: ClaimView,
    approve: bool,
) -> ValidatorView {
    ValidatorView {
        claims_voted: (validator.claims_voted + 1) as nat,
        reputation_score: if claim_after_vote(claim, approve).status != ClaimStatus::Pending {
            rewarded(validator.reputation_score)
        } else {
            validator.reputation_score
        },
        ..validator
    }
}

/// The record of a vote.
pub open spec fn new_vote(
    claim: Seq<u8>,
    validator: Seq<u8>,
    bump: nat,
    approve: bool,
    now: int,
) -> VoteView {
    VoteView { claim, validator, approve, voted_at: now, bump }
}

/// The counters a vote increments have room for it.
pub open spec fn vote_fits(claim: ClaimView, validator: ValidatorView, approve: bool) -> bool {
    &&& approve ==> claim.votes_for < u16::MAX
    &&& !approve ==> claim.votes_against < u16::MAX
    &&& validator.claims_voted < u32::MAX
}

// Resolving an expired claim

/// Why resolving an expired claim is refused, if it is.
pub open spec fn resolve_refusal(claim: ClaimView, now: int) -> Option<GigError> {
    if claim.status != ClaimStatus::Pending {
        Some(GigError::ClaimNotPending)
    } else if now <= claim.voting_deadline {
        Some(GigError::VotingNotExpired)
    } else {
        None
    }
}

/// A claim once its expired vote is resolved.
pub open spec fn claim_after_resolution(claim: ClaimView) -> ClaimView {
    ClaimView { status: expiry_outcome(claim.votes_for, claim.votes_against), ..claim }
}

// Paying out

/// Why a payout is refused, if it is.
pub open spec fn withdraw_refusal(claim: ClaimView, worker: Seq<u8>, vault: nat) -> Option<
    GigError,
> {
    if claim.status != ClaimStatus::Approved {
        Some(GigError::ClaimNotApproved)
    } else if claim.worker != worker {
        Some(GigError::Unauthorized)
    } else if vault < claim.amount {
        Some(GigError::InsufficientPoolFunds)
    } else {
        None
    }
}

/// A claim once it is paid.
pub open spec fn claim_after_payout(claim: ClaimView) -> ClaimView {
    ClaimView { status: ClaimStatus::Paid, ..claim }
}

/// A pool after paying out `amount`.
pub open spec fn pool_after_payout(pool: PoolView, amount: nat) -> PoolView {
    PoolView { total_claims_paid: pool.total_claims_paid + amount, ..pool }
}

/// The balances and the total a payout raises have room for it.
pub open spec fn withdraw_fits(pool: PoolView, claim: ClaimView, worker_balance: nat) -> bool {
    &&& worker_balance + claim.amount <= u64::MAX
    &&& pool.total_claims_paid + claim.amount <= u64::MAX
}

// Registering a validator

/// Why a registration is refused, if it is.
pub open spec fn register_refusal(stake_amount: nat) -> Option<GigError> {
    if stake_amount < MIN_STAKE {
        Some(GigError::InsufficientStake)
    } else {
        None
    }
}

/// The validator that a registration creates: active, with the starting
/// reputation and no claims voted.
pub open spec fn new_validator(
    authority: Seq<u8>,
    bump: nat,
    stake: nat,
    now: int,
) -> ValidatorView {
    ValidatorView {
        authority,
        stake,
        claims_voted: 0,
        reputation_score: INITIAL_REPUTATION as nat,
        is_active: true,
        registered_at: now,
        bump,
    }
}

// Taking a stake back

/// Why taking a stake back is refused, if it is.
pub open spec fn unstake_refusal(
    validator: ValidatorView,
    voter: Seq<u8>,
    vault: nat,
    now: int,
) -> Option<GigError> {
    if validator.authority != voter {
        Some(GigError::Unauthorized)
    } else if !validator.is_active {
        Some(GigError::ValidatorInactive)
    } else if now - validator.registered_at < UNSTAKE_COOLDOWN {
        Some(GigError::UnstakeCooldownNotMet)
    } else if vault < validator.stake {
        Some(GigError::InsufficientPoolFunds)
    } else {
        None
    }
}

/// A validator once the stake is taken back.
pub open spec fn validator_after_unstake(validator: ValidatorView) -> ValidatorView {
    ValidatorView { stake: 0, is_active: false, ..validator }
}

/// The voter's balance has room for the returned stake.
pub open spec fn unstake_fits(validator: ValidatorView, voter_balance: nat) -> bool {
    voter_balance + validator.stake <= u64::MAX
}

// The life of a claim

/// The moves a claim's status can make in one step: it may stay, a pending
/// claim may be approved or rejected, and an approved claim may be paid.
pub open spec fn may_follow(before: ClaimStatus, after: ClaimStatus) -> bool {
    ||| before == after
    ||| before == ClaimStatus::Pending && after == ClaimStatus::Approved
    ||| before == ClaimStatus::Pending && after == ClaimStatus::Rejected
    ||| before == ClaimStatus::Approved && after == ClaimStatus::Paid
}

/// The statuses a claim can reach from `before` in any number of steps.
pub open spec fn reachable(before: ClaimStatus, after: ClaimStatus) -> bool {
    ||| may_follow(before, after)
    ||| before == ClaimStatus::Pending && after == ClaimStatus::Paid
}

impl ClaimView {
    /// Votes cast on the claim so far.
    pub open spec fn total_votes(self) -> nat {
        self.votes_for + self.votes_against
    }

    /// What holds of every claim from submission on: it asks for something,
    /// its voting window is the voting period, and its status is the one its
    /// tally supports. The third vote always resolves a claim, so a pending
    /// claim has fewer votes than the quorum and no claim has more; an
    /// approved or paid one has an approving supermajority, and a rejected
    /// one has none.
    pub open spec fn valid(self) -> bool {
        &&& self.amount > 0
        &&& self.description.len() <= MAX_DESCRIPTION_LEN
        &&& self.voting_deadline == self.created_at + VOTING_PERIOD
        &&& self.total_votes() <= QUORUM
        &&& match self.status {
            ClaimStatus::Pending => self.total_votes() < QUORUM,
            ClaimStatus::Approved | ClaimStatus::Paid => supermajority(
                self.votes_for,
                self.total_votes(),
            ),
            ClaimStatus::Rejected => !supermajority(self.votes_for, self.total_votes()),
        }
    }

    /// The claim asks for no more than the pool's ceiling and the policy's
    /// premium-proportional cap allow.
    pub open spec fn within_cap(self, pool: PoolView, policy: PolicyView) -> bool {
        self.amount <= claim_cap(pool, policy)
    }
}

} // verus!
