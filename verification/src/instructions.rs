//! The operations: each checks its preconditions in a fixed order, refuses
//! with the first that fails, and otherwise applies its whole effect.

use crate::accounts::{
    CreatePool, DepositPremium, RegisterValidator, ResolveExpiredClaim, SubmitClaim,
    UnstakeValidator, VoteClaim, WithdrawPayout,
};
use crate::consensus::{evaluate_expiry, evaluate_quorum};
use crate::error::GigError;
use crate::events::{ClaimSubmitted, PayoutWithdrawn, PremiumDeposited, Transfer, VoteCasted};
use crate::lifecycle::{
    payout_keeps_claim_valid, resolution_keeps_claim_valid, vote_keeps_claim_valid,
    vote_keeps_validator_valid,
};
use crate::rules::{
    claim_after_payout, claim_after_resolution, claim_after_vote, claim_cap,
    create_pool_refusal, deposit_fits, deposit_refusal, new_claim, new_pool, new_validator,
    new_vote, policy_after_deposit, policy_before_deposit, policy_slot, pool_after_deposit,
    pool_after_payout, register_refusal, resolve_refusal, submit_fits, submit_refusal,
    unstake_fits, unstake_refusal, validator_after_unstake, validator_after_vote, vote_fits,
    vote_refusal, withdraw_fits, withdraw_refusal,
};
use crate::state::{
    Claim, ClaimStatus, GigCategory, InsurancePool, Policy, ValidatorNode, Vote,
    CLAIM_MULTIPLIER, INITIAL_REPUTATION, MAX_DESCRIPTION_LEN, MAX_ID_LEN,
    MAX_PREMIUM_RATE_BPS, MIN_STAKE, REPUTATION_REWARD, UNSTAKE_COOLDOWN, VOTING_PERIOD,
};
use vstd::prelude::*;
use vstd::string::StrSliceExecFns;

verus! {

/// Tells whether a pool's parameters would be refused, and with what.
pub fn validate_pool(pool_id: &String, premium_rate_bps: u16, max_payout: u64) -> (refusal:
    Option<GigError>)
    ensures
        refusal == create_pool_refusal(pool_id@, premium_rate_bps as nat, max_payout as nat),
{
    if premium_rate_bps == 0 || premium_rate_bps > MAX_PREMIUM_RATE_BPS {
        Some(GigError::InvalidPremiumRate)
    } else if max_payout == 0 {
        Some(GigError::InvalidAmount)
    } else if pool_id.as_str().unicode_len() > MAX_ID_LEN {
        Some(GigError::PoolIdTooLong)
    } else {
        None
    }
}

/// Opens an insurance pool for a gig category, administered by `ctx.admin`.
///
/// Returns the new pool: active, with nothing deposited, nothing paid and
/// no policies.
pub fn create_pool(
    ctx: &CreatePool,
    pool_id: String,
    category: GigCategory,
    premium_rate_bps: u16,
    max_payout: u64,
    now: i64,
) -> (result: Result<InsurancePool, GigError>)
    ensures
        match result {
            Ok(pool) => {
                &&& create_pool_refusal(pool_id@, premium_rate_bps as nat, max_payout as nat)
                    is None
                &&& pool@ == new_pool(
                    ctx.admin@,
                    ctx.bump as nat,
                    pool_id@,
                    category,
                    premium_rate_bps as nat,
                    max_payout as nat,
                    now as int,
                )
                &&& pool@.valid()
            },
            Err(e) => create_pool_refusal(pool_id@, premium_rate_bps as nat, max_payout as nat)
                == Some(e),
        },
{
    if let Some(refusal) = validate_pool(&pool_id, premium_rate_bps, max_payout) {
        return Err(refusal);
    }
    Ok(
        InsurancePool {
            admin: ctx.admin,
            pool_id,
            category,
            premium_rate_bps,
            max_payout,
            total_deposits: 0,
            total_claims_paid: 0,
            active_policies: 0,
            is_active: true,
            created_at: now,
            bump: ctx.bump,
        },
    )
}

/// Tells whether a deposit would be refused, and with what, without making it.
pub fn validate_deposit(ctx: &DepositPremium, amount: u64) -> (refusal: Option<GigError>)
    ensures
        refusal == deposit_refusal(ctx.pool@, amount as nat),
{
    if !ctx.pool.is_active {
        Some(GigError::PoolInactive)
    } else if amount == 0 {
        Some(GigError::InvalidAmount)
    } else {
        None
    }
}

/// Tells whether the counters a deposit increments have room for it.
pub fn room_for_deposit(ctx: &DepositPremium, amount: u64) -> (room: bool)
    ensures
        room == deposit_fits(ctx.pool@, policy_slot(ctx.policy), amount as nat),
{
    if amount > u64::MAX - ctx.pool.total_deposits {
        return false;
    }
    match ctx.policy {
        Some(policy) => amount <= u64::MAX - policy.premiums_paid && policy.gigs_covered
            < u32::MAX,
        None => ctx.pool.active_policies < u32::MAX,
    }
}

/// Records a premium of `amount` paid by `ctx.worker` into an active pool.
///
/// The worker's policy is opened if this is the first deposit; the premium
/// and one more covered gig are added to it, and the pool's totals follow.
/// Returns the transfer from the worker to the pool's custody that pays the
/// premium, and the event to publish.
pub fn deposit_premium(ctx: &mut DepositPremium, amount: u64, now: i64) -> (result: Result<
    (Transfer, PremiumDeposited),
    GigError,
>)
    requires
        deposit_refusal(old(ctx).pool@, amount as nat) is None ==> deposit_fits(
            old(ctx).pool@,
            policy_slot(old(ctx).policy),
            amount as nat,
        ),
    ensures
        match result {
            Ok((transfer, event)) => {
                &&& deposit_refusal(old(ctx).pool@, amount as nat) is None
                &&& final(ctx).pool@ == pool_after_deposit(
                    old(ctx).pool@,
                    old(ctx).policy is None,
                    amount as nat,
                )
                &&& policy_slot(final(ctx).policy) == Some(
                    policy_after_deposit(
                        policy_before_deposit(
                            policy_slot(old(ctx).policy),
                            old(ctx).pool_key@,
                            old(ctx).worker@,
                            old(ctx).policy_bump as nat,
                            now as int,
                        ),
                        amount as nat,
                    ),
                )
                &&& final(ctx).pool_key == old(ctx).pool_key
                &&& final(ctx).policy_bump == old(ctx).policy_bump
                &&& final(ctx).pool_vault == old(ctx).pool_vault
                &&& final(ctx).worker == old(ctx).worker
                &&& transfer == (Transfer {
                    from: old(ctx).worker,
                    to: old(ctx).pool_vault,
                    lamports: amount,
                })
                &&& event.pool == old(ctx).pool_key
                &&& event.worker == old(ctx).worker
                &&& event.amount == amount
                &&& final(ctx).policy matches Some(policy) && event.total_premiums
                    == policy.premiums_paid
            },
            Err(e) => {
                &&& deposit_refusal(old(ctx).pool@, amount as nat) == Some(e)
                &&& *final(ctx) == *old(ctx)
            },
        },
        old(ctx).pool@.valid() ==> final(ctx).pool@.valid(),
{
    if let Some(refusal) = validate_deposit(ctx, amount) {
        return Err(refusal);
    }
    let transfer = Transfer { from: ctx.worker, to: ctx.pool_vault, lamports: amount };
    ctx.pool.total_deposits = ctx.pool.total_deposits + amount;
    let start = match ctx.policy {
        Some(policy) => policy,
        None => {
            ctx.pool.active_policies = ctx.pool.active_policies + 1;
            Policy {
                pool: ctx.pool_key,
                worker: ctx.worker,
                premiums_paid: 0,
                gigs_covered: 0,
                is_active: true,
                created_at: now,
                bump: ctx.policy_bump,
            }
        },
    };
    let policy = Policy {
        pool: start.pool,
        worker: start.worker,
        premiums_paid: start.premiums_paid + amount,
        gigs_covered: start.gigs_covered + 1,
        is_active: start.is_active,
        created_at: start.created_at,
        bump: start.bump,
    };
    ctx.policy = Some(policy);
    let event = PremiumDeposited {
        pool: ctx.pool_key,
        worker: ctx.worker,
        amount,
        total_premiums: policy.premiums_paid,
    };
    Ok((transfer, event))
}

/// Tells whether a claim submission would be refused, and with what.
pub fn validate_submission(ctx: &SubmitClaim, amount: u64, description: &String) -> (refusal:
    Option<GigError>)
    ensures
        refusal == submit_refusal(ctx.pool@, ctx.policy@, amount as nat, description@),
{
    if !ctx.pool.is_active {
        return Some(GigError::PoolInactive);
    }
    if amount == 0 || amount > ctx.pool.max_payout {
        return Some(GigError::ClaimExceedsMax);
    }
    if description.as_str().unicode_len() > MAX_DESCRIPTION_LEN {
        return Some(GigError::DescriptionTooLong);
    }
    if !ctx.policy.is_active {
        return Some(GigError::PolicyInactive);
    }
    if ctx.policy.premiums_paid == 0 {
        return Some(GigError::NoPremiumsPaid);
    }
    let within_cap = match ctx.policy.premiums_paid.checked_mul(CLAIM_MULTIPLIER) {
        Some(max_claimable) => amount <= max_claimable,
        None => true,
    };
    if !within_cap {
        return Some(GigError::ClaimExceedsPremiumCap);
    }
    None
}

/// Tells whether a voting window opened at `now` closes at a time the clock
/// can still show.
pub fn room_for_submission(now: i64) -> (room: bool)
    ensures
        room == submit_fits(now as int),
{
    now <= i64::MAX - VOTING_PERIOD
}

/// Files a claim of `amount` for `ctx.worker` against an active pool, under
/// an active policy that has paid premiums.
///
/// The amount must be positive and within both the pool's ceiling and the
/// policy's premium-proportional cap. The new claim is pending, has no
/// votes, and can be voted on until `now` plus the voting period. Returns the
/// claim to store at `ctx.claim_key` and the event to publish.
pub fn submit_claim(
    ctx: &SubmitClaim,
    claim_id: String,
    amount: u64,
    evidence_hash: [u8; 32],
    description: String,
    now: i64,
) -> (result: Result<(Claim, ClaimSubmitted), GigError>)
    requires
        submit_refusal(ctx.pool@, ctx.policy@, amount as nat, description@) is None
            ==> submit_fits(now as int),
    ensures
        match result {
            Ok((claim, event)) => {
                &&& submit_refusal(ctx.pool@, ctx.policy@, amount as nat, description@) is None
                &&& 0 < amount <= claim_cap(ctx.pool@, ctx.policy@)
                &&& claim@.valid()
                &&& claim@.within_cap(ctx.pool@, ctx.policy@)
                &&& claim@ == new_claim(
                    ctx.pool_key@,
                    ctx.policy_key@,
                    ctx.worker@,
                    ctx.claim_bump as nat,
                    claim_id@,
                    amount as nat,
                    evidence_hash@,
                    description@,
                    now as int,
                )
                &&& event == (ClaimSubmitted {
                    pool: ctx.pool_key,
                    worker: ctx.worker,
                    amount,
                    claim: ctx.claim_key,
                })
            },
            Err(e) => submit_refusal(ctx.pool@, ctx.policy@, amount as nat, description@)
                == Some(e),
        },
{
    if let Some(refusal) = validate_submission(ctx, amount, &description) {
        return Err(refusal);
    }
    let claim = Claim {
        pool: ctx.pool_key,
        policy: ctx.policy_key,
        worker: ctx.worker,
        claim_id,
        amount,
        evidence_hash,
        description,
        votes_for: 0,
        votes_against: 0,
        status: ClaimStatus::Pending,
        created_at: now,
        voting_deadline: now + VOTING_PERIOD,
        bump: ctx.claim_bump,
    };
    let event = ClaimSubmitted {
        pool: ctx.pool_key,
        worker: ctx.worker,
        amount,
        claim: ctx.claim_key,
    };
    Ok((claim, event))
}

/// Tells whether a vote would be refused, and with what, without casting it.
pub fn validate_vote(ctx: &VoteClaim, now: i64) -> (refusal: Option<GigError>)
    ensures
        refusal == vote_refusal(ctx.claim@, ctx.validator@, now as int),
{
    if ctx.claim.status != ClaimStatus::Pending {
        Some(GigError::ClaimNotPending)
    } else if now > ctx.claim.voting_deadline {
        Some(GigError::VotingExpired)
    } else if !ctx.validator.is_active {
        Some(GigError::ValidatorInactive)
    } else {
        None
    }
}

/// Tells whether the counters a vote increments have room for it.
pub fn room_for_vote(ctx: &VoteClaim, approve: bool) -> (room: bool)
    ensures
        room == vote_fits(ctx.claim@, ctx.validator@, approve),
{
    let tally = if approve {
        ctx.claim.votes_for
    } else {
        ctx.claim.votes_against
    };
    tally < u16::MAX && ctx.validator.claims_voted < u32::MAX
}

/// Casts `voter`'s vote on a pending claim whose voting window is open.
///
/// The vote is counted, the new tally is put to the quorum rule, and a claim
/// that is thereby resolved earns the voter the reputation reward. Returns
/// the vote record to store under (claim, voter) and the event to publish.
pub fn vote_claim(ctx: &mut VoteClaim, approve: bool, now: i64) -> (result: Result<
    (Vote, VoteCasted),
    GigError,
>)
    requires
        vote_refusal(old(ctx).claim@, old(ctx).validator@, now as int) is None ==> vote_fits(
            old(ctx).claim@,
            old(ctx).validator@,
            approve,
        ),
    ensures
        match result {
            Ok((vote, event)) => {
                &&& vote_refusal(old(ctx).claim@, old(ctx).validator@, now as int) is None
                &&& final(ctx).claim@ == claim_after_vote(old(ctx).claim@, approve)
                &&& final(ctx).validator@ == validator_after_vote(
                    old(ctx).validator@,
                    old(ctx).claim@,
                    approve,
                )
                &&& final(ctx).claim_key == old(ctx).claim_key
                &&& final(ctx).vote_bump == old(ctx).vote_bump
                &&& final(ctx).voter == old(ctx).voter
                &&& vote@ == new_vote(
                    old(ctx).claim_key@,
                    old(ctx).voter@,
                    old(ctx).vote_bump as nat,
                    approve,
                    now as int,
                )
                &&& vote.claim == old(ctx).claim_key
                &&& vote.validator == old(ctx).voter
                &&& event == (VoteCasted {
                    claim: old(ctx).claim_key,
                    validator: old(ctx).voter,
                    approve,
                    votes_for: final(ctx).claim.votes_for,
                    votes_against: final(ctx).claim.votes_against,
                })
            },
            Err(e) => {
                &&& vote_refusal(old(ctx).claim@, old(ctx).validator@, now as int) == Some(e)
                &&& *final(ctx) == *old(ctx)
            },
        },
        old(ctx).claim@.valid() ==> final(ctx).claim@.valid(),
        old(ctx).validator@.valid() ==> final(ctx).validator@.valid(),
{
    if let Some(refusal) = validate_vote(ctx, now) {
        return Err(refusal);
    }
    let vote = Vote {
        claim: ctx.claim_key,
        validator: ctx.voter,
        approve,
        voted_at: now,
        bump: ctx.vote_bump,
    };
    if approve {
        ctx.claim.votes_for = ctx.claim.votes_for + 1;
    } else {
        ctx.claim.votes_against = ctx.claim.votes_against + 1;
    }
    ctx.validator.claims_voted = ctx.validator.claims_voted + 1;
    let status = evaluate_quorum(ctx.claim.votes_for, ctx.claim.votes_against);
    if status != ClaimStatus::Pending {
        ctx.claim.status = status;
        ctx.validator.reputation_score = ctx.validator.reputation_score.saturating_add(
            REPUTATION_REWARD,
        );
    }
    proof {
        if old(ctx).claim@.valid() {
            vote_keeps_claim_valid(old(ctx).claim@, old(ctx).validator@, approve, now as int);
        }
        if old(ctx).validator@.valid() {
            vote_keeps_validator_valid(old(ctx).claim@, old(ctx).validator@, approve, now as int);
        }
    }
    let event = VoteCasted {
        claim: ctx.claim_key,
        validator: ctx.voter,
        approve,
        votes_for: ctx.claim.votes_for,
        votes_against: ctx.claim.votes_against,
    };
    Ok((vote, event))
}

/// Tells whether resolving the claim would be refused, and with what.
pub fn validate_resolution(ctx: &ResolveExpiredClaim, now: i64) -> (refusal: Option<GigError>)
    ensures
        refusal == resolve_refusal(ctx.claim@, now as int),
{
    if ctx.claim.status != ClaimStatus::Pending {
        Some(GigError::ClaimNotPending)
    } else if now <= ctx.claim.voting_deadline {
        Some(GigError::VotingNotExpired)
    } else {
        None
    }
}

/// Resolves a pending claim whose voting window has closed: approved if an
/// approving supermajority of at least the quorum was reached, rejected in
/// every other case.
pub fn resolve_expired_claim(ctx: &mut ResolveExpiredClaim, now: i64) -> (result: Result<
    (),
    GigError,
>)
    ensures
        match result {
            Ok(()) => {
                &&& resolve_refusal(old(ctx).claim@, now as int) is None
                &&& final(ctx).claim@ == claim_after_resolution(old(ctx).claim@)
            },
            Err(e) => {
                &&& resolve_refusal(old(ctx).claim@, now as int) == Some(e)
                &&& *final(ctx) == *old(ctx)
            },
        },
        old(ctx).claim@.valid() ==> final(ctx).claim@.valid(),
{
    if let Some(refusal) = validate_resolution(ctx, now) {
        return Err(refusal);
    }
    proof {
        if old(ctx).claim@.valid() {
            resolution_keeps_claim_valid(old(ctx).claim@, now as int);
        }
    }
    ctx.claim.status = evaluate_expiry(ctx.claim.votes_for, ctx.claim.votes_against);
    Ok(())
}

/// Tells whether a payout would be refused, and with what, without paying.
pub fn validate_payout(ctx: &WithdrawPayout) -> (refusal: Option<GigError>)
    ensures
        refusal == withdraw_refusal(ctx.claim@, ctx.worker.key@, ctx.pool_vault.lamports as nat),
{
    if ctx.claim.status != ClaimStatus::Approved {
        Some(GigError::ClaimNotApproved)
    } else if !ctx.claim.worker.same(&ctx.worker.key) {
        Some(GigError::Unauthorized)
    } else if ctx.pool_vault.lamports < ctx.claim.amount {
        Some(GigError::InsufficientPoolFunds)
    } else {
        None
    }
}

/// Tells whether the worker's balance and the pool's total have room for
/// the payout.
pub fn room_for_payout(ctx: &WithdrawPayout) -> (room: bool)
    ensures
        room == withdraw_fits(ctx.pool@, ctx.claim@, ctx.worker.lamports as nat),
{
    ctx.claim.amount <= u64::MAX - ctx.worker.lamports && ctx.claim.amount <= u64::MAX
        - ctx.pool.total_claims_paid
}

/// Pays an approved claim to the worker who filed it.
///
/// The claim's amount moves from the pool's custody to the worker, the
/// claim becomes paid, which it stays, and the pool's total of claims paid
/// grows by the amount. Returns the event to publish.
pub fn withdraw_payout(ctx: &mut WithdrawPayout) -> (result: Result<PayoutWithdrawn, GigError>)
    requires
        withdraw_refusal(old(ctx).claim@, old(ctx).worker.key@, old(ctx).pool_vault.lamports as nat)
            is None ==> withdraw_fits(
            old(ctx).pool@,
            old(ctx).claim@,
            old(ctx).worker.lamports as nat,
        ),
    ensures
        match result {
            Ok(event) => {
                &&& withdraw_refusal(
                    old(ctx).claim@,
                    old(ctx).worker.key@,
                    old(ctx).pool_vault.lamports as nat,
                ) is None
                &&& final(ctx).claim@ == claim_after_payout(old(ctx).claim@)
                &&& final(ctx).pool@ == pool_after_payout(old(ctx).pool@, old(ctx).claim@.amount)
                &&& final(ctx).pool_vault.key == old(ctx).pool_vault.key
                &&& final(ctx).pool_vault.lamports == old(ctx).pool_vault.lamports - old(
                    ctx,
                ).claim.amount
                &&& final(ctx).worker.key == old(ctx).worker.key
                &&& final(ctx).worker.lamports == old(ctx).worker.lamports + old(ctx).claim.amount
                &&& final(ctx).pool_key == old(ctx).pool_key
                &&& event == (PayoutWithdrawn {
                    pool: old(ctx).pool_key,
                    worker: old(ctx).worker.key,
                    amount: old(ctx).claim.amount,
                })
            },
            Err(e) => {
                &&& withdraw_refusal(
                    old(ctx).claim@,
                    old(ctx).worker.key@,
                    old(ctx).pool_vault.lamports as nat,
                ) == Some(e)
                &&& *final(ctx) == *old(ctx)
            },
        },
        old(ctx).claim.status == ClaimStatus::Paid ==> result == Err::<PayoutWithdrawn, GigError>(
            GigError::ClaimNotApproved,
        ) && *final(ctx) == *old(ctx),
        old(ctx).claim@.valid() ==> final(ctx).claim@.valid(),
        old(ctx).pool@.valid() ==> final(ctx).pool@.valid(),
{
    if let Some(refusal) = validate_payout(ctx) {
        return Err(refusal);
    }
    let amount = ctx.claim.amount;
    ctx.pool_vault.lamports = ctx.pool_vault.lamports - amount;
    ctx.worker.lamports = ctx.worker.lamports + amount;
    ctx.claim.status = ClaimStatus::Paid;
    proof {
        if old(ctx).claim@.valid() {
            payout_keeps_claim_valid(
                old(ctx).claim@,
                old(ctx).worker.key@,
                old(ctx).pool_vault.lamports as nat,
            );
        }
    }
    ctx.pool.total_claims_paid = ctx.pool.total_claims_paid + amount;
    Ok(PayoutWithdrawn { pool: ctx.pool_key, worker: ctx.worker.key, amount })
}

/// Tells whether a stake is too small to register with.
pub fn validate_stake(stake_amount: u64) -> (refusal: Option<GigError>)
    ensures
        refusal == register_refusal(stake_amount as nat),
{
    if stake_amount < MIN_STAKE {
        Some(GigError::InsufficientStake)
    } else {
        None
    }
}

/// Registers `ctx.voter` as a validator with a stake of `stake_amount`.
///
/// Returns the new validator record, active and with the starting
/// reputation, and the transfer that moves the stake from the voter into
/// the validator's custody.
pub fn register_validator(ctx: &RegisterValidator, stake_amount: u64, now: i64) -> (result:
    Result<(ValidatorNode, Transfer), GigError>)
    ensures
        match result {
            Ok((validator, transfer)) => {
                &&& register_refusal(stake_amount as nat) is None
                &&& validator@ == new_validator(
                    ctx.voter@,
                    ctx.bump as nat,
                    stake_amount as nat,
                    now as int,
                )
                &&& validator.authority == ctx.voter
                &&& validator@.valid()
                &&& transfer == (Transfer {
                    from: ctx.voter,
                    to: ctx.validator_vault,
                    lamports: stake_amount,
                })
            },
            Err(e) => register_refusal(stake_amount as nat) == Some(e),
        },
{
    if let Some(refusal) = validate_stake(stake_amount) {
        return Err(refusal);
    }
    let transfer = Transfer { from: ctx.voter, to: ctx.validator_vault, lamports: stake_amount };
    let validator = ValidatorNode {
        authority: ctx.voter,
        stake: stake_amount,
        claims_voted: 0,
        reputation_score: INITIAL_REPUTATION,
        is_active: true,
        registered_at: now,
        bump: ctx.bump,
    };
    Ok((validator, transfer))
}

/// Tells whether taking the stake back would be refused, and with what.
pub fn validate_unstake(ctx: &UnstakeValidator, now: i64) -> (refusal: Option<GigError>)
    ensures
        refusal == unstake_refusal(
            ctx.validator@,
            ctx.voter.key@,
            ctx.validator_vault.lamports as nat,
            now as int,
        ),
{
    if !ctx.validator.authority.same(&ctx.voter.key) {
        return Some(GigError::Unauthorized);
    }
    if !ctx.validator.is_active {
        return Some(GigError::ValidatorInactive);
    }
    let time_since_register: i128 = now as i128 - ctx.validator.registered_at as i128;
    if time_since_register < UNSTAKE_COOLDOWN as i128 {
        return Some(GigError::UnstakeCooldownNotMet);
    }
    if ctx.validator_vault.lamports < ctx.validator.stake {
        return Some(GigError::InsufficientPoolFunds);
    }
    None
}

/// Tells whether the voter's balance has room for the returned stake.
pub fn room_for_unstake(ctx: &UnstakeValidator) -> (room: bool)
    ensures
        room == unstake_fits(ctx.validator@, ctx.voter.lamports as nat),
{
    ctx.validator.stake <= u64::MAX - ctx.voter.lamports
}

/// Returns a validator's whole stake once the cooldown since registration
/// has passed, and retires the validator for good.
pub fn unstake_validator(ctx: &mut UnstakeValidator, now: i64) -> (result: Result<(), GigError>)
    requires
        unstake_refusal(
            old(ctx).validator@,
            old(ctx).voter.key@,
            old(ctx).validator_vault.lamports as nat,
            now as int,
        ) is None ==> unstake_fits(old(ctx).validator@, old(ctx).voter.lamports as nat),
    ensures
        match result {
            Ok(()) => {
                &&& unstake_refusal(
                    old(ctx).validator@,
                    old(ctx).voter.key@,
                    old(ctx).validator_vault.lamports as nat,
                    now as int,
                ) is None
                &&& final(ctx).validator@ == validator_after_unstake(old(ctx).validator@)
                &&& final(ctx).validator_vault.key == old(ctx).validator_vault.key
                &&& final(ctx).validator_vault.lamports == old(ctx).validator_vault.lamports - old(
                    ctx,
                ).validator.stake
                &&& final(ctx).voter.key == old(ctx).voter.key
                &&& final(ctx).voter.lamports == old(ctx).voter.lamports + old(ctx).validator.stake
            },
            Err(e) => {
                &&& unstake_refusal(
                    old(ctx).validator@,
                    old(ctx).voter.key@,
                    old(ctx).validator_vault.lamports as nat,
                    now as int,
                ) == Some(e)
                &&& *final(ctx) == *old(ctx)
            },
        },
        old(ctx).validator@.valid() ==> final(ctx).validator@.valid(),
{
    if let Some(refusal) = validate_unstake(ctx, now) {
        return Err(refusal);
    }
    let amount = ctx.validator.stake;
    ctx.validator_vault.lamports = ctx.validator_vault.lamports - amount;
    ctx.voter.lamports = ctx.voter.lamports + amount;
    ctx.validator.is_active = false;
    ctx.validator.stake = 0;
    Ok(())
}

} // verus!
