//! The ledger over time: what holds after any operations, in any order,
//! whether they are accepted or refused.

use crate::consensus::{live_outcome, quorum_vote_resolves, supermajority, QUORUM};
use crate::error::GigError;
use crate::invariants::{
    create_pool_keeps_inv, deposit_keeps_inv, empty_is_sound, fund_keeps_inv,
    register_keeps_inv, resolve_keeps_inv, submit_keeps_inv, unstake_keeps_inv, vote_keeps_inv,
    withdraw_keeps_inv,
};
use crate::lifecycle::{
    payout_keeps_claim_valid, resolution_keeps_claim_valid, status_never_reverts,
    vote_keeps_claim_valid, vote_keeps_validator_valid,
};
use crate::model::{LedgerError, LedgerView};
use crate::rules::reachable;
use crate::state::{ClaimStatus, GigCategory, MIN_STAKE};
use vstd::prelude::*;
use vstd::set_lib::lemma_set_disjoint_lens;

verus! {

/// A request put to the ledger.
pub enum Operation {
    Fund { owner: Seq<u8>, lamports: nat },
    CreatePool {
        address: Seq<u8>,
        bump: nat,
        vault: Seq<u8>,
        admin: Seq<u8>,
        pool_id: Seq<char>,
        category: GigCategory,
        premium_rate_bps: nat,
        max_payout: nat,
        now: int,
    },
    DepositPremium {
        pool: Seq<u8>,
        policy: Seq<u8>,
        policy_bump: nat,
        worker: Seq<u8>,
        amount: nat,
        now: int,
    },
    SubmitClaim {
        pool: Seq<u8>,
        claim: Seq<u8>,
        claim_bump: nat,
        worker: Seq<u8>,
        claim_id: Seq<char>,
        amount: nat,
        evidence_hash: Seq<u8>,
        description: Seq<char>,
        now: int,
    },
    VoteClaim { claim: Seq<u8>, voter: Seq<u8>, vote_bump: nat, approve: bool, now: int },
    ResolveExpiredClaim { claim: Seq<u8>, now: int },
    WithdrawPayout { claim: Seq<u8>, worker: Seq<u8> },
    RegisterValidator { voter: Seq<u8>, bump: nat, vault: Seq<u8>, stake_amount: nat, now: int },
    UnstakeValidator { voter: Seq<u8>, now: int },
}

impl LedgerView {
    /// What the ledger makes of a request.
    pub open spec fn attempt(self, op: Operation) -> Result<LedgerView, LedgerError> {
        match op {
            Operation::Fund { owner, lamports } => self.fund(owner, lamports),
            Operation::CreatePool {
                address,
                bump,
                vault,
                admin,
                pool_id,
                category,
                premium_rate_bps,
                max_payout,
                now,
            } => self.create_pool(
                address,
                bump,
                vault,
                admin,
                pool_id,
                category,
                premium_rate_bps,
                max_payout,
                now,
            ),
            Operation::DepositPremium { pool, policy, policy_bump, worker, amount, now } => {
                self.deposit_premium(pool, policy, policy_bump, worker, amount, now)
            },
            Operation::SubmitClaim {
                pool,
                claim,
                claim_bump,
                worker,
                claim_id,
                amount,
                evidence_hash,
                description,
                now,
            } => self.submit_claim(
                pool,
                claim,
                claim_bump,
                worker,
                claim_id,
                amount,
                evidence_hash,
                description,
                now,
            ),
            Operation::VoteClaim { claim, voter, vote_bump, approve, now } => self.vote_claim(
                claim,
                voter,
                vote_bump,
                approve,
                now,
            ),
            Operation::ResolveExpiredClaim { claim, now } => self.resolve_expired_claim(
                claim,
                now,
            ),
            Operation::WithdrawPayout { claim, worker } => self.withdraw_payout(claim, worker),
            Operation::RegisterValidator { voter, bump, vault, stake_amount, now } => {
                self.register_validator(voter, bump, vault, stake_amount, now)
            },
            Operation::UnstakeValidator { voter, now } => self.unstake_validator(voter, now),
        }
    }

    /// The state after a request: changed if it was accepted, the same if
    /// it was refused.
    pub open spec fn after(self, op: Operation) -> LedgerView {
        match self.attempt(op) {
            Ok(next) => next,
            Err(_) => self,
        }
    }

    /// The state after a series of requests, put one after the other.
    pub open spec fn after_all(self, ops: Seq<Operation>) -> LedgerView
        decreases ops.len(),
    {
        if ops.len() == 0 {
            self
        } else {
            self.after_all(ops.drop_last()).after(ops.last())
        }
    }
}

/// No request, accepted or refused, takes a sound ledger to an unsound one.
pub proof fn every_operation_keeps_inv(s: LedgerView, op: Operation)
    requires
        s.inv(),
    ensures
        s.after(op).inv(),
{
    match op {
        Operation::Fund { owner, lamports } => fund_keeps_inv(s, owner, lamports),
        Operation::CreatePool {
            address,
            bump,
            vault,
            admin,
            pool_id,
            category,
            premium_rate_bps,
            max_payout,
            now,
        } => create_pool_keeps_inv(
            s,
            address,
            bump,
            vault,
            admin,
            pool_id,
            category,
            premium_rate_bps,
            max_payout,
            now,
        ),
        Operation::DepositPremium { pool, policy, policy_bump, worker, amount, now } => {
            deposit_keeps_inv(s, pool, policy, policy_bump, worker, amount, now)
        },
        Operation::SubmitClaim {
            pool,
            claim,
            claim_bump,
            worker,
            claim_id,
            amount,
            evidence_hash,
            description,
            now,
        } => submit_keeps_inv(
            s,
            pool,
            claim,
            claim_bump,
            worker,
            claim_id,
            amount,
            evidence_hash,
            description,
            now,
        ),
        Operation::VoteClaim { claim, voter, vote_bump, approve, now } => vote_keeps_inv(
            s,
            claim,
            voter,
            vote_bump,
            approve,
            now,
        ),
        Operation::ResolveExpiredClaim { claim, now } => resolve_keeps_inv(s, claim, now),
        Operation::WithdrawPayout { claim, worker } => withdraw_keeps_inv(s, claim, worker),
        Operation::RegisterValidator { voter, bump, vault, stake_amount, now } => {
            register_keeps_inv(s, voter, bump, vault, stake_amount, now)
        },
        Operation::UnstakeValidator { voter, now } => unstake_keeps_inv(s, voter, now),
    }
}

/// Whatever is asked of it, in whatever order, a sound ledger stays sound.
pub proof fn inv_holds_forever(s: LedgerView, ops: Seq<Operation>)
    requires
        s.inv(),
    ensures
        s.after_all(ops).inv(),
    decreases ops.len(),
{
    if ops.len() > 0 {
        inv_holds_forever(s, ops.drop_last());
        every_operation_keeps_inv(s.after_all(ops.drop_last()), ops.last());
    }
}

/// Every state that can be reached from the empty ledger is sound. In
/// particular every claim there is, at any time, asks for no more than its
/// pool's ceiling and ten times the premiums its policy has paid.
pub proof fn reachable_states_are_sound(ops: Seq<Operation>)
    ensures
        LedgerView::empty().after_all(ops).inv(),
{
    empty_is_sound();
    inv_holds_forever(LedgerView::empty(), ops);
}

/// One request leaves every existing claim in place, asking for what it
/// asked for, of the pool and under the policy it was filed with; its
/// tally does not shrink and its status stays or moves forward.
pub proof fn operation_advances_claims(s: LedgerView, op: Operation, c: Seq<u8>)
    requires
        s.inv(),
        s.claims.contains_key(c),
    ensures
        s.after(op).claims.contains_key(c),
        s.after(op).claims[c].amount == s.claims[c].amount,
        s.after(op).claims[c].pool == s.claims[c].pool,
        s.after(op).claims[c].worker == s.claims[c].worker,
        s.after(op).claims[c].claim_id == s.claims[c].claim_id,
        s.after(op).claims[c].voting_deadline == s.claims[c].voting_deadline,
        s.after(op).claims[c].votes_for >= s.claims[c].votes_for,
        s.after(op).claims[c].votes_against >= s.claims[c].votes_against,
        reachable(s.claims[c].status, s.after(op).claims[c].status),
{
    let before = s.claims[c];
    match op {
        Operation::VoteClaim { claim, voter, vote_bump, approve, now } => {
            if s.attempt(op) is Ok && claim == c {
                vote_keeps_claim_valid(before, s.validators[voter].validator, approve, now);
            }
        },
        Operation::ResolveExpiredClaim { claim, now } => {
            if s.attempt(op) is Ok && claim == c {
                resolution_keeps_claim_valid(before, now);
            }
        },
        Operation::WithdrawPayout { claim, worker } => {
            if s.attempt(op) is Ok && claim == c {
                payout_keeps_claim_valid(before, worker, s.pools[before.pool].vault.lamports);
            }
        },
        _ => {},
    }
}

/// Over any series of requests a claim stays what it was, and its status
/// never moves back: once approved it is never pending or rejected again,
/// once rejected it stays rejected, once paid it stays paid.
pub proof fn claims_never_revert(s: LedgerView, ops: Seq<Operation>, c: Seq<u8>)
    requires
        s.inv(),
        s.claims.contains_key(c),
    ensures
        s.after_all(ops).claims.contains_key(c),
        s.after_all(ops).claims[c].amount == s.claims[c].amount,
        s.after_all(ops).claims[c].pool == s.claims[c].pool,
        s.after_all(ops).claims[c].worker == s.claims[c].worker,
        s.after_all(ops).claims[c].votes_for >= s.claims[c].votes_for,
        s.after_all(ops).claims[c].votes_against >= s.claims[c].votes_against,
        reachable(s.claims[c].status, s.after_all(ops).claims[c].status),
    decreases ops.len(),
{
    if ops.len() > 0 {
        let middle = s.after_all(ops.drop_last());
        claims_never_revert(s, ops.drop_last(), c);
        inv_holds_forever(s, ops.drop_last());
        operation_advances_claims(middle, ops.last(), c);
        status_never_reverts(
            s.claims[c].status,
            middle.claims[c].status,
            middle.after(ops.last()).claims[c].status,
        );
    }
}

/// Over any series of requests a policy stays in place and the premiums
/// paid under it never go down.
pub proof fn premiums_never_shrink(
    s: LedgerView,
    ops: Seq<Operation>,
    pool: Seq<u8>,
    worker: Seq<u8>,
)
    requires
        s.policies.contains_key((pool, worker)),
    ensures
        s.after_all(ops).policies.contains_key((pool, worker)),
        s.after_all(ops).policies[(pool, worker)].policy.premiums_paid >= s.policies[(
            pool,
            worker,
        )].policy.premiums_paid,
    decreases ops.len(),
{
    if ops.len() > 0 {
        premiums_never_shrink(s, ops.drop_last(), pool, worker);
    }
}

/// In a sound ledger the votes counted on a claim are exactly as many as
/// the distinct validators that voted on it.
pub proof fn tally_counts_distinct_voters(s: LedgerView, c: Seq<u8>)
    requires
        s.inv(),
        s.claims.contains_key(c),
    ensures
        s.electorate(c).finite(),
        s.electorate(c).len() == s.claims[c].votes_for + s.claims[c].votes_against,
{
    let approvers = s.voters(c, true);
    let rejecters = s.voters(c, false);
    assert(s.electorate(c) =~= approvers + rejecters);
    assert(approvers.disjoint(rejecters));
    lemma_set_disjoint_lens(approvers, rejecters);
}

/// A validator votes on a claim once: after an accepted vote every further
/// vote of the same validator on the same claim is refused, whichever way it
/// goes and whenever it comes, and the tally is left as it was.
pub proof fn double_vote_is_refused(
    s: LedgerView,
    claim: Seq<u8>,
    voter: Seq<u8>,
    first: (nat, bool, int),
    second: (nat, bool, int),
)
    requires
        s.vote_claim(claim, voter, first.0, first.1, first.2) is Ok,
    ensures
        s.vote_claim(claim, voter, first.0, first.1, first.2)->Ok_0.vote_claim(
            claim,
            voter,
            second.0,
            second.1,
            second.2,
        ) == Err::<LedgerView, LedgerError>(LedgerError::AccountInUse),
{
}

/// A claim id is used once per pool: after an accepted submission every
/// further submission against the same pool under the same id is refused,
/// whoever files it and wherever it is to live; filed by the same worker it
/// is refused as in use.
pub proof fn resubmission_is_refused(
    s: LedgerView,
    pool: Seq<u8>,
    claim_id: Seq<char>,
    first: Operation,
    second: Operation,
)
    requires
        first matches Operation::SubmitClaim { pool: p, claim_id: id, .. } && p == pool && id
            == claim_id,
        second matches Operation::SubmitClaim { pool: p, claim_id: id, .. } && p == pool && id
            == claim_id,
        s.attempt(first) is Ok,
    ensures
        s.after(first).attempt(second) is Err,
        first->SubmitClaim_worker == second->SubmitClaim_worker ==> s.after(first).attempt(second)
            == Err::<LedgerView, LedgerError>(LedgerError::AccountInUse),
        s.after(first).after(second) == s.after(first),
{
}

/// A claim is paid once: after an accepted payout every further payout of
/// the same claim is refused as not approved, whoever asks, and every
/// balance is left as it was.
pub proof fn second_payout_is_refused(
    s: LedgerView,
    claim: Seq<u8>,
    worker: Seq<u8>,
    again: Seq<u8>,
)
    requires
        s.withdraw_payout(claim, worker) is Ok,
    ensures
        s.withdraw_payout(claim, worker)->Ok_0.withdraw_payout(claim, again) == Err::<
            LedgerView,
            LedgerError,
        >(LedgerError::Refused(GigError::ClaimNotApproved)),
{
}

/// Only claims that at least the quorum voted on, two thirds of them in
/// favour, are ever approved or paid.
pub proof fn payouts_need_a_supermajority(s: LedgerView, c: Seq<u8>)
    requires
        s.inv(),
        s.claims.contains_key(c),
        s.claims[c].status == ClaimStatus::Approved || s.claims[c].status == ClaimStatus::Paid,
    ensures
        s.claims[c].total_votes() >= QUORUM,
        supermajority(s.claims[c].votes_for, s.claims[c].total_votes()),
        s.electorate(c).len() >= QUORUM,
{
    tally_counts_distinct_voters(s, c);
}

/// A stake below the minimum registers nobody.
pub proof fn low_stake_registers_nobody(
    s: LedgerView,
    voter: Seq<u8>,
    bump: nat,
    vault: Seq<u8>,
    stake_amount: nat,
    now: int,
)
    requires
        stake_amount < MIN_STAKE,
    ensures
        s.register_validator(voter, bump, vault, stake_amount, now) is Err,
        !s.validators.contains_key(voter) ==> s.register_validator(
            voter,
            bump,
            vault,
            stake_amount,
            now,
        ) == Err::<LedgerView, LedgerError>(LedgerError::Refused(GigError::InsufficientStake)),
{
}

/// In a sound ledger a stake is always there to be returned: taking it back
/// is never refused for want of funds in custody.
pub proof fn stake_is_always_covered(s: LedgerView, voter: Seq<u8>, now: int)
    requires
        s.inv(),
    ensures
        s.unstake_validator(voter, now) != Err::<LedgerView, LedgerError>(
            LedgerError::Refused(GigError::InsufficientPoolFunds),
        ),
{
}

/// In a sound ledger a pool holds exactly what was deposited into it and
/// not yet paid out.
pub proof fn pools_hold_their_books(s: LedgerView, pool: Seq<u8>)
    requires
        s.inv(),
        s.pools.contains_key(pool),
    ensures
        s.pools[pool].vault.lamports == s.pools[pool].pool.total_deposits
            - s.pools[pool].pool.total_claims_paid,
{
}

/// In a sound ledger no claim has more votes than the quorum: the vote that
/// completes the quorum resolves the claim, and a resolved claim takes no
/// more votes. A pending claim has fewer.
pub proof fn no_claim_outgrows_the_quorum(s: LedgerView, c: Seq<u8>)
    requires
        s.inv(),
        s.claims.contains_key(c),
    ensures
        s.claims[c].total_votes() <= QUORUM,
        s.claims[c].status == ClaimStatus::Pending ==> s.claims[c].total_votes() < QUORUM,
        s.electorate(c).len() <= QUORUM,
{
    tally_counts_distinct_voters(s, c);
}

/// In a sound ledger a claim left pending until its deadline has passed is
/// rejected when it is resolved: it never gathered the quorum.
pub proof fn expiry_rejects_in_sound_ledger(s: LedgerView, c: Seq<u8>, now: int)
    requires
        s.inv(),
        s.resolve_expired_claim(c, now) is Ok,
    ensures
        s.resolve_expired_claim(c, now)->Ok_0.claims[c].status == ClaimStatus::Rejected,
{
}

impl LedgerView {
    /// Every claim stands where its votes alone put it: pending, approved or
    /// rejected as the open-voting rule decides its tally, or paid after
    /// that rule approved it.
    pub open spec fn decided_by_votes(self) -> bool {
        forall|c: Seq<u8>| #[trigger]
            self.claims.contains_key(c) ==> {
                let claim = self.claims[c];
                let verdict = live_outcome(claim.votes_for, claim.votes_against);
                claim.status == verdict || (claim.status == ClaimStatus::Paid && verdict
                    == ClaimStatus::Approved)
            }
    }
}

/// One request other than a resolution by expiry leaves every claim where
/// its votes put it.
pub proof fn operation_keeps_votes_deciding(s: LedgerView, op: Operation)
    requires
        s.inv(),
        s.decided_by_votes(),
        !(op is ResolveExpiredClaim),
    ensures
        s.after(op).decided_by_votes(),
{
    let t = s.after(op);
    assert forall|c: Seq<u8>| #[trigger] t.claims.contains_key(c) implies ({
        let claim = t.claims[c];
        let verdict = live_outcome(claim.votes_for, claim.votes_against);
        claim.status == verdict || (claim.status == ClaimStatus::Paid && verdict
            == ClaimStatus::Approved)
    }) by {
        match op {
            Operation::SubmitClaim { claim, .. } => {
                if c != claim || s.attempt(op) is Err {
                    assert(s.claims.contains_key(c));
                }
            },
            Operation::VoteClaim { claim, .. } => {
                assert(s.claims.contains_key(c));
            },
            Operation::WithdrawPayout { claim, .. } => {
                assert(s.claims.contains_key(c));
            },
            _ => {
                assert(s.claims.contains_key(c));
                assert(t.claims[c] == s.claims[c]);
            },
        }
    }
}

/// As long as no claim is resolved by expiry, a claim's status is a function
/// of its votes: pending below the quorum, and from the quorum on approved or
/// rejected for the side that holds two thirds.
pub proof fn votes_alone_decide(s: LedgerView, ops: Seq<Operation>)
    requires
        s.inv(),
        s.decided_by_votes(),
        forall|i: int| 0 <= i < ops.len() ==> !(#[trigger] ops[i] is ResolveExpiredClaim),
    ensures
        s.after_all(ops).inv(),
        s.after_all(ops).decided_by_votes(),
    decreases ops.len(),
{
    if ops.len() > 0 {
        votes_alone_decide(s, ops.drop_last());
        assert(!(ops[ops.len() - 1] is ResolveExpiredClaim));
        every_operation_keeps_inv(s.after_all(ops.drop_last()), ops.last());
        operation_keeps_votes_deciding(s.after_all(ops.drop_last()), ops.last());
    }
}

/// Where votes alone decided, a claim is pending exactly as long as it has
/// fewer votes than the quorum.
pub proof fn pending_means_below_quorum(s: LedgerView, c: Seq<u8>)
    requires
        s.inv(),
        s.decided_by_votes(),
        s.claims.contains_key(c),
    ensures
        s.claims[c].status == ClaimStatus::Pending <==> s.claims[c].total_votes() < QUORUM,
{
    if s.claims[c].total_votes() >= QUORUM {
        quorum_vote_resolves(s.claims[c].votes_for, s.claims[c].votes_against);
    }
}

/// Over any series of requests a pool stays in place with the terms it was
/// opened with, and its totals never go down.
pub proof fn pools_keep_their_terms(s: LedgerView, ops: Seq<Operation>, pool: Seq<u8>)
    requires
        s.pools.contains_key(pool),
    ensures
        s.after_all(ops).pools.contains_key(pool),
        ({
            let before = s.pools[pool].pool;
            let after = s.after_all(ops).pools[pool].pool;
            &&& after.admin == before.admin
            &&& after.pool_id == before.pool_id
            &&& after.category == before.category
            &&& after.premium_rate_bps == before.premium_rate_bps
            &&& after.max_payout == before.max_payout
            &&& after.is_active == before.is_active
            &&& after.created_at == before.created_at
            &&& after.total_deposits >= before.total_deposits
            &&& after.total_claims_paid >= before.total_claims_paid
            &&& after.active_policies >= before.active_policies
        }),
    decreases ops.len(),
{
    if ops.len() > 0 {
        pools_keep_their_terms(s, ops.drop_last(), pool);
    }
}

/// Over any series of requests a validator stays registered, never loses
/// reputation, and once retired stays retired with no stake.
pub proof fn validators_only_gain_reputation(s: LedgerView, ops: Seq<Operation>, voter: Seq<u8>)
    requires
        s.inv(),
        s.validators.contains_key(voter),
    ensures
        s.after_all(ops).validators.contains_key(voter),
        ({
            let before = s.validators[voter].validator;
            let after = s.after_all(ops).validators[voter].validator;
            &&& after.reputation_score >= before.reputation_score
            &&& after.claims_voted >= before.claims_voted
            &&& after.registered_at == before.registered_at
            &&& !before.is_active ==> !after.is_active && after.stake == 0
        }),
    decreases ops.len(),
{
    if ops.len() > 0 {
        validators_only_gain_reputation(s, ops.drop_last(), voter);
        inv_holds_forever(s, ops.drop_last());
        let middle = s.after_all(ops.drop_last());
        inv_holds_forever(s, ops);
        match ops.last() {
            Operation::VoteClaim { claim, voter: v, approve, now, .. } => {
                if middle.attempt(ops.last()) is Ok && v == voter {
                    vote_keeps_validator_valid(
                        middle.claims[claim],
                        middle.validators[voter].validator,
                        approve,
                        now,
                    );
                }
            },
            _ => {},
        }
    }
}

/// The funds in a pool's custody move only by a deposit into that pool,
/// which adds the premium, and by a payout of one of its claims, which takes
/// the claim's amount.
pub proof fn pool_custody_moves_by_deposit_and_payout(s: LedgerView, op: Operation, pool: Seq<u8>)
    requires
        s.inv(),
        s.pools.contains_key(pool),
    ensures
        s.after(op).pools.contains_key(pool),
        s.after(op).pools[pool].vault.key == s.pools[pool].vault.key,
        match op {
            Operation::DepositPremium { pool: target, amount, .. } if target == pool && s.attempt(
                op,
            ) is Ok => s.after(op).pools[pool].vault.lamports == s.pools[pool].vault.lamports
                + amount,
            Operation::WithdrawPayout { claim, .. } if s.attempt(op) is Ok && s.claims[claim].pool
                == pool => s.after(op).pools[pool].vault.lamports + s.claims[claim].amount
                == s.pools[pool].vault.lamports,
            _ => s.after(op).pools[pool].vault.lamports == s.pools[pool].vault.lamports,
        },
{
}

/// A stake in custody moves only by its validator's unstaking, which takes
/// all of it.
pub proof fn stake_custody_moves_by_unstake(s: LedgerView, op: Operation, voter: Seq<u8>)
    requires
        s.inv(),
        s.validators.contains_key(voter),
    ensures
        s.after(op).validators.contains_key(voter),
        s.after(op).validators[voter].vault.key == s.validators[voter].vault.key,
        match op {
            Operation::UnstakeValidator { voter: target, .. } if target == voter && s.attempt(op)
                is Ok => s.after(op).validators[voter].vault.lamports == 0,
            _ => s.after(op).validators[voter].vault.lamports
                == s.validators[voter].vault.lamports,
        },
{
}

/// In a sound ledger the tally fixes the status: a claim with the quorum of
/// votes is resolved, approved or paid exactly if at least two of them are in
/// favour; a claim with fewer is pending, or was rejected at expiry.
pub proof fn tally_fixes_status(s: LedgerView, c: Seq<u8>)
    requires
        s.inv(),
        s.claims.contains_key(c),
    ensures
        ({
            let claim = s.claims[c];
            let approved = claim.status == ClaimStatus::Approved || claim.status
                == ClaimStatus::Paid;
            &&& claim.total_votes() == QUORUM ==> claim.status != ClaimStatus::Pending
            &&& claim.total_votes() == QUORUM ==> (approved <==> claim.votes_for >= 2)
            &&& claim.total_votes() < QUORUM ==> claim.status == ClaimStatus::Pending
                || claim.status == ClaimStatus::Rejected
        }),
{
}

/// In a sound ledger only a validator that is active, and so holds at least
/// the minimum stake in custody, gets a vote accepted.
pub proof fn only_staked_validators_vote(
    s: LedgerView,
    claim: Seq<u8>,
    voter: Seq<u8>,
    vote_bump: nat,
    approve: bool,
    now: int,
)
    requires
        s.inv(),
        s.vote_claim(claim, voter, vote_bump, approve, now) is Ok,
    ensures
        s.validators[voter].validator.is_active,
        s.validators[voter].validator.stake >= MIN_STAKE,
        s.validators[voter].vault.lamports >= MIN_STAKE,
        now <= s.claims[claim].voting_deadline,
{
}

/// A vote, once cast, is never changed or withdrawn.
pub proof fn votes_are_final(
    s: LedgerView,
    ops: Seq<Operation>,
    claim: Seq<u8>,
    voter: Seq<u8>,
)
    requires
        s.votes.contains_key((claim, voter)),
    ensures
        s.after_all(ops).votes.contains_key((claim, voter)),
        s.after_all(ops).votes[(claim, voter)] == s.votes[(claim, voter)],
    decreases ops.len(),
{
    if ops.len() > 0 {
        votes_are_final(s, ops.drop_last(), claim, voter);
    }
}

} // verus!
