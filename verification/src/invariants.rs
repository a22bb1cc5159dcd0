//! What is true of the ledger in every state it can reach, and the proof
//! that every operation keeps it so.

use crate::lifecycle::{
    deposit_keeps_pool_valid, deposit_never_lowers_cap, payout_keeps_claim_valid,
    resolution_keeps_claim_valid, unstake_retires_validator, vote_keeps_claim_valid,
    vote_keeps_validator_valid,
};
use crate::model::LedgerView;
use crate::rules::policy_before_deposit;
use crate::state::GigCategory;
use vstd::prelude::*;

verus! {

impl LedgerView {
    /// Every pool has the parameters pools are created with, holds exactly
    /// what was deposited and not yet paid out, and is the one pool its
    /// admin opened under its id.
    pub open spec fn pools_sound(self) -> bool {
        &&& forall|k: Seq<u8>| #[trigger]
            self.pools.contains_key(k) ==> {
                let account = self.pools[k];
                &&& account.pool.valid()
                &&& account.vault.lamports + account.pool.total_claims_paid
                    == account.pool.total_deposits
                &&& account.pool.total_deposits <= u64::MAX
                &&& self.pool_ids.contains_key((account.pool.admin, account.pool.pool_id))
                &&& self.pool_ids[(account.pool.admin, account.pool.pool_id)] == k
            }
        &&& forall|n: (Seq<u8>, Seq<char>)| #[trigger]
            self.pool_ids.contains_key(n) ==> {
                &&& self.pools.contains_key(self.pool_ids[n])
                &&& self.pools[self.pool_ids[n]].pool.admin == n.0
                &&& self.pools[self.pool_ids[n]].pool.pool_id == n.1
            }
    }

    /// Every policy belongs to a pool that exists and to the worker it is
    /// stored under.
    pub open spec fn policies_sound(self) -> bool {
        forall|k: (Seq<u8>, Seq<u8>)| #[trigger]
            self.policies.contains_key(k) ==> {
                &&& self.pools.contains_key(k.0)
                &&& self.policies[k].policy.pool == k.0
                &&& self.policies[k].policy.worker == k.1
            }
    }

    /// Every claim is valid, was filed under a policy of its worker in its
    /// pool, asks for no more than that pool's ceiling and that policy's
    /// premiums allow, and is the one claim filed against its pool under its
    /// id.
    pub open spec fn claims_sound(self) -> bool {
        &&& forall|c: Seq<u8>| #[trigger]
            self.claims.contains_key(c) ==> {
                let claim = self.claims[c];
                &&& claim.valid()
                &&& self.pools.contains_key(claim.pool)
                &&& self.policies.contains_key((claim.pool, claim.worker))
                &&& claim.policy == self.policies[(claim.pool, claim.worker)].key
                &&& claim.within_cap(
                    self.pools[claim.pool].pool,
                    self.policies[(claim.pool, claim.worker)].policy,
                )
                &&& self.claim_ids.contains_key((claim.pool, claim.claim_id))
                &&& self.claim_ids[(claim.pool, claim.claim_id)] == c
            }
        &&& forall|n: (Seq<u8>, Seq<char>)| #[trigger]
            self.claim_ids.contains_key(n) ==> {
                &&& self.claims.contains_key(self.claim_ids[n])
                &&& self.claims[self.claim_ids[n]].pool == n.0
                &&& self.claims[self.claim_ids[n]].claim_id == n.1
            }
    }

    /// Every validator is valid, is stored under its own identity, and has
    /// exactly its stake in custody.
    pub open spec fn validators_sound(self) -> bool {
        forall|v: Seq<u8>| #[trigger]
            self.validators.contains_key(v) ==> {
                let account = self.validators[v];
                &&& account.validator.valid()
                &&& account.validator.authority == v
                &&& account.vault.lamports == account.validator.stake
            }
    }

    /// Every vote was cast by a registered validator on a claim that
    /// exists, and says so.
    pub open spec fn votes_sound(self) -> bool {
        forall|k: (Seq<u8>, Seq<u8>)| #[trigger]
            self.votes.contains_key(k) ==> {
                &&& self.claims.contains_key(k.0)
                &&& self.validators.contains_key(k.1)
                &&& self.votes[k].claim == k.0
                &&& self.votes[k].validator == k.1
            }
    }

    /// Every claim's tally counts the validators that voted on it: as many
    /// votes for as validators that approved, as many against as validators
    /// that rejected.
    pub open spec fn tallies_sound(self) -> bool {
        forall|c: Seq<u8>| #[trigger]
            self.claims.contains_key(c) ==> {
                &&& self.voters(c, true).finite()
                &&& self.voters(c, false).finite()
                &&& self.voters(c, true).len() == self.claims[c].votes_for
                &&& self.voters(c, false).len() == self.claims[c].votes_against
            }
    }

    /// What holds in every state the ledger can reach.
    pub open spec fn inv(self) -> bool {
        &&& self.pools_sound()
        &&& self.policies_sound()
        &&& self.claims_sound()
        &&& self.validators_sound()
        &&& self.votes_sound()
        &&& self.tallies_sound()
    }
}

/// Tallies depend on the votes and the claims' counts alone.
proof fn tallies_carry_over(s: LedgerView, t: LedgerView)
    requires
        s.tallies_sound(),
        t.votes == s.votes,
        forall|c: Seq<u8>| #[trigger]
            t.claims.contains_key(c) ==> s.claims.contains_key(c) && t.claims[c].votes_for
                == s.claims[c].votes_for && t.claims[c].votes_against
                == s.claims[c].votes_against,
    ensures
        t.tallies_sound(),
{
    assert forall|c: Seq<u8>| #[trigger] t.claims.contains_key(c) implies {
        &&& t.voters(c, true).finite()
        &&& t.voters(c, false).finite()
        &&& t.voters(c, true).len() == t.claims[c].votes_for
        &&& t.voters(c, false).len() == t.claims[c].votes_against
    } by {
        assert(s.claims.contains_key(c));
        assert(t.voters(c, true) =~= s.voters(c, true));
        assert(t.voters(c, false) =~= s.voters(c, false));
    }
}

/// The empty ledger is sound.
pub proof fn empty_is_sound()
    ensures
        LedgerView::empty().inv(),
{
}

/// Funding a wallet keeps the ledger sound and touches nothing else.
pub proof fn fund_keeps_inv(s: LedgerView, owner: Seq<u8>, lamports: nat)
    requires
        s.inv(),
    ensures
        s.fund(owner, lamports) matches Ok(t) ==> t.inv(),
{
    if let Ok(t) = s.fund(owner, lamports) {
        tallies_carry_over(s, t);
    }
}

/// Opening a pool keeps the ledger sound.
pub proof fn create_pool_keeps_inv(
    s: LedgerView,
    address: Seq<u8>,
    bump: nat,
    vault: Seq<u8>,
    admin: Seq<u8>,
    pool_id: Seq<char>,
    category: GigCategory,
    premium_rate_bps: nat,
    max_payout: nat,
    now: int,
)
    requires
        s.inv(),
    ensures
        s.create_pool(
            address,
            bump,
            vault,
            admin,
            pool_id,
            category,
            premium_rate_bps,
            max_payout,
            now,
        ) matches Ok(t) ==> t.inv(),
{
    if let Ok(t) = s.create_pool(
        address,
        bump,
        vault,
        admin,
        pool_id,
        category,
        premium_rate_bps,
        max_payout,
        now,
    ) {
        tallies_carry_over(s, t);
    }
}

/// A deposit keeps the ledger sound: the pool holds what its books say, and
/// every claim filed under the growing policy stays within its cap.
pub proof fn deposit_keeps_inv(
    s: LedgerView,
    pool: Seq<u8>,
    policy: Seq<u8>,
    policy_bump: nat,
    worker: Seq<u8>,
    amount: nat,
    now: int,
)
    requires
        s.inv(),
    ensures
        s.deposit_premium(pool, policy, policy_bump, worker, amount, now) matches Ok(t)
            ==> t.inv(),
{
    if let Ok(t) = s.deposit_premium(pool, policy, policy_bump, worker, amount, now) {
        let prior = s.policy_of(pool, worker);
        let start = policy_before_deposit(prior, pool, worker, policy_bump, now);
        deposit_keeps_pool_valid(s.pools[pool].pool, prior is None, amount);
        tallies_carry_over(s, t);
        assert forall|c: Seq<u8>| #[trigger] t.claims.contains_key(c) implies {
            let claim = t.claims[c];
            claim.within_cap(
                t.pools[claim.pool].pool,
                t.policies[(claim.pool, claim.worker)].policy,
            )
        } by {
            let claim = s.claims[c];
            assert(s.claims.contains_key(c));
            if claim.pool == pool && claim.worker == worker {
                deposit_never_lowers_cap(claim, s.pools[pool].pool, start, prior is None, amount);
            } else if claim.pool == pool {
                assert(t.policies[(claim.pool, claim.worker)] == s.policies[(
                    claim.pool,
                    claim.worker,
                )]);
            } else {
                assert(t.pools[claim.pool] == s.pools[claim.pool]);
            }
        }
    }
}

/// A submission keeps the ledger sound: the new claim is valid, within its
/// cap, and without votes.
pub proof fn submit_keeps_inv(
    s: LedgerView,
    pool: Seq<u8>,
    claim: Seq<u8>,
    claim_bump: nat,
    worker: Seq<u8>,
    claim_id: Seq<char>,
    amount: nat,
    evidence_hash: Seq<u8>,
    description: Seq<char>,
    now: int,
)
    requires
        s.inv(),
    ensures
        s.submit_claim(
            pool,
            claim,
            claim_bump,
            worker,
            claim_id,
            amount,
            evidence_hash,
            description,
            now,
        ) matches Ok(t) ==> t.inv(),
{
    if let Ok(t) = s.submit_claim(
        pool,
        claim,
        claim_bump,
        worker,
        claim_id,
        amount,
        evidence_hash,
        description,
        now,
    ) {
        assert forall|c: Seq<u8>| #[trigger] t.claims.contains_key(c) implies {
            &&& t.voters(c, true).finite()
            &&& t.voters(c, false).finite()
            &&& t.voters(c, true).len() == t.claims[c].votes_for
            &&& t.voters(c, false).len() == t.claims[c].votes_against
        } by {
            if c == claim {
                assert forall|v: Seq<u8>| !s.votes.contains_key((claim, v)) by {
                    if s.votes.contains_key((claim, v)) {
                        assert(s.claims.contains_key((claim, v).0));
                    }
                }
                assert(t.voters(c, true) =~= Set::<Seq<u8>>::empty());
                assert(t.voters(c, false) =~= Set::<Seq<u8>>::empty());
            } else {
                assert(s.claims.contains_key(c));
                assert(t.voters(c, true) =~= s.voters(c, true));
                assert(t.voters(c, false) =~= s.voters(c, false));
            }
        }
    }
}

/// A vote keeps the ledger sound: the claim stays valid, the validator
/// stays valid, and the tally still counts the validators that voted.
pub proof fn vote_keeps_inv(
    s: LedgerView,
    claim: Seq<u8>,
    voter: Seq<u8>,
    vote_bump: nat,
    approve: bool,
    now: int,
)
    requires
        s.inv(),
    ensures
        s.vote_claim(claim, voter, vote_bump, approve, now) matches Ok(t) ==> t.inv(),
{
    if let Ok(t) = s.vote_claim(claim, voter, vote_bump, approve, now) {
        let record = s.claims[claim];
        let account = s.validators[voter];
        vote_keeps_claim_valid(record, account.validator, approve, now);
        vote_keeps_validator_valid(record, account.validator, approve, now);
        assert forall|c: Seq<u8>| #[trigger] t.claims.contains_key(c) implies {
            &&& t.voters(c, true).finite()
            &&& t.voters(c, false).finite()
            &&& t.voters(c, true).len() == t.claims[c].votes_for
            &&& t.voters(c, false).len() == t.claims[c].votes_against
        } by {
            assert(s.claims.contains_key(c));
            if c == claim {
                assert(!s.voters(c, approve).contains(voter));
                assert(t.voters(c, approve) =~= s.voters(c, approve).insert(voter));
                assert(t.voters(c, !approve) =~= s.voters(c, !approve));
            } else {
                assert(t.voters(c, true) =~= s.voters(c, true));
                assert(t.voters(c, false) =~= s.voters(c, false));
            }
        }
    }
}

/// Resolving an expired claim keeps the ledger sound.
pub proof fn resolve_keeps_inv(s: LedgerView, claim: Seq<u8>, now: int)
    requires
        s.inv(),
    ensures
        s.resolve_expired_claim(claim, now) matches Ok(t) ==> t.inv(),
{
    if let Ok(t) = s.resolve_expired_claim(claim, now) {
        resolution_keeps_claim_valid(s.claims[claim], now);
        tallies_carry_over(s, t);
    }
}

/// A payout keeps the ledger sound: the pool still holds exactly what was
/// deposited and not paid out.
pub proof fn withdraw_keeps_inv(s: LedgerView, claim: Seq<u8>, worker: Seq<u8>)
    requires
        s.inv(),
    ensures
        s.withdraw_payout(claim, worker) matches Ok(t) ==> t.inv(),
{
    if let Ok(t) = s.withdraw_payout(claim, worker) {
        let record = s.claims[claim];
        payout_keeps_claim_valid(record, worker, s.pools[record.pool].vault.lamports);
        tallies_carry_over(s, t);
    }
}

/// A registration keeps the ledger sound: the new validator holds its stake
/// in custody.
pub proof fn register_keeps_inv(
    s: LedgerView,
    voter: Seq<u8>,
    bump: nat,
    vault: Seq<u8>,
    stake_amount: nat,
    now: int,
)
    requires
        s.inv(),
    ensures
        s.register_validator(voter, bump, vault, stake_amount, now) matches Ok(t) ==> t.inv(),
{
    if let Ok(t) = s.register_validator(voter, bump, vault, stake_amount, now) {
        tallies_carry_over(s, t);
    }
}

/// Taking a stake back keeps the ledger sound: the retired validator holds
/// nothing and has nothing in custody.
pub proof fn unstake_keeps_inv(s: LedgerView, voter: Seq<u8>, now: int)
    requires
        s.inv(),
    ensures
        s.unstake_validator(voter, now) matches Ok(t) ==> t.inv(),
{
    if let Ok(t) = s.unstake_validator(voter, now) {
        let account = s.validators[voter];
        unstake_retires_validator(
            account.validator,
            arbitrary(),
            voter,
            account.vault.lamports,
            now,
        );
        tallies_carry_over(s, t);
    }
}

} // verus!
