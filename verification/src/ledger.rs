//! The ledger: an in-memory store of every record and balance, on which
//! each operation runs as one step that either takes effect whole or not at
//! all.

use crate::accounts::{
    CreatePool, DepositPremium, RegisterValidator, ResolveExpiredClaim, SubmitClaim,
    UnstakeValidator, VoteClaim, Wallet, WithdrawPayout,
};
use crate::events::{ClaimSubmitted, PayoutWithdrawn, PremiumDeposited, VoteCasted};
use crate::instructions::{
    create_pool, deposit_premium, register_validator, resolve_expired_claim, room_for_deposit,
    room_for_payout, room_for_submission, room_for_unstake, room_for_vote, submit_claim,
    unstake_validator, validate_deposit, validate_payout, validate_stake, validate_submission,
    validate_unstake, validate_vote, vote_claim, withdraw_payout,
};
use crate::invariants::{
    create_pool_keeps_inv, deposit_keeps_inv, empty_is_sound, fund_keeps_inv,
    register_keeps_inv, resolve_keeps_inv, submit_keeps_inv, unstake_keeps_inv, vote_keeps_inv,
    withdraw_keeps_inv,
};
use crate::keys::{KeyPair, ScopedName};
use crate::model::{LedgerError, LedgerView, PolicyAccount, PoolAccount, ValidatorAccount};
use crate::pubkey::Pubkey;
use crate::state::{Claim, GigCategory, InsurancePool, Policy, ValidatorNode, Vote};
use crate::table::Table;
use vstd::prelude::*;

verus! {

/// A pool as the ledger keeps it: the record and the funds in its custody.
pub struct PoolEntry {
    pub pool: InsurancePool,
    pub vault: Wallet,
}

impl View for PoolEntry {
    type V = PoolAccount;

    open spec fn view(&self) -> PoolAccount {
        PoolAccount { pool: self.pool@, vault: self.vault@ }
    }
}

/// A policy as the ledger keeps it: the record and its address.
#[derive(Clone, Copy)]
pub struct PolicyEntry {
    pub key: Pubkey,
    pub policy: Policy,
}

impl View for PolicyEntry {
    type V = PolicyAccount;

    open spec fn view(&self) -> PolicyAccount {
        PolicyAccount { key: self.key@, policy: self.policy@ }
    }
}

/// A validator as the ledger keeps it: the record and the stake in its
/// custody.
#[derive(Clone, Copy)]
pub struct ValidatorEntry {
    pub validator: ValidatorNode,
    pub vault: Wallet,
}

impl View for ValidatorEntry {
    type V = ValidatorAccount;

    open spec fn view(&self) -> ValidatorAccount {
        ValidatorAccount { validator: self.validator@, vault: self.vault@ }
    }
}

/// A copy of a pool record.
fn copy_pool(pool: &InsurancePool) -> (copy: InsurancePool)
    ensures
        copy@ == pool@,
{
    InsurancePool {
        admin: pool.admin,
        pool_id: pool.pool_id.clone(),
        category: pool.category,
        premium_rate_bps: pool.premium_rate_bps,
        max_payout: pool.max_payout,
        total_deposits: pool.total_deposits,
        total_claims_paid: pool.total_claims_paid,
        active_policies: pool.active_policies,
        is_active: pool.is_active,
        created_at: pool.created_at,
        bump: pool.bump,
    }
}

/// A copy of a claim record.
fn copy_claim(claim: &Claim) -> (copy: Claim)
    ensures
        copy@ == claim@,
{
    Claim {
        pool: claim.pool,
        policy: claim.policy,
        worker: claim.worker,
        claim_id: claim.claim_id.clone(),
        amount: claim.amount,
        evidence_hash: claim.evidence_hash,
        description: claim.description.clone(),
        votes_for: claim.votes_for,
        votes_against: claim.votes_against,
        status: claim.status,
        created_at: claim.created_at,
        voting_deadline: claim.voting_deadline,
        bump: claim.bump,
    }
}

/// Every record of the system and every balance.
pub struct Ledger {
    pools: Table<Pubkey, PoolEntry>,
    pool_ids: Table<ScopedName, Pubkey>,
    policies: Table<KeyPair, PolicyEntry>,
    claims: Table<Pubkey, Claim>,
    claim_ids: Table<ScopedName, Pubkey>,
    validators: Table<Pubkey, ValidatorEntry>,
    votes: Table<KeyPair, Vote>,
    wallets: Table<Pubkey, u64>,
}

impl View for Ledger {
    type V = LedgerView;

    closed spec fn view(&self) -> LedgerView {
        LedgerView {
            pools: self.pools@,
            pool_ids: self.pool_ids@,
            policies: self.policies@,
            claims: self.claims@,
            claim_ids: self.claim_ids@,
            validators: self.validators@,
            votes: self.votes@,
            wallets: self.wallets@,
        }
    }
}

impl Ledger {
    /// The store is in order and the state it holds is sound.
    pub closed spec fn wf(&self) -> bool {
        &&& self.pools.wf()
        &&& self.pool_ids.wf()
        &&& self.policies.wf()
        &&& self.claims.wf()
        &&& self.claim_ids.wf()
        &&& self.validators.wf()
        &&& self.votes.wf()
        &&& self.wallets.wf()
        &&& self@.inv()
    }

    /// A well-formed ledger is in a sound state.
    pub proof fn wf_is_sound(&self)
        requires
            self.wf(),
        ensures
            self@.inv(),
    {
    }

    /// A ledger without records or balances.
    pub fn new() -> (ledger: Ledger)
        ensures
            ledger.wf(),
            ledger@ == LedgerView::empty(),
    {
        proof {
            empty_is_sound();
        }
        Ledger {
            pools: Table::new(),
            pool_ids: Table::new(),
            policies: Table::new(),
            claims: Table::new(),
            claim_ids: Table::new(),
            validators: Table::new(),
            votes: Table::new(),
            wallets: Table::new(),
        }
    }

    /// What `owner` holds outside pools and stakes.
    pub fn balance(&self, owner: &Pubkey) -> (lamports: u64)
        requires
            self.wf(),
        ensures
            lamports == self@.balance(owner@),
    {
        match self.wallets.get(owner) {
            Some(lamports) => *lamports,
            None => 0,
        }
    }

    /// The pool at `address`, if there is one.
    pub fn pool(&self, address: &Pubkey) -> (found: Option<InsurancePool>)
        requires
            self.wf(),
        ensures
            match found {
                Some(pool) => self@.pools.contains_key(address@) && pool@
                    == self@.pools[address@].pool,
                None => !self@.pools.contains_key(address@),
            },
    {
        match self.pools.get(address) {
            Some(entry) => Some(copy_pool(&entry.pool)),
            None => None,
        }
    }

    /// What the pool at `address` holds in custody, if there is such a pool.
    pub fn pool_vault(&self, address: &Pubkey) -> (found: Option<Wallet>)
        requires
            self.wf(),
        ensures
            match found {
                Some(vault) => self@.pools.contains_key(address@) && vault@
                    == self@.pools[address@].vault,
                None => !self@.pools.contains_key(address@),
            },
    {
        match self.pools.get(address) {
            Some(entry) => Some(entry.vault),
            None => None,
        }
    }

    /// The policy of `worker` in `pool`, if one was opened.
    pub fn policy(&self, pool: &Pubkey, worker: &Pubkey) -> (found: Option<Policy>)
        requires
            self.wf(),
        ensures
            match found {
                Some(policy) => self@.policy_of(pool@, worker@) == Some(policy@),
                None => self@.policy_of(pool@, worker@) is None,
            },
    {
        match self.policies.get(&KeyPair { first: *pool, second: *worker }) {
            Some(entry) => Some(entry.policy),
            None => None,
        }
    }

    /// The claim at `address`, if there is one.
    pub fn claim(&self, address: &Pubkey) -> (found: Option<Claim>)
        requires
            self.wf(),
        ensures
            match found {
                Some(claim) => self@.claims.contains_key(address@) && claim@
                    == self@.claims[address@],
                None => !self@.claims.contains_key(address@),
            },
    {
        match self.claims.get(address) {
            Some(claim) => Some(copy_claim(claim)),
            None => None,
        }
    }

    /// The validator record of `voter`, if they registered.
    pub fn validator(&self, voter: &Pubkey) -> (found: Option<ValidatorNode>)
        requires
            self.wf(),
        ensures
            match found {
                Some(validator) => self@.validators.contains_key(voter@) && validator@
                    == self@.validators[voter@].validator,
                None => !self@.validators.contains_key(voter@),
            },
    {
        match self.validators.get(voter) {
            Some(entry) => Some(entry.validator),
            None => None,
        }
    }

    /// The vote of `voter` on `claim`, if they cast one.
    pub fn vote(&self, claim: &Pubkey, voter: &Pubkey) -> (found: Option<Vote>)
        requires
            self.wf(),
        ensures
            match found {
                Some(vote) => self@.votes.contains_key((claim@, voter@)) && vote@
                    == self@.votes[(claim@, voter@)],
                None => !self@.votes.contains_key((claim@, voter@)),
            },
    {
        match self.votes.get(&KeyPair { first: *claim, second: *voter }) {
            Some(vote) => Some(*vote),
            None => None,
        }
    }

    /// Credits `lamports` to `owner` from outside the system.
    pub fn fund(&mut self, owner: Pubkey, lamports: u64) -> (result: Result<(), LedgerError>)
        requires
            old(self).wf(),
        ensures
            final(self).wf(),
            match result {
                Ok(()) => old(self)@.fund(owner@, lamports as nat) == Ok::<
                    LedgerView,
                    LedgerError,
                >(final(self)@),
                Err(e) => old(self)@.fund(owner@, lamports as nat) == Err::<
                    LedgerView,
                    LedgerError,
                >(e) && final(self)@ == old(self)@,
            },
    {
        let held = self.balance(&owner);
        if lamports > u64::MAX - held {
            return Err(LedgerError::Overflow);
        }
        proof {
            fund_keeps_inv(self@, owner@, lamports as nat);
        }
        self.wallets.insert(owner, held + lamports);
        Ok(())
    }

    /// Opens a pool at `address`, administered by `admin`, with an empty
    /// custody account at `vault`.
    ///
    /// Refused as in use if a pool lives at `address` or `admin` has a pool
    /// of that id already.
    pub fn create_pool(
        &mut self,
        address: Pubkey,
        bump: u8,
        vault: Pubkey,
        admin: Pubkey,
        pool_id: String,
        category: GigCategory,
        premium_rate_bps: u16,
        max_payout: u64,
        now: i64,
    ) -> (result: Result<(), LedgerError>)
        requires
            old(self).wf(),
        ensures
            final(self).wf(),
            match result {
                Ok(()) => old(self)@.create_pool(
                    address@,
                    bump as nat,
                    vault@,
                    admin@,
                    pool_id@,
                    category,
                    premium_rate_bps as nat,
                    max_payout as nat,
                    now as int,
                ) == Ok::<LedgerView, LedgerError>(final(self)@),
                Err(e) => old(self)@.create_pool(
                    address@,
                    bump as nat,
                    vault@,
                    admin@,
                    pool_id@,
                    category,
                    premium_rate_bps as nat,
                    max_payout as nat,
                    now as int,
                ) == Err::<LedgerView, LedgerError>(e) && final(self)@ == old(self)@,
            },
    {
        let name = ScopedName { scope: admin, name: pool_id.clone() };
        if self.pools.contains_key(&address) || self.pool_ids.contains_key(&name) {
            return Err(LedgerError::AccountInUse);
        }
        let ctx = CreatePool { admin, bump };
        match create_pool(&ctx, pool_id, category, premium_rate_bps, max_payout, now) {
            Ok(pool) => {
                proof {
                    create_pool_keeps_inv(
                        self@,
                        address@,
                        bump as nat,
                        vault@,
                        admin@,
                        pool_id@,
                        category,
                        premium_rate_bps as nat,
                        max_payout as nat,
                        now as int,
                    );
                }
                self.pools.insert(address, PoolEntry { pool, vault: Wallet { key: vault, lamports: 0 } });
                self.pool_ids.insert(name, address);
                Ok(())
            },
            Err(e) => Err(LedgerError::Refused(e)),
        }
    }

    /// Pays a premium of `amount` from `worker`'s balance into the custody of
    /// the pool at `pool`.
    ///
    /// The worker's policy is opened at `policy` if this is the first
    /// deposit. Refused as not found if there is no such pool, by the rules
    /// of a deposit, for insufficient funds if the worker holds less than
    /// `amount`, and for overflow if a total has no room.
    pub fn deposit_premium(
        &mut self,
        pool: Pubkey,
        policy: Pubkey,
        policy_bump: u8,
        worker: Pubkey,
        amount: u64,
        now: i64,
    ) -> (result: Result<PremiumDeposited, LedgerError>)
        requires
            old(self).wf(),
        ensures
            final(self).wf(),
            match result {
                Ok(event) => {
                    &&& old(self)@.deposit_premium(
                        pool@,
                        policy@,
                        policy_bump as nat,
                        worker@,
                        amount as nat,
                        now as int,
                    ) == Ok::<LedgerView, LedgerError>(final(self)@)
                    &&& event.pool == pool
                    &&& event.worker == worker
                    &&& event.amount == amount
                    &&& event.total_premiums == final(self)@.policies[(
                        pool@,
                        worker@,
                    )].policy.premiums_paid
                },
                Err(e) => old(self)@.deposit_premium(
                    pool@,
                    policy@,
                    policy_bump as nat,
                    worker@,
                    amount as nat,
                    now as int,
                ) == Err::<LedgerView, LedgerError>(e) && final(self)@ == old(self)@,
            },
    {
        let (record, vault) = match self.pools.get(&pool) {
            Some(entry) => (copy_pool(&entry.pool), entry.vault),
            None => {
                return Err(LedgerError::AccountNotFound);
            },
        };
        let slot = KeyPair { first: pool, second: worker };
        let prior: Option<PolicyEntry> = match self.policies.get(&slot) {
            Some(entry) => Some(*entry),
            None => None,
        };
        let mut ctx = DepositPremium {
            pool: record,
            pool_key: pool,
            policy: match prior {
                Some(entry) => Some(entry.policy),
                None => None,
            },
            policy_bump,
            pool_vault: vault.key,
            worker,
        };
        if let Some(refusal) = validate_deposit(&ctx, amount) {
            return Err(LedgerError::Refused(refusal));
        }
        let held = self.balance(&worker);
        if held < amount {
            return Err(LedgerError::InsufficientFunds);
        }
        if !room_for_deposit(&ctx, amount) || amount > u64::MAX - vault.lamports {
            return Err(LedgerError::Overflow);
        }
        proof {
            deposit_keeps_inv(
                self@,
                pool@,
                policy@,
                policy_bump as nat,
                worker@,
                amount as nat,
                now as int,
            );
        }
        match deposit_premium(&mut ctx, amount, now) {
            Ok((_, event)) => {
                let updated = match ctx.policy {
                    Some(updated) => updated,
                    None => {
                        return Err(LedgerError::Overflow);
                    },
                };
                let policy_key = match prior {
                    Some(entry) => entry.key,
                    None => policy,
                };
                self.pools.insert(
                    pool,
                    PoolEntry {
                        pool: ctx.pool,
                        vault: Wallet { key: vault.key, lamports: vault.lamports + amount },
                    },
                );
                self.policies.insert(slot, PolicyEntry { key: policy_key, policy: updated });
                self.wallets.insert(worker, held - amount);
                Ok(event)
            },
            Err(e) => Err(LedgerError::Refused(e)),
        }
    }

    /// Files a claim of `worker` against the pool at `pool`, to live at
    /// `claim`.
    ///
    /// Refused as not found if the pool or the worker's policy in it does
    /// not exist, as in use if a claim lives at `claim` or the pool has a
    /// claim of that id already, by the rules of a submission, and for
    /// overflow if the voting window would end after the last time the clock
    /// can show.
    pub fn submit_claim(
        &mut self,
        pool: Pubkey,
        claim: Pubkey,
        claim_bump: u8,
        worker: Pubkey,
        claim_id: String,
        amount: u64,
        evidence_hash: [u8; 32],
        description: String,
        now: i64,
    ) -> (result: Result<ClaimSubmitted, LedgerError>)
        requires
            old(self).wf(),
        ensures
            final(self).wf(),
            match result {
                Ok(event) => {
                    &&& old(self)@.submit_claim(
                        pool@,
                        claim@,
                        claim_bump as nat,
                        worker@,
                        claim_id@,
                        amount as nat,
                        evidence_hash@,
                        description@,
                        now as int,
                    ) == Ok::<LedgerView, LedgerError>(final(self)@)
                    &&& event == (ClaimSubmitted { pool, worker, amount, claim })
                },
                Err(e) => old(self)@.submit_claim(
                    pool@,
                    claim@,
                    claim_bump as nat,
                    worker@,
                    claim_id@,
                    amount as nat,
                    evidence_hash@,
                    description@,
                    now as int,
                ) == Err::<LedgerView, LedgerError>(e) && final(self)@ == old(self)@,
            },
    {
        let record = match self.pools.get(&pool) {
            Some(entry) => copy_pool(&entry.pool),
            None => {
                return Err(LedgerError::AccountNotFound);
            },
        };
        let held = match self.policies.get(&KeyPair { first: pool, second: worker }) {
            Some(entry) => *entry,
            None => {
                return Err(LedgerError::AccountNotFound);
            },
        };
        let name = ScopedName { scope: pool, name: claim_id.clone() };
        if self.claims.contains_key(&claim) || self.claim_ids.contains_key(&name) {
            return Err(LedgerError::AccountInUse);
        }
        let ctx = SubmitClaim {
            pool: record,
            pool_key: pool,
            policy: held.policy,
            policy_key: held.key,
            claim_key: claim,
            claim_bump,
            worker,
        };
        if let Some(refusal) = validate_submission(&ctx, amount, &description) {
            return Err(LedgerError::Refused(refusal));
        }
        if !room_for_submission(now) {
            return Err(LedgerError::Overflow);
        }
        proof {
            submit_keeps_inv(
                self@,
                pool@,
                claim@,
                claim_bump as nat,
                worker@,
                claim_id@,
                amount as nat,
                evidence_hash@,
                description@,
                now as int,
            );
        }
        match submit_claim(&ctx, claim_id, amount, evidence_hash, description, now) {
            Ok((filed, event)) => {
                self.claims.insert(claim, filed);
                self.claim_ids.insert(name, claim);
                Ok(event)
            },
            Err(e) => Err(LedgerError::Refused(e)),
        }
    }

    /// Casts the vote of `voter` on the claim at `claim`.
    ///
    /// Refused as not found if the claim does not exist or `voter` never
    /// registered, as in use if `voter` has voted on this claim before, by the
    /// rules of a vote, and for overflow if a counter has no room.
    pub fn vote_claim(
        &mut self,
        claim: Pubkey,
        voter: Pubkey,
        vote_bump: u8,
        approve: bool,
        now: i64,
    ) -> (result: Result<VoteCasted, LedgerError>)
        requires
            old(self).wf(),
        ensures
            final(self).wf(),
            match result {
                Ok(event) => {
                    &&& old(self)@.vote_claim(
                        claim@,
                        voter@,
                        vote_bump as nat,
                        approve,
                        now as int,
                    ) == Ok::<LedgerView, LedgerError>(final(self)@)
                    &&& event.claim == claim
                    &&& event.validator == voter
                    &&& event.approve == approve
                    &&& event.votes_for == final(self)@.claims[claim@].votes_for
                    &&& event.votes_against == final(self)@.claims[claim@].votes_against
                },
                Err(e) => old(self)@.vote_claim(
                    claim@,
                    voter@,
                    vote_bump as nat,
                    approve,
                    now as int,
                ) == Err::<LedgerView, LedgerError>(e) && final(self)@ == old(self)@,
            },
    {
        let record = match self.claims.get(&claim) {
            Some(record) => copy_claim(record),
            None => {
                return Err(LedgerError::AccountNotFound);
            },
        };
        let account = match self.validators.get(&voter) {
            Some(entry) => *entry,
            None => {
                return Err(LedgerError::AccountNotFound);
            },
        };
        let slot = KeyPair { first: claim, second: voter };
        if self.votes.contains_key(&slot) {
            return Err(LedgerError::AccountInUse);
        }
        let mut ctx = VoteClaim {
            claim: record,
            claim_key: claim,
            validator: account.validator,
            vote_bump,
            voter,
        };
        if let Some(refusal) = validate_vote(&ctx, now) {
            return Err(LedgerError::Refused(refusal));
        }
        if !room_for_vote(&ctx, approve) {
            return Err(LedgerError::Overflow);
        }
        proof {
            vote_keeps_inv(self@, claim@, voter@, vote_bump as nat, approve, now as int);
        }
        match vote_claim(&mut ctx, approve, now) {
            Ok((vote, event)) => {
                self.claims.insert(claim, ctx.claim);
                self.validators.insert(
                    voter,
                    ValidatorEntry { validator: ctx.validator, vault: account.vault },
                );
                self.votes.insert(slot, vote);
                Ok(event)
            },
            Err(e) => Err(LedgerError::Refused(e)),
        }
    }

    /// Resolves the claim at `claim` after its voting window has closed.
    ///
    /// Refused as not found if the claim does not exist, and by the rules of
    /// a resolution.
    pub fn resolve_expired_claim(&mut self, claim: Pubkey, now: i64) -> (result: Result<
        (),
        LedgerError,
    >)
        requires
            old(self).wf(),
        ensures
            final(self).wf(),
            match result {
                Ok(()) => old(self)@.resolve_expired_claim(claim@, now as int) == Ok::<
                    LedgerView,
                    LedgerError,
                >(final(self)@),
                Err(e) => old(self)@.resolve_expired_claim(claim@, now as int) == Err::<
                    LedgerView,
                    LedgerError,
                >(e) && final(self)@ == old(self)@,
            },
    {
        let record = match self.claims.get(&claim) {
            Some(record) => copy_claim(record),
            None => {
                return Err(LedgerError::AccountNotFound);
            },
        };
        let mut ctx = ResolveExpiredClaim { claim: record };
        proof {
            resolve_keeps_inv(self@, claim@, now as int);
        }
        match resolve_expired_claim(&mut ctx, now) {
            Ok(()) => {
                self.claims.insert(claim, ctx.claim);
                Ok(())
            },
            Err(e) => Err(LedgerError::Refused(e)),
        }
    }

    /// Pays the claim at `claim` out of its pool's custody to `worker`.
    ///
    /// Refused as not found if the claim does not exist, by the rules of a
    /// payout, and for overflow if the worker's balance or the pool's total
    /// has no room.
    pub fn withdraw_payout(&mut self, claim: Pubkey, worker: Pubkey) -> (result: Result<
        PayoutWithdrawn,
        LedgerError,
    >)
        requires
            old(self).wf(),
        ensures
            final(self).wf(),
            match result {
                Ok(event) => {
                    &&& old(self)@.withdraw_payout(claim@, worker@) == Ok::<
                        LedgerView,
                        LedgerError,
                    >(final(self)@)
                    &&& event.pool@ == old(self)@.claims[claim@].pool
                    &&& event.worker == worker
                    &&& event.amount == old(self)@.claims[claim@].amount
                },
                Err(e) => old(self)@.withdraw_payout(claim@, worker@) == Err::<
                    LedgerView,
                    LedgerError,
                >(e) && final(self)@ == old(self)@,
            },
    {
        let record = match self.claims.get(&claim) {
            Some(record) => copy_claim(record),
            None => {
                return Err(LedgerError::AccountNotFound);
            },
        };
        let pool = record.pool;
        let (fund, vault) = match self.pools.get(&pool) {
            Some(entry) => (copy_pool(&entry.pool), entry.vault),
            None => {
                return Err(LedgerError::AccountNotFound);
            },
        };
        let held = self.balance(&worker);
        let mut ctx = WithdrawPayout {
            pool: fund,
            pool_key: pool,
            claim: record,
            pool_vault: vault,
            worker: Wallet { key: worker, lamports: held },
        };
        if let Some(refusal) = validate_payout(&ctx) {
            return Err(LedgerError::Refused(refusal));
        }
        if !room_for_payout(&ctx) {
            return Err(LedgerError::Overflow);
        }
        proof {
            withdraw_keeps_inv(self@, claim@, worker@);
        }
        match withdraw_payout(&mut ctx) {
            Ok(event) => {
                self.claims.insert(claim, ctx.claim);
                self.pools.insert(pool, PoolEntry { pool: ctx.pool, vault: ctx.pool_vault });
                self.wallets.insert(worker, ctx.worker.lamports);
                Ok(event)
            },
            Err(e) => Err(LedgerError::Refused(e)),
        }
    }

    /// Registers `voter` as a validator and moves `stake_amount` from their
    /// balance into custody at `vault`.
    ///
    /// Refused as in use if `voter` registered before, by the rules of a
    /// registration, and for insufficient funds if `voter` holds less than
    /// the stake.
    pub fn register_validator(
        &mut self,
        voter: Pubkey,
        bump: u8,
        vault: Pubkey,
        stake_amount: u64,
        now: i64,
    ) -> (result: Result<(), LedgerError>)
        requires
            old(self).wf(),
        ensures
            final(self).wf(),
            match result {
                Ok(()) => old(self)@.register_validator(
                    voter@,
                    bump as nat,
                    vault@,
                    stake_amount as nat,
                    now as int,
                ) == Ok::<LedgerView, LedgerError>(final(self)@),
                Err(e) => old(self)@.register_validator(
                    voter@,
                    bump as nat,
                    vault@,
                    stake_amount as nat,
                    now as int,
                ) == Err::<LedgerView, LedgerError>(e) && final(self)@ == old(self)@,
            },
    {
        if self.validators.contains_key(&voter) {
            return Err(LedgerError::AccountInUse);
        }
        if let Some(refusal) = validate_stake(stake_amount) {
            return Err(LedgerError::Refused(refusal));
        }
        let held = self.balance(&voter);
        if held < stake_amount {
            return Err(LedgerError::InsufficientFunds);
        }
        let ctx = RegisterValidator { validator_vault: vault, voter, bump };
        proof {
            register_keeps_inv(
                self@,
                voter@,
                bump as nat,
                vault@,
                stake_amount as nat,
                now as int,
            );
        }
        match register_validator(&ctx, stake_amount, now) {
            Ok((validator, transfer)) => {
                self.validators.insert(
                    voter,
                    ValidatorEntry {
                        validator,
                        vault: Wallet { key: transfer.to, lamports: transfer.lamports },
                    },
                );
                self.wallets.insert(voter, held - stake_amount);
                Ok(())
            },
            Err(e) => Err(LedgerError::Refused(e)),
        }
    }

    /// Hands `voter` the stake back out of custody and retires the
    /// validator.
    ///
    /// Refused as not found if `voter` never registered, by the rules of
    /// unstaking, and for overflow if the voter's balance has no room.
    pub fn unstake_validator(&mut self, voter: Pubkey, now: i64) -> (result: Result<
        (),
        LedgerError,
    >)
        requires
            old(self).wf(),
        ensures
            final(self).wf(),
            match result {
                Ok(()) => old(self)@.unstake_validator(voter@, now as int) == Ok::<
                    LedgerView,
                    LedgerError,
                >(final(self)@),
                Err(e) => old(self)@.unstake_validator(voter@, now as int) == Err::<
                    LedgerView,
                    LedgerError,
                >(e) && final(self)@ == old(self)@,
            },
    {
        let account = match self.validators.get(&voter) {
            Some(entry) => *entry,
            None => {
                return Err(LedgerError::AccountNotFound);
            },
        };
        let held = self.balance(&voter);
        let mut ctx = UnstakeValidator {
            validator: account.validator,
            validator_vault: account.vault,
            voter: Wallet { key: voter, lamports: held },
        };
        if let Some(refusal) = validate_unstake(&ctx, now) {
            return Err(LedgerError::Refused(refusal));
        }
        if !room_for_unstake(&ctx) {
            return Err(LedgerError::Overflow);
        }
        proof {
            unstake_keeps_inv(self@, voter@, now as int);
        }
        match unstake_validator(&mut ctx, now) {
            Ok(()) => {
                self.validators.insert(
                    voter,
                    ValidatorEntry { validator: ctx.validator, vault: ctx.validator_vault },
                );
                self.wallets.insert(voter, ctx.voter.lamports);
                Ok(())
            },
            Err(e) => Err(LedgerError::Refused(e)),
        }
    }
}

} // verus!
