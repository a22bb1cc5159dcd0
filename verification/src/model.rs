//! The whole system as mathematics: every record that exists, who holds
//! what, and what each operation makes of them.
//!
//! Records live at addresses. A pool is also known by its admin and id, and
//! a claim by its pool and id; a policy is the one of a worker in a pool, a
//! validator the one of an identity, a vote the one of a validator on a
//! claim. Creating what already exists is refused, so each of these names
//! stands for at most one record, for good.

use crate::accounts::WalletView;
use crate::error::GigError;
use crate::rules::{
    claim_after_payout, claim_after_resolution, claim_after_vote, create_pool_refusal,
    deposit_fits, deposit_refusal, new_claim, new_pool, new_validator, new_vote,
    policy_after_deposit, policy_before_deposit, pool_after_deposit, pool_after_payout,
    register_refusal, resolve_refusal, submit_fits, submit_refusal, unstake_fits,
    unstake_refusal, validator_after_unstake, validator_after_vote, vote_fits, vote_refusal,
    withdraw_fits, withdraw_refusal,
};
use crate::state::{ClaimView, GigCategory, PolicyView, PoolView, ValidatorView, VoteView};
use vstd::prelude::*;

verus! {

/// Why the ledger did not carry out an operation. Nothing changes when it
/// does not.
#[derive(Clone, Copy, Debug, PartialEq, Eq, Structural, Hash)]
pub enum LedgerError {
    /// The operation's own rules refuse it.
    Refused(GigError),
    /// A record that the operation creates exists already.
    AccountInUse,
    /// A record that the operation works on does not exist.
    AccountNotFound,
    /// The payer holds less than has to be moved.
    InsufficientFunds,
    /// A balance or a counter has no room for the operation.
    Overflow,
}

/// A pool and the funds in its custody.
pub struct PoolAccount {
    pub pool: PoolView,
    pub vault: WalletView,
}

/// A policy and the address it lives at.
pub struct PolicyAccount {
    pub key: Seq<u8>,
    pub policy: PolicyView,
}

/// A validator and the stake in its custody.
pub struct ValidatorAccount {
    pub validator: ValidatorView,
    pub vault: WalletView,
}

/// The state of the whole system.
pub struct LedgerView {
    /// Pools, by address.
    pub pools: Map<Seq<u8>, PoolAccount>,
    /// The address of the pool that an admin opened under an id.
    pub pool_ids: Map<(Seq<u8>, Seq<char>), Seq<u8>>,
    /// Policies, by pool address and worker.
    pub policies: Map<(Seq<u8>, Seq<u8>), PolicyAccount>,
    /// Claims, by address.
    pub claims: Map<Seq<u8>, ClaimView>,
    /// The address of the claim filed against a pool under an id.
    pub claim_ids: Map<(Seq<u8>, Seq<char>), Seq<u8>>,
    /// Validators, by identity.
    pub validators: Map<Seq<u8>, ValidatorAccount>,
    /// Votes, by claim address and validator.
    pub votes: Map<(Seq<u8>, Seq<u8>), VoteView>,
    /// What each identity holds outside pools and stakes.
    pub wallets: Map<Seq<u8>, u64>,
}

impl LedgerView {
    /// The state before anything happened.
    pub open spec fn empty() -> LedgerView {
        LedgerView {
            pools: Map::empty(),
            pool_ids: Map::empty(),
            policies: Map::empty(),
            claims: Map::empty(),
            claim_ids: Map::empty(),
            validators: Map::empty(),
            votes: Map::empty(),
            wallets: Map::empty(),
        }
    }

    /// What `owner` holds; nothing, if the ledger has never heard of them.
    pub open spec fn balance(self, owner: Seq<u8>) -> nat {
        if self.wallets.contains_key(owner) {
            self.wallets[owner] as nat
        } else {
            0
        }
    }

    /// The policy of `worker` in `pool`, if one was opened.
    pub open spec fn policy_of(self, pool: Seq<u8>, worker: Seq<u8>) -> Option<PolicyView> {
        if self.policies.contains_key((pool, worker)) {
            Some(self.policies[(pool, worker)].policy)
        } else {
            None
        }
    }

    /// The validators that voted on `claim` the given way.
    pub open spec fn voters(self, claim: Seq<u8>, approve: bool) -> Set<Seq<u8>> {
        Set::new(
            |validator: Seq<u8>|
                self.votes.contains_key((claim, validator)) && self.votes[(
                    claim,
                    validator,
                )].approve == approve,
        )
    }

    /// The validators that voted on `claim`.
    pub open spec fn electorate(self, claim: Seq<u8>) -> Set<Seq<u8>> {
        Set::new(|validator: Seq<u8>| self.votes.contains_key((claim, validator)))
    }

    /// Credits `lamports` to `owner` from outside the system.
    pub open spec fn fund(self, owner: Seq<u8>, lamports: nat) -> Result<LedgerView, LedgerError> {
        if self.balance(owner) + lamports > u64::MAX {
            Err(LedgerError::Overflow)
        } else {
            Ok(
                LedgerView {
                    wallets: self.wallets.insert(owner, (self.balance(owner) + lamports) as u64),
                    ..self
                },
            )
        }
    }

    /// Opens a pool at `address`, with an empty custody account at `vault`.
    pub open spec fn create_pool(
        self,
        address: Seq<u8>,
        bump: nat,
        vault: Seq<u8>,
        admin: Seq<u8>,
        pool_id: Seq<char>,
        category: GigCategory,
        premium_rate_bps: nat,
        max_payout: nat,
        now: int,
    ) -> Result<LedgerView, LedgerError> {
        if self.pools.contains_key(address) || self.pool_ids.contains_key((admin, pool_id)) {
            Err(LedgerError::AccountInUse)
        } else if let Some(e) = create_pool_refusal(pool_id, premium_rate_bps, max_payout) {
            Err(LedgerError::Refused(e))
        } else {
            Ok(
                LedgerView {
                    pools: self.pools.insert(
                        address,
                        PoolAccount {
                            pool: new_pool(
                                admin,
                                bump,
                                pool_id,
                                category,
                                premium_rate_bps,
                                max_payout,
                                now,
                            ),
                            vault: WalletView { key: vault, lamports: 0 },
                        },
                    ),
                    pool_ids: self.pool_ids.insert((admin, pool_id), address),
                    ..self
                },
            )
        }
    }

    /// Pays a premium of `amount` from `worker` into `pool`, opening the
    /// worker's policy at `policy` if this is the first.
    pub open spec fn deposit_premium(
        self,
        pool: Seq<u8>,
        policy: Seq<u8>,
        policy_bump: nat,
        worker: Seq<u8>,
        amount: nat,
        now: int,
    ) -> Result<LedgerView, LedgerError> {
        if !self.pools.contains_key(pool) {
            Err(LedgerError::AccountNotFound)
        } else {
            let account = self.pools[pool];
            let prior = self.policy_of(pool, worker);
            if let Some(e) = deposit_refusal(account.pool, amount) {
                Err(LedgerError::Refused(e))
            } else if self.balance(worker) < amount {
                Err(LedgerError::InsufficientFunds)
            } else if !deposit_fits(account.pool, prior, amount) || account.vault.lamports + amount
                > u64::MAX {
                Err(LedgerError::Overflow)
            } else {
                Ok(
                    LedgerView {
                        pools: self.pools.insert(
                            pool,
                            PoolAccount {
                                pool: pool_after_deposit(account.pool, prior is None, amount),
                                vault: WalletView {
                                    lamports: account.vault.lamports + amount,
                                    ..account.vault
                                },
                            },
                        ),
                        policies: self.policies.insert(
                            (pool, worker),
                            PolicyAccount {
                                key: if prior is None {
                                    policy
                                } else {
                                    self.policies[(pool, worker)].key
                                },
                                policy: policy_after_deposit(
                                    policy_before_deposit(prior, pool, worker, policy_bump, now),
                                    amount,
                                ),
                            },
                        ),
                        wallets: self.wallets.insert(
                            worker,
                            (self.balance(worker) - amount) as u64,
                        ),
                        ..self
                    },
                )
            }
        }
    }

    /// Files a claim of `worker` against `pool`, to live at `claim`.
    pub open spec fn submit_claim(
        self,
        pool: Seq<u8>,
        claim: Seq<u8>,
        claim_bump: nat,
        worker: Seq<u8>,
        claim_id: Seq<char>,
        amount: nat,
        evidence_hash: Seq<u8>,
        description: Seq<char>,
        now: int,
    ) -> Result<LedgerView, LedgerError> {
        if !self.pools.contains_key(pool) || !self.policies.contains_key((pool, worker)) {
            Err(LedgerError::AccountNotFound)
        } else if self.claims.contains_key(claim) || self.claim_ids.contains_key((pool, claim_id)) {
            Err(LedgerError::AccountInUse)
        } else if let Some(e) = submit_refusal(
            self.pools[pool].pool,
            self.policies[(pool, worker)].policy,
            amount,
            description,
        ) {
            Err(LedgerError::Refused(e))
        } else if !submit_fits(now) {
            Err(LedgerError::Overflow)
        } else {
            Ok(
                LedgerView {
                    claims: self.claims.insert(
                        claim,
                        new_claim(
                            pool,
                            self.policies[(pool, worker)].key,
                            worker,
                            claim_bump,
                            claim_id,
                            amount,
                            evidence_hash,
                            description,
                            now,
                        ),
                    ),
                    claim_ids: self.claim_ids.insert((pool, claim_id), claim),
                    ..self
                },
            )
        }
    }

    /// Casts the vote of `voter` on `claim`.
    pub open spec fn vote_claim(
        self,
        claim: Seq<u8>,
        voter: Seq<u8>,
        vote_bump: nat,
        approve: bool,
        now: int,
    ) -> Result<LedgerView, LedgerError> {
        if !self.claims.contains_key(claim) || !self.validators.contains_key(voter) {
            Err(LedgerError::AccountNotFound)
        } else if self.votes.contains_key((claim, voter)) {
            Err(LedgerError::AccountInUse)
        } else {
            let record = self.claims[claim];
            let account = self.validators[voter];
            if let Some(e) = vote_refusal(record, account.validator, now) {
                Err(LedgerError::Refused(e))
            } else if !vote_fits(record, account.validator, approve) {
                Err(LedgerError::Overflow)
            } else {
                Ok(
                    LedgerView {
                        claims: self.claims.insert(claim, claim_after_vote(record, approve)),
                        validators: self.validators.insert(
                            voter,
                            ValidatorAccount {
                                validator: validator_after_vote(account.validator, record, approve),
                                ..account
                            },
                        ),
                        votes: self.votes.insert(
                            (claim, voter),
                            new_vote(claim, voter, vote_bump, approve, now),
                        ),
                        ..self
                    },
                )
            }
        }
    }

    /// Resolves `claim` after its voting window has closed.
    pub open spec fn resolve_expired_claim(self, claim: Seq<u8>, now: int) -> Result<
        LedgerView,
        LedgerError,
    > {
        if !self.claims.contains_key(claim) {
            Err(LedgerError::AccountNotFound)
        } else if let Some(e) = resolve_refusal(self.claims[claim], now) {
            Err(LedgerError::Refused(e))
        } else {
            Ok(
                LedgerView {
                    claims: self.claims.insert(claim, claim_after_resolution(self.claims[claim])),
                    ..self
                },
            )
        }
    }

    /// Pays `claim` out to `worker`.
    pub open spec fn withdraw_payout(self, claim: Seq<u8>, worker: Seq<u8>) -> Result<
        LedgerView,
        LedgerError,
    > {
        if !self.claims.contains_key(claim) || !self.pools.contains_key(self.claims[claim].pool) {
            Err(LedgerError::AccountNotFound)
        } else {
            let record = self.claims[claim];
            let account = self.pools[record.pool];
            if let Some(e) = withdraw_refusal(record, worker, account.vault.lamports) {
                Err(LedgerError::Refused(e))
            } else if !withdraw_fits(account.pool, record, self.balance(worker)) {
                Err(LedgerError::Overflow)
            } else {
                Ok(
                    LedgerView {
                        claims: self.claims.insert(claim, claim_after_payout(record)),
                        pools: self.pools.insert(
                            record.pool,
                            PoolAccount {
                                pool: pool_after_payout(account.pool, record.amount),
                                vault: WalletView {
                                    lamports: (account.vault.lamports - record.amount) as nat,
                                    ..account.vault
                                },
                            },
                        ),
                        wallets: self.wallets.insert(
                            worker,
                            (self.balance(worker) + record.amount) as u64,
                        ),
                        ..self
                    },
                )
            }
        }
    }

    /// Registers `voter` as a validator, with the stake held at `vault`.
    pub open spec fn register_validator(
        self,
        voter: Seq<u8>,
        bump: nat,
        vault: Seq<u8>,
        stake_amount: nat,
        now: int,
    ) -> Result<LedgerView, LedgerError> {
        if self.validators.contains_key(voter) {
            Err(LedgerError::AccountInUse)
        } else if let Some(e) = register_refusal(stake_amount) {
            Err(LedgerError::Refused(e))
        } else if self.balance(voter) < stake_amount {
            Err(LedgerError::InsufficientFunds)
        } else {
            Ok(
                LedgerView {
                    validators: self.validators.insert(
                        voter,
                        ValidatorAccount {
                            validator: new_validator(voter, bump, stake_amount, now),
                            vault: WalletView { key: vault, lamports: stake_amount },
                        },
                    ),
                    wallets: self.wallets.insert(
                        voter,
                        (self.balance(voter) - stake_amount) as u64,
                    ),
                    ..self
                },
            )
        }
    }

    /// Hands `voter` the stake back and retires the validator.
    pub open spec fn unstake_validator(self, voter: Seq<u8>, now: int) -> Result<
        LedgerView,
        LedgerError,
    > {
        if !self.validators.contains_key(voter) {
            Err(LedgerError::AccountNotFound)
        } else {
            let account = self.validators[voter];
            if let Some(e) = unstake_refusal(
                account.validator,
                voter,
                account.vault.lamports,
                now,
            ) {
                Err(LedgerError::Refused(e))
            } else if !unstake_fits(account.validator, self.balance(voter)) {
                Err(LedgerError::Overflow)
            } else {
                Ok(
                    LedgerView {
                        validators: self.validators.insert(
                            voter,
                            ValidatorAccount {
                                validator: validator_after_unstake(account.validator),
                                vault: WalletView {
                                    lamports: (account.vault.lamports
                                        - account.validator.stake) as nat,
                                    ..account.vault
                                },
                            },
                        ),
                        wallets: self.wallets.insert(
                            voter,
                            (self.balance(voter) + account.validator.stake) as u64,
                        ),
                        ..self
                    },
                )
            }
        }
    }
}

} // verus!
