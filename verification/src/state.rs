//! The persistent records and their mathematical views.

use crate::pubkey::Pubkey;
use vstd::prelude::*;

verus! {

/// Length of the voting window that opens when a claim is submitted: 48 hours, in seconds.
pub const VOTING_PERIOD: i64 = 172_800;

/// A claim may ask for at most this many times the premiums its policy has paid.
pub const CLAIM_MULTIPLIER: u64 = 10;

/// Smallest stake that makes a validator eligible, in base units.
pub const MIN_STAKE: u64 = 1_000_000_000;

/// Time a validator must stay registered before the stake can be taken back: 24 hours, in seconds.
pub const UNSTAKE_COOLDOWN: i64 = 86_400;

/// Largest premium rate a pool may charge, in basis points.
pub const MAX_PREMIUM_RATE_BPS: u16 = 1000;

/// Longest pool or claim identifier, in characters.
pub const MAX_ID_LEN: usize = 32;

/// Longest claim description, in characters.
pub const MAX_DESCRIPTION_LEN: usize = 256;

/// Reputation every validator starts with.
pub const INITIAL_REPUTATION: u16 = 100;

/// Reputation earned by the validator whose vote resolves a claim.
pub const REPUTATION_REWARD: u16 = 5;

/// The kind of gig work a pool insures.
#[derive(Clone, Copy, Debug, PartialEq, Eq, Structural, Hash)]
pub enum GigCategory {
    RideShare,
    Delivery,
    Freelance,
    Construction,
    Healthcare,
    Other,
}

/// Where a claim stands. `Pending` moves to `Approved` or `Rejected`,
/// `Approved` moves to `Paid`; nothing ever moves back.
#[derive(Clone, Copy, Debug, PartialEq, Eq, Structural, Hash)]
pub enum ClaimStatus {
    Pending,
    Approved,
    Rejected,
    Paid,
}

/// A category-scoped insurance fund.
#[derive(Clone, Debug, PartialEq, Eq)]
pub struct InsurancePool {
    pub admin: Pubkey,
    pub pool_id: String,
    pub category: GigCategory,
    pub premium_rate_bps: u16,
    pub max_payout: u64,
    pub total_deposits: u64,
    pub total_claims_paid: u64,
    pub active_policies: u32,
    pub is_active: bool,
    pub created_at: i64,
    pub bump: u8,
}

/// Mathematical view of an [`InsurancePool`].
pub struct PoolView {
    pub admin: Seq<u8>,
    pub pool_id: Seq<char>,
    pub category: GigCategory,
    pub premium_rate_bps: nat,
    pub max_payout: nat,
    pub total_deposits: nat,
    pub total_claims_paid: nat,
    pub active_policies: nat,
    pub is_active: bool,
    pub created_at: int,
    pub bump: nat,
}

impl View for InsurancePool {
    type V = PoolView;

    open spec fn view(&self) -> PoolView {
        PoolView {
            admin: self.admin@,
            pool_id: self.pool_id@,
            category: self.category,
            premium_rate_bps: self.premium_rate_bps as nat,
            max_payout: self.max_payout as nat,
            total_deposits: self.total_deposits as nat,
            total_claims_paid: self.total_claims_paid as nat,
            active_policies: self.active_policies as nat,
            is_active: self.is_active,
            created_at: self.created_at as int,
            bump: self.bump as nat,
        }
    }
}

impl PoolView {
    /// The economic parameters a pool is created with and keeps for life.
    pub open spec fn valid(self) -> bool {
        &&& 0 < self.premium_rate_bps <= MAX_PREMIUM_RATE_BPS
        &&& self.max_payout > 0
        &&& self.pool_id.len() <= MAX_ID_LEN
    }
}

impl InsurancePool {
    /// Bytes to reserve for a stored pool.
    pub const MAX_SIZE: usize = 32 + (4 + 32) + 1 + 2 + 8 + 8 + 8 + 4 + 1 + 8 + 1;
}

/// A worker's premium record within one pool. It exists from the worker's
/// first deposit on, and `premiums_paid` never goes down.
#[derive(Clone, Copy, Debug, PartialEq, Eq)]
pub struct Policy {
    pub pool: Pubkey,
    pub worker: Pubkey,
    pub premiums_paid: u64,
    pub gigs_covered: u32,
    pub is_active: bool,
    pub created_at: i64,
    pub bump: u8,
}

/// Mathematical view of a [`Policy`].
pub struct PolicyView {
    pub pool: Seq<u8>,
    pub worker: Seq<u8>,
    pub premiums_paid: nat,
    pub gigs_covered: nat,
    pub is_active: bool,
    pub created_at: int,
    pub bump: nat,
}

impl View for Policy {
    type V = PolicyView;

    open spec fn view(&self) -> PolicyView {
        PolicyView {
            pool: self.pool@,
            worker: self.worker@,
            premiums_paid: self.premiums_paid as nat,
            gigs_covered: self.gigs_covered as nat,
            is_active: self.is_active,
            created_at: self.created_at as int,
            bump: self.bump as nat,
        }
    }
}

impl Policy {
    /// Bytes to reserve for a stored policy.
    pub const MAX_SIZE: usize = 32 + 32 + 8 + 4 + 1 + 8 + 1;
}

/// A worker's request for a payout, with the tally of the votes cast on it.
#[derive(Clone, Debug, PartialEq, Eq)]
pub struct Claim {
    pub pool: Pubkey,
    pub policy: Pubkey,
    pub worker: Pubkey,
    pub claim_id: String,
    pub amount: u64,
    pub evidence_hash: [u8; 32],
    pub description: String,
    pub votes_for: u16,
    pub votes_against: u16,
    pub status: ClaimStatus,
    pub created_at: i64,
    pub voting_deadline: i64,
    pub bump: u8,
}

/// Mathematical view of a [`Claim`].
pub struct ClaimView {
    pub pool: Seq<u8>,
    pub policy: Seq<u8>,
    pub worker: Seq<u8>,
    pub claim_id: Seq<char>,
    pub amount: nat,
    pub evidence_hash: Seq<u8>,
    pub description: Seq<char>,
    pub votes_for: nat,
    pub votes_against: nat,
    pub status: ClaimStatus,
    pub created_at: int,
    pub voting_deadline: int,
    pub bump: nat,
}

impl View for Claim {
    type V = ClaimView;

    open spec fn view(&self) -> ClaimView {
        ClaimView {
            pool: self.pool@,
            policy: self.policy@,
            worker: self.worker@,
            claim_id: self.claim_id@,
            amount: self.amount as nat,
            evidence_hash: self.evidence_hash@,
            description: self.description@,
            votes_for: self.votes_for as nat,
            votes_against: self.votes_against as nat,
            status: self.status,
            created_at: self.created_at as int,
            voting_deadline: self.voting_deadline as int,
            bump: self.bump as nat,
        }
    }
}

impl Claim {
    /// Bytes to reserve for a stored claim.
    pub const MAX_SIZE: usize = 32 + 32 + 32 + (4 + 32) + 8 + 32 + (4 + 256) + 2 + 2 + 1 + 8 + 8 + 1;
}

/// A staked identity entitled to vote on claims.
#[derive(Clone, Copy, Debug, PartialEq, Eq)]
pub struct ValidatorNode {
    pub authority: Pubkey,
    pub stake: u64,
    pub claims_voted: u32,
    pub reputation_score: u16,
    pub is_active: bool,
    pub registered_at: i64,
    pub bump: u8,
}

/// Mathematical view of a [`ValidatorNode`].
pub struct ValidatorView {
    pub authority: Seq<u8>,
    pub stake: nat,
    pub claims_voted: nat,
    pub reputation_score: nat,
    pub is_active: bool,
    pub registered_at: int,
    pub bump: nat,
}

impl View for ValidatorNode {
    type V = ValidatorView;

    open spec fn view(&self) -> ValidatorView {
        ValidatorView {
            authority: self.authority@,
            stake: self.stake as nat,
            claims_voted: self.claims_voted as nat,
            reputation_score: self.reputation_score as nat,
            is_active: self.is_active,
            registered_at: self.registered_at as int,
            bump: self.bump as nat,
        }
    }
}

impl ValidatorView {
    /// An active validator holds at least the minimum stake, an inactive one
    /// holds none, and reputation never falls below where it started.
    pub open spec fn valid(self) -> bool {
        &&& self.is_active ==> self.stake >= MIN_STAKE
        &&& !self.is_active ==> self.stake == 0
        &&& INITIAL_REPUTATION <= self.reputation_score <= u16::MAX
    }
}

impl ValidatorNode {
    /// Bytes to reserve for a stored validator.
    pub const MAX_SIZE: usize = 32 + 8 + 4 + 2 + 1 + 8 + 1;
}

/// One validator's verdict on one claim. Written once, never changed.
#[derive(Clone, Copy, Debug, PartialEq, Eq)]
pub struct Vote {
    pub claim: Pubkey,
    pub validator: Pubkey,
    pub approve: bool,
    pub voted_at: i64,
    pub bump: u8,
}

/// Mathematical view of a [`Vote`].
pub struct VoteView {
    pub claim: Seq<u8>,
    pub validator: Seq<u8>,
    pub approve: bool,
    pub voted_at: int,
    pub bump: nat,
}

impl View for Vote {
    type V = VoteView;

    open spec fn view(&self) -> VoteView {
        VoteView {
            claim: self.claim@,
            validator: self.validator@,
            approve: self.approve,
            voted_at: self.voted_at as int,
            bump: self.bump as nat,
        }
    }
}

impl Vote {
    /// Bytes to reserve for a stored vote.
    pub const MAX_SIZE: usize = 32 + 32 + 1 + 8 + 1;
}

} // verus!
