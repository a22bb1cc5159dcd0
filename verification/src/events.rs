//! What an accepted operation reports to the outside world.

use crate::pubkey::Pubkey;
use vstd::prelude::*;

verus! {

/// A worker paid a premium into a pool.
#[derive(Clone, Copy, Debug, PartialEq, Eq)]
pub struct PremiumDeposited {
    pub pool: Pubkey,
    pub worker: Pubkey,
    pub amount: u64,
    pub total_premiums: u64,
}

/// A worker filed a claim against a pool.
#[derive(Clone, Copy, Debug, PartialEq, Eq)]
pub struct ClaimSubmitted {
    pub pool: Pubkey,
    pub worker: Pubkey,
    pub amount: u64,
    pub claim: Pubkey,
}

/// A validator voted on a claim; the tallies are those after the vote.
#[derive(Clone, Copy, Debug, PartialEq, Eq)]
pub struct VoteCasted {
    pub claim: Pubkey,
    pub validator: Pubkey,
    pub approve: bool,
    pub votes_for: u16,
    pub votes_against: u16,
}

/// An approved claim was paid out.
#[derive(Clone, Copy, Debug, PartialEq, Eq)]
pub struct PayoutWithdrawn {
    pub pool: Pubkey,
    pub worker: Pubkey,
    pub amount: u64,
}

/// A movement of funds that the custody service has to carry out for an
/// accepted operation to take effect.
#[derive(Clone, Copy, Debug, PartialEq, Eq)]
pub struct Transfer {
    pub from: Pubkey,
    pub to: Pubkey,
    pub lamports: u64,
}

} // verus!
