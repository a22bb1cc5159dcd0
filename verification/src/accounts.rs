//! What each operation is handed: the records it reads and changes, the
//! identity that authorised it, and the custody accounts it touches.

use crate::pubkey::Pubkey;
use crate::state::{Claim, InsurancePool, Policy, ValidatorNode};
use vstd::prelude::*;

verus! {

/// A custody account: who it belongs to and what it holds.
#[derive(Clone, Copy, Debug, PartialEq, Eq)]
pub struct Wallet {
    pub key: Pubkey,
    pub lamports: u64,
}

/// Mathematical view of a [`Wallet`].
pub struct WalletView {
    pub key: Seq<u8>,
    pub lamports: nat,
}

impl View for Wallet {
    type V = WalletView;

    open spec fn view(&self) -> WalletView {
        WalletView { key: self.key@, lamports: self.lamports as nat }
    }
}

/// Accounts for opening a pool.
#[derive(Clone, Copy, Debug, PartialEq, Eq)]
pub struct CreatePool {
    /// The identity that opens the pool and will administer it.
    pub admin: Pubkey,
    /// Uniqueness bump of the pool's address.
    pub bump: u8,
}

/// Accounts for a premium deposit.
#[derive(Clone, Debug, PartialEq, Eq)]
pub struct DepositPremium {
    pub pool: InsurancePool,
    /// Address of `pool`.
    pub pool_key: Pubkey,
    /// The worker's policy in this pool; `None` until the first deposit.
    pub policy: Option<Policy>,
    /// Uniqueness bump of the policy's address.
    pub policy_bump: u8,
    /// Custody account of the pool.
    pub pool_vault: Pubkey,
    /// The depositing worker.
    pub worker: Pubkey,
}

/// Accounts for filing a claim.
#[derive(Clone, Debug, PartialEq, Eq)]
pub struct SubmitClaim {
    pub pool: InsurancePool,
    /// Address of `pool`.
    pub pool_key: Pubkey,
    pub policy: Policy,
    /// Address of `policy`.
    pub policy_key: Pubkey,
    /// Address the new claim will live at.
    pub claim_key: Pubkey,
    /// Uniqueness bump of the claim's address.
    pub claim_bump: u8,
    /// The worker filing the claim.
    pub worker: Pubkey,
}

/// Accounts for a vote.
#[derive(Clone, Debug, PartialEq, Eq)]
pub struct VoteClaim {
    pub claim: Claim,
    /// Address of `claim`.
    pub claim_key: Pubkey,
    /// The voter's validator record.
    pub validator: ValidatorNode,
    /// Uniqueness bump of the vote's address.
    pub vote_bump: u8,
    /// The identity casting the vote.
    pub voter: Pubkey,
}

/// Accounts for resolving a claim whose voting window has closed.
#[derive(Clone, Debug, PartialEq, Eq)]
pub struct ResolveExpiredClaim {
    pub claim: Claim,
}

/// Accounts for paying out an approved claim.
#[derive(Clone, Debug, PartialEq, Eq)]
pub struct WithdrawPayout {
    pub pool: InsurancePool,
    /// Address of `pool`.
    pub pool_key: Pubkey,
    pub claim: Claim,
    /// Custody account of the pool.
    pub pool_vault: Wallet,
    /// The worker asking for the payout.
    pub worker: Wallet,
}

/// Accounts for registering a validator.
#[derive(Clone, Copy, Debug, PartialEq, Eq)]
pub struct RegisterValidator {
    /// Custody account that will hold the stake.
    pub validator_vault: Pubkey,
    /// The identity registering as a validator.
    pub voter: Pubkey,
    /// Uniqueness bump of the validator record's address.
    pub bump: u8,
}

/// Accounts for taking a stake back.
#[derive(Clone, Copy, Debug, PartialEq, Eq)]
pub struct UnstakeValidator {
    pub validator: ValidatorNode,
    /// Custody account holding the stake.
    pub validator_vault: Wallet,
    /// The identity asking for the stake back.
    pub voter: Wallet,
}

} // verus!
