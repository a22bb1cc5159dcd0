//! The reasons an operation is refused.

use vstd::prelude::*;

verus! {

/// Why an operation was refused. A refused operation changes nothing.
#[derive(Clone, Copy, Debug, PartialEq, Eq, Structural, Hash)]
pub enum GigError {
    InvalidPremiumRate,
    InvalidAmount,
    PoolInactive,
    PolicyInactive,
    NoPremiumsPaid,
    ClaimExceedsMax,
    ClaimExceedsPremiumCap,
    DescriptionTooLong,
    PoolIdTooLong,
    ClaimNotPending,
    ClaimNotApproved,
    VotingExpired,
    VotingNotExpired,
    ValidatorInactive,
    InsufficientStake,
    UnstakeCooldownNotMet,
    InsufficientPoolFunds,
    Unauthorized,
}

impl GigError {
    /// The text of [`GigError::message`].
    pub open spec fn message_text(self) -> Seq<char> {
        match self {
            GigError::InvalidPremiumRate => "Invalid premium rate"@,
            GigError::InvalidAmount => "Invalid amount"@,
            GigError::PoolInactive => "Pool is inactive"@,
            GigError::PolicyInactive => "Policy is inactive"@,
            GigError::NoPremiumsPaid => "No premiums paid"@,
            GigError::ClaimExceedsMax => "Claim exceeds max payout"@,
            GigError::ClaimExceedsPremiumCap => "Claim exceeds premium cap (max 10x premiums paid)"@,
            GigError::DescriptionTooLong => "Description too long"@,
            GigError::PoolIdTooLong => "Pool ID too long (max 32 chars)"@,
            GigError::ClaimNotPending => "Claim is not pending"@,
            GigError::ClaimNotApproved => "Claim not approved"@,
            GigError::VotingExpired => "Voting period has expired"@,
            GigError::VotingNotExpired => "Voting period has not expired yet"@,
            GigError::ValidatorInactive => "Validator is inactive"@,
            GigError::InsufficientStake => "Insufficient stake (min 1 SOL)"@,
            GigError::UnstakeCooldownNotMet => "Unstake cooldown not met (24h)"@,
            GigError::InsufficientPoolFunds => "Insufficient pool funds"@,
            GigError::Unauthorized => "Unauthorized"@,
        }
    }

    /// What to tell the caller.
    pub fn message(&self) -> (text: &'static str)
        ensures
            text@ == self.message_text(),
    {
        match self {
            GigError::InvalidPremiumRate => "Invalid premium rate",
            GigError::InvalidAmount => "Invalid amount",
            GigError::PoolInactive => "Pool is inactive",
            GigError::PolicyInactive => "Policy is inactive",
            GigError::NoPremiumsPaid => "No premiums paid",
            GigError::ClaimExceedsMax => "Claim exceeds max payout",
            GigError::ClaimExceedsPremiumCap => "Claim exceeds premium cap (max 10x premiums paid)",
            GigError::DescriptionTooLong => "Description too long",
            GigError::PoolIdTooLong => "Pool ID too long (max 32 chars)",
            GigError::ClaimNotPending => "Claim is not pending",
            GigError::ClaimNotApproved => "Claim not approved",
            GigError::VotingExpired => "Voting period has expired",
            GigError::VotingNotExpired => "Voting period has not expired yet",
            GigError::ValidatorInactive => "Validator is inactive",
            GigError::InsufficientStake => "Insufficient stake (min 1 SOL)",
            GigError::UnstakeCooldownNotMet => "Unstake cooldown not met (24h)",
            GigError::InsufficientPoolFunds => "Insufficient pool funds",
            GigError::Unauthorized => "Unauthorized",
        }
    }
}

} // verus!
