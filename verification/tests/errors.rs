use gig_shield::GigError;

#[test]
fn every_error_has_its_message() {
    let expected = [
        (GigError::InvalidPremiumRate, "Invalid premium rate"),
        (GigError::InvalidAmount, "Invalid amount"),
        (GigError::PoolInactive, "Pool is inactive"),
        (GigError::PolicyInactive, "Policy is inactive"),
        (GigError::NoPremiumsPaid, "No premiums paid"),
        (GigError::ClaimExceedsMax, "Claim exceeds max payout"),
        (GigError::ClaimExceedsPremiumCap, "Claim exceeds premium cap (max 10x premiums paid)"),
        (GigError::DescriptionTooLong, "Description too long"),
        (GigError::PoolIdTooLong, "Pool ID too long (max 32 chars)"),
        (GigError::ClaimNotPending, "Claim is not pending"),
        (GigError::ClaimNotApproved, "Claim not approved"),
        (GigError::VotingExpired, "Voting period has expired"),
        (GigError::VotingNotExpired, "Voting period has not expired yet"),
        (GigError::ValidatorInactive, "Validator is inactive"),
        (GigError::InsufficientStake, "Insufficient stake (min 1 SOL)"),
        (GigError::UnstakeCooldownNotMet, "Unstake cooldown not met (24h)"),
        (GigError::InsufficientPoolFunds, "Insufficient pool funds"),
        (GigError::Unauthorized, "Unauthorized"),
    ];
    for (error, message) in expected {
        assert_eq!(error.message(), message);
    }
}
