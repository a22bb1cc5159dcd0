use gig_shield::accounts::Wallet;
use gig_shield::events::{ClaimSubmitted, PayoutWithdrawn, PremiumDeposited, VoteCasted};
use gig_shield::ledger::Ledger;
use gig_shield::model::LedgerError;
use gig_shield::state::{
    ClaimStatus, GigCategory, Policy, ValidatorNode, Vote, MIN_STAKE, UNSTAKE_COOLDOWN,
    VOTING_PERIOD,
};
use gig_shield::{GigError, Pubkey};

const ADMIN: u8 = 1;
const WORKER: u8 = 2;
const POOL: u8 = 10;
const POLICY: u8 = 11;
const CLAIM: u8 = 12;
const VAULT: u8 = 20;
const T0: i64 = 1_000;

fn key(n: u8) -> Pubkey {
    Pubkey::new([n; 32])
}

fn voter(n: u8) -> Pubkey {
    key(100 + n)
}

/// A pool with a ceiling of 5000 and a worker who has paid 600 into it.
fn insured() -> Ledger {
    let mut ledger = Ledger::new();
    ledger
        .create_pool(
            key(POOL),
            254,
            key(VAULT),
            key(ADMIN),
            "drivers".to_string(),
            GigCategory::RideShare,
            250,
            5_000,
            T0,
        )
        .unwrap();
    ledger.fund(key(WORKER), 1_000).unwrap();
    ledger.deposit_premium(key(POOL), key(POLICY), 253, key(WORKER), 600, T0 + 1).unwrap();
    ledger
}

fn file(ledger: &mut Ledger, amount: u64) -> Result<ClaimSubmitted, LedgerError> {
    ledger.submit_claim(
        key(POOL),
        key(CLAIM),
        252,
        key(WORKER),
        "claim-1".to_string(),
        amount,
        [7; 32],
        "rear-ended at a red light".to_string(),
        T0 + 2,
    )
}

fn enroll(ledger: &mut Ledger, n: u8) {
    ledger.fund(voter(n), MIN_STAKE).unwrap();
    ledger.register_validator(voter(n), 251, key(200 + n), MIN_STAKE, T0).unwrap();
}

/// The insured ledger with a claim of 4000 filed and three validators enrolled.
fn contested() -> Ledger {
    let mut ledger = insured();
    file(&mut ledger, 4_000).unwrap();
    for n in 1..=3 {
        enroll(&mut ledger, n);
    }
    ledger
}

#[test]
fn a_new_ledger_is_empty() {
    let ledger = Ledger::new();
    assert_eq!(ledger.balance(&key(WORKER)), 0);
    assert_eq!(ledger.pool(&key(POOL)), None);
    assert_eq!(ledger.pool_vault(&key(POOL)), None);
    assert_eq!(ledger.policy(&key(POOL), &key(WORKER)), None);
    assert_eq!(ledger.claim(&key(CLAIM)), None);
    assert_eq!(ledger.validator(&voter(1)), None);
    assert_eq!(ledger.vote(&key(CLAIM), &voter(1)), None);
}

#[test]
fn funding_adds_up_and_stops_at_the_largest_balance() {
    let mut ledger = Ledger::new();
    ledger.fund(key(WORKER), 40).unwrap();
    ledger.fund(key(WORKER), 2).unwrap();
    assert_eq!(ledger.balance(&key(WORKER)), 42);
    assert_eq!(ledger.fund(key(WORKER), u64::MAX - 41), Err(LedgerError::Overflow));
    assert_eq!(ledger.balance(&key(WORKER)), 42);
    assert_eq!(ledger.fund(key(WORKER), u64::MAX - 42), Ok(()));
    assert_eq!(ledger.balance(&key(WORKER)), u64::MAX);
}

#[test]
fn a_pool_is_opened_once_per_address_and_once_per_admin_and_id() {
    let mut ledger = insured();
    let again = |ledger: &mut Ledger, address: u8, admin: u8, id: &str| {
        ledger.create_pool(
            key(address),
            1,
            key(VAULT),
            key(admin),
            id.to_string(),
            GigCategory::Delivery,
            100,
            9,
            T0,
        )
    };
    assert_eq!(again(&mut ledger, POOL, 9, "couriers"), Err(LedgerError::AccountInUse));
    assert_eq!(again(&mut ledger, 77, ADMIN, "drivers"), Err(LedgerError::AccountInUse));
    assert_eq!(ledger.pool(&key(77)), None);
    assert_eq!(again(&mut ledger, 77, ADMIN, "couriers"), Ok(()));
    assert_eq!(again(&mut ledger, 78, 9, "drivers"), Ok(()));
    assert_eq!(ledger.pool(&key(POOL)).unwrap().category, GigCategory::RideShare);
    assert_eq!(ledger.pool(&key(77)).unwrap().category, GigCategory::Delivery);
}

#[test]
fn a_refused_pool_is_not_stored() {
    let mut ledger = Ledger::new();
    let made = ledger.create_pool(
        key(POOL),
        254,
        key(VAULT),
        key(ADMIN),
        "drivers".to_string(),
        GigCategory::RideShare,
        1_001,
        5_000,
        T0,
    );
    assert_eq!(made, Err(LedgerError::Refused(GigError::InvalidPremiumRate)));
    assert_eq!(ledger.pool(&key(POOL)), None);
}

#[test]
fn a_deposit_moves_funds_into_the_pool_and_opens_the_policy() {
    let ledger = insured();
    assert_eq!(ledger.balance(&key(WORKER)), 400);
    assert_eq!(ledger.pool_vault(&key(POOL)), Some(Wallet { key: key(VAULT), lamports: 600 }));
    let pool = ledger.pool(&key(POOL)).unwrap();
    assert_eq!(pool.total_deposits, 600);
    assert_eq!(pool.active_policies, 1);
    assert_eq!(
        ledger.policy(&key(POOL), &key(WORKER)),
        Some(Policy {
            pool: key(POOL),
            worker: key(WORKER),
            premiums_paid: 600,
            gigs_covered: 1,
            is_active: true,
            created_at: T0 + 1,
            bump: 253,
        })
    );
}

#[test]
fn a_second_deposit_updates_the_same_policy() {
    let mut ledger = insured();
    let event = ledger.deposit_premium(key(POOL), key(99), 1, key(WORKER), 150, T0 + 50);
    assert_eq!(
        event,
        Ok(PremiumDeposited {
            pool: key(POOL),
            worker: key(WORKER),
            amount: 150,
            total_premiums: 750,
        })
    );
    let policy = ledger.policy(&key(POOL), &key(WORKER)).unwrap();
    assert_eq!(policy.premiums_paid, 750);
    assert_eq!(policy.gigs_covered, 2);
    assert_eq!(policy.created_at, T0 + 1);
    assert_eq!(policy.bump, 253);
    assert_eq!(ledger.pool(&key(POOL)).unwrap().active_policies, 1);
    assert_eq!(ledger.pool(&key(POOL)).unwrap().total_deposits, 750);
    assert_eq!(ledger.balance(&key(WORKER)), 250);
}

#[test]
fn a_deposit_needs_a_pool_an_amount_and_the_funds() {
    let mut ledger = insured();
    assert_eq!(
        ledger.deposit_premium(key(77), key(POLICY), 1, key(WORKER), 5, T0),
        Err(LedgerError::AccountNotFound)
    );
    assert_eq!(
        ledger.deposit_premium(key(POOL), key(POLICY), 1, key(WORKER), 0, T0),
        Err(LedgerError::Refused(GigError::InvalidAmount))
    );
    assert_eq!(
        ledger.deposit_premium(key(POOL), key(POLICY), 1, key(WORKER), 401, T0),
        Err(LedgerError::InsufficientFunds)
    );
    assert_eq!(
        ledger.deposit_premium(key(POOL), key(POLICY), 1, key(55), 1, T0),
        Err(LedgerError::InsufficientFunds)
    );
    assert_eq!(ledger.balance(&key(WORKER)), 400);
    assert_eq!(ledger.pool(&key(POOL)).unwrap().total_deposits, 600);
    assert_eq!(ledger.policy(&key(POOL), &key(55)), None);
}

#[test]
fn a_claim_needs_a_policy() {
    let mut ledger = insured();
    let filed = ledger.submit_claim(
        key(POOL),
        key(CLAIM),
        252,
        key(55),
        "claim-1".to_string(),
        10,
        [0; 32],
        String::new(),
        T0,
    );
    assert_eq!(filed, Err(LedgerError::AccountNotFound));
    assert_eq!(ledger.claim(&key(CLAIM)), None);
}

#[test]
fn a_claim_within_ceiling_and_cap_is_filed() {
    // ceiling 5000, premiums 600, cap 6000
    let mut ledger = insured();
    assert_eq!(
        file(&mut ledger, 4_000),
        Ok(ClaimSubmitted { pool: key(POOL), worker: key(WORKER), amount: 4_000, claim: key(CLAIM) })
    );
    let claim = ledger.claim(&key(CLAIM)).unwrap();
    assert_eq!(claim.status, ClaimStatus::Pending);
    assert_eq!(claim.policy, key(POLICY));
    assert_eq!(claim.pool, key(POOL));
    assert_eq!(claim.worker, key(WORKER));
    assert_eq!(claim.votes_for + claim.votes_against, 0);
    assert_eq!(claim.voting_deadline, T0 + 2 + 172_800);
}

#[test]
fn a_claim_over_the_ceiling_or_the_cap_is_not_filed() {
    let mut ledger = insured();
    assert_eq!(file(&mut ledger, 5_001), Err(LedgerError::Refused(GigError::ClaimExceedsMax)));
    assert_eq!(ledger.claim(&key(CLAIM)), None);

    let mut thin = Ledger::new();
    thin.create_pool(
        key(POOL),
        254,
        key(VAULT),
        key(ADMIN),
        "drivers".to_string(),
        GigCategory::RideShare,
        250,
        5_000,
        T0,
    )
    .unwrap();
    thin.fund(key(WORKER), 1_000).unwrap();
    thin.deposit_premium(key(POOL), key(POLICY), 253, key(WORKER), 300, T0).unwrap();
    assert_eq!(
        file(&mut thin, 3_001),
        Err(LedgerError::Refused(GigError::ClaimExceedsPremiumCap))
    );
    assert!(file(&mut thin, 3_000).is_ok());
}

#[test]
fn resubmitting_a_claim_id_fails() {
    let mut ledger = insured();
    file(&mut ledger, 4_000).unwrap();
    let first = ledger.claim(&key(CLAIM)).unwrap();
    assert_eq!(file(&mut ledger, 4_000), Err(LedgerError::AccountInUse));
    assert_eq!(file(&mut ledger, 1), Err(LedgerError::AccountInUse));
    // the same id at another address
    let elsewhere = ledger.submit_claim(
        key(POOL),
        key(77),
        1,
        key(WORKER),
        "claim-1".to_string(),
        4_000,
        [7; 32],
        String::new(),
        T0 + 3,
    );
    assert_eq!(elsewhere, Err(LedgerError::AccountInUse));
    assert_eq!(ledger.claim(&key(77)), None);
    // another id at the same address
    let squatting = ledger.submit_claim(
        key(POOL),
        key(CLAIM),
        1,
        key(WORKER),
        "claim-2".to_string(),
        4_000,
        [7; 32],
        String::new(),
        T0 + 3,
    );
    assert_eq!(squatting, Err(LedgerError::AccountInUse));
    assert_eq!(ledger.claim(&key(CLAIM)), Some(first));
}

#[test]
fn a_claim_id_stays_taken_after_the_claim_is_resolved() {
    let mut ledger = contested();
    ledger.resolve_expired_claim(key(CLAIM), T0 + 2 + VOTING_PERIOD + 1).unwrap();
    assert_eq!(ledger.claim(&key(CLAIM)).unwrap().status, ClaimStatus::Rejected);
    assert_eq!(file(&mut ledger, 4_000), Err(LedgerError::AccountInUse));
}

#[test]
fn another_id_files_another_claim() {
    let mut ledger = insured();
    file(&mut ledger, 4_000).unwrap();
    let second = ledger.submit_claim(
        key(POOL),
        key(13),
        1,
        key(WORKER),
        "claim-2".to_string(),
        5_000,
        [8; 32],
        String::new(),
        T0 + 3,
    );
    assert!(second.is_ok());
    assert_eq!(ledger.claim(&key(CLAIM)).unwrap().amount, 4_000);
    assert_eq!(ledger.claim(&key(13)).unwrap().amount, 5_000);
}

#[test]
fn registering_below_the_minimum_stake_creates_no_validator() {
    let mut ledger = Ledger::new();
    ledger.fund(voter(1), MIN_STAKE).unwrap();
    assert_eq!(
        ledger.register_validator(voter(1), 251, key(201), MIN_STAKE - 1, T0),
        Err(LedgerError::Refused(GigError::InsufficientStake))
    );
    assert_eq!(ledger.validator(&voter(1)), None);
    assert_eq!(ledger.balance(&voter(1)), MIN_STAKE);
}

#[test]
fn registering_moves_the_stake_into_custody() {
    let mut ledger = Ledger::new();
    ledger.fund(voter(1), MIN_STAKE + 5).unwrap();
    assert_eq!(ledger.register_validator(voter(1), 251, key(201), MIN_STAKE, T0), Ok(()));
    assert_eq!(ledger.balance(&voter(1)), 5);
    assert_eq!(
        ledger.validator(&voter(1)),
        Some(ValidatorNode {
            authority: voter(1),
            stake: 1_000_000_000,
            claims_voted: 0,
            reputation_score: 100,
            is_active: true,
            registered_at: T0,
            bump: 251,
        })
    );
}

#[test]
fn registering_needs_the_funds_and_happens_once() {
    let mut ledger = Ledger::new();
    ledger.fund(voter(1), MIN_STAKE - 1).unwrap();
    assert_eq!(
        ledger.register_validator(voter(1), 251, key(201), MIN_STAKE, T0),
        Err(LedgerError::InsufficientFunds)
    );
    assert_eq!(ledger.validator(&voter(1)), None);
    ledger.fund(voter(1), MIN_STAKE + 1).unwrap();
    ledger.register_validator(voter(1), 251, key(201), MIN_STAKE, T0).unwrap();
    assert_eq!(
        ledger.register_validator(voter(1), 251, key(201), MIN_STAKE, T0),
        Err(LedgerError::AccountInUse)
    );
    assert_eq!(ledger.balance(&voter(1)), MIN_STAKE);
}

#[test]
fn a_vote_is_recorded_and_counted() {
    let mut ledger = contested();
    assert_eq!(
        ledger.vote_claim(key(CLAIM), voter(1), 250, true, T0 + 10),
        Ok(VoteCasted {
            claim: key(CLAIM),
            validator: voter(1),
            approve: true,
            votes_for: 1,
            votes_against: 0,
        })
    );
    assert_eq!(
        ledger.vote(&key(CLAIM), &voter(1)),
        Some(Vote {
            claim: key(CLAIM),
            validator: voter(1),
            approve: true,
            voted_at: T0 + 10,
            bump: 250,
        })
    );
    assert_eq!(ledger.validator(&voter(1)).unwrap().claims_voted, 1);
    assert_eq!(ledger.vote(&key(CLAIM), &voter(2)), None);
}

#[test]
fn voting_twice_fails_and_counts_once() {
    let mut ledger = contested();
    ledger.vote_claim(key(CLAIM), voter(1), 250, true, T0 + 10).unwrap();
    let once = ledger.claim(&key(CLAIM)).unwrap();
    assert_eq!(
        ledger.vote_claim(key(CLAIM), voter(1), 250, true, T0 + 11),
        Err(LedgerError::AccountInUse)
    );
    assert_eq!(
        ledger.vote_claim(key(CLAIM), voter(1), 9, false, T0 + 12),
        Err(LedgerError::AccountInUse)
    );
    let twice = ledger.claim(&key(CLAIM)).unwrap();
    assert_eq!(twice, once);
    assert_eq!(twice.votes_for + twice.votes_against, 1);
    assert_eq!(ledger.validator(&voter(1)).unwrap().claims_voted, 1);
    assert_eq!(ledger.vote(&key(CLAIM), &voter(1)).unwrap().voted_at, T0 + 10);
}

#[test]
fn the_tally_counts_the_distinct_validators_that_voted() {
    let mut ledger = contested();
    let mut accepted = 0;
    for round in 0..3 {
        for n in 1..=2 {
            let cast = ledger.vote_claim(key(CLAIM), voter(n), 250, n == 1, T0 + 10 + round);
            if cast.is_ok() {
                accepted += 1;
            } else {
                assert_eq!(cast, Err(LedgerError::AccountInUse));
            }
        }
    }
    let claim = ledger.claim(&key(CLAIM)).unwrap();
    assert_eq!(accepted, 2);
    assert_eq!(claim.votes_for, 1);
    assert_eq!(claim.votes_against, 1);
    assert_eq!(claim.status, ClaimStatus::Pending);
}

#[test]
fn the_third_vote_always_resolves() {
    for pattern in 0..8u8 {
        let mut ledger = contested();
        let mut approvals = 0;
        for n in 1..=3u8 {
            let approve = pattern & (1 << (n - 1)) != 0;
            if approve {
                approvals += 1;
            }
            let before = ledger.claim(&key(CLAIM)).unwrap().status;
            assert_eq!(before, ClaimStatus::Pending);
            ledger.vote_claim(key(CLAIM), voter(n), 250, approve, T0 + 10).unwrap();
        }
        let expected = if approvals >= 2 {
            ClaimStatus::Approved
        } else {
            ClaimStatus::Rejected
        };
        assert_eq!(ledger.claim(&key(CLAIM)).unwrap().status, expected);
    }
}

#[test]
fn a_vote_needs_a_claim_and_a_registered_validator() {
    let mut ledger = contested();
    assert_eq!(
        ledger.vote_claim(key(77), voter(1), 250, true, T0 + 10),
        Err(LedgerError::AccountNotFound)
    );
    assert_eq!(
        ledger.vote_claim(key(CLAIM), voter(9), 250, true, T0 + 10),
        Err(LedgerError::AccountNotFound)
    );
    assert_eq!(ledger.claim(&key(CLAIM)).unwrap().votes_for, 0);
}

#[test]
fn a_retired_validator_cannot_vote() {
    let mut ledger = contested();
    ledger.unstake_validator(voter(1), T0 + UNSTAKE_COOLDOWN).unwrap();
    assert_eq!(
        ledger.vote_claim(key(CLAIM), voter(1), 250, true, T0 + UNSTAKE_COOLDOWN + 1),
        Err(LedgerError::Refused(GigError::ValidatorInactive))
    );
}

#[test]
fn a_vote_after_the_deadline_is_refused() {
    let mut ledger = contested();
    let deadline = T0 + 2 + VOTING_PERIOD;
    assert_eq!(
        ledger.vote_claim(key(CLAIM), voter(1), 250, true, deadline + 1),
        Err(LedgerError::Refused(GigError::VotingExpired))
    );
    assert!(ledger.vote_claim(key(CLAIM), voter(1), 250, true, deadline).is_ok());
}

#[test]
fn claim_is_approved_by_two_thirds_and_paid_out() {
    let mut ledger = contested();
    ledger.vote_claim(key(CLAIM), voter(1), 250, true, T0 + 10).unwrap();
    ledger.vote_claim(key(CLAIM), voter(2), 250, true, T0 + 11).unwrap();
    assert_eq!(ledger.claim(&key(CLAIM)).unwrap().status, ClaimStatus::Pending);
    let last = ledger.vote_claim(key(CLAIM), voter(3), 250, false, T0 + 12).unwrap();
    assert_eq!((last.votes_for, last.votes_against), (2, 1));
    assert_eq!(ledger.claim(&key(CLAIM)).unwrap().status, ClaimStatus::Approved);
    // only the vote that resolved the claim is rewarded
    assert_eq!(ledger.validator(&voter(1)).unwrap().reputation_score, 100);
    assert_eq!(ledger.validator(&voter(2)).unwrap().reputation_score, 100);
    assert_eq!(ledger.validator(&voter(3)).unwrap().reputation_score, 105);

    // the pool holds 600, the claim asks for 4000
    assert_eq!(
        ledger.withdraw_payout(key(CLAIM), key(WORKER)),
        Err(LedgerError::Refused(GigError::InsufficientPoolFunds))
    );
    ledger.fund(key(55), 3_400).unwrap();
    ledger.deposit_premium(key(POOL), key(56), 1, key(55), 3_400, T0 + 13).unwrap();
    let paid_before = ledger.pool(&key(POOL)).unwrap().total_claims_paid;
    assert_eq!(
        ledger.withdraw_payout(key(CLAIM), key(WORKER)),
        Ok(PayoutWithdrawn { pool: key(POOL), worker: key(WORKER), amount: 4_000 })
    );
    assert_eq!(ledger.claim(&key(CLAIM)).unwrap().status, ClaimStatus::Paid);
    assert_eq!(ledger.pool(&key(POOL)).unwrap().total_claims_paid, paid_before + 4_000);
    assert_eq!(ledger.pool_vault(&key(POOL)).unwrap().lamports, 0);
    assert_eq!(ledger.balance(&key(WORKER)), 4_400);
}

fn approved_and_funded() -> Ledger {
    let mut ledger = contested();
    ledger.fund(key(55), 10_000).unwrap();
    ledger.deposit_premium(key(POOL), key(56), 1, key(55), 10_000, T0 + 5).unwrap();
    for n in 1..=3 {
        ledger.vote_claim(key(CLAIM), voter(n), 250, true, T0 + 10).unwrap();
    }
    ledger
}

#[test]
fn withdrawing_twice_fails_and_leaves_the_balances() {
    let mut ledger = approved_and_funded();
    ledger.withdraw_payout(key(CLAIM), key(WORKER)).unwrap();
    let worker = ledger.balance(&key(WORKER));
    let vault = ledger.pool_vault(&key(POOL)).unwrap();
    let pool = ledger.pool(&key(POOL)).unwrap();
    assert_eq!(
        ledger.withdraw_payout(key(CLAIM), key(WORKER)),
        Err(LedgerError::Refused(GigError::ClaimNotApproved))
    );
    assert_eq!(ledger.balance(&key(WORKER)), worker);
    assert_eq!(ledger.pool_vault(&key(POOL)).unwrap(), vault);
    assert_eq!(ledger.pool(&key(POOL)).unwrap(), pool);
    assert_eq!(ledger.claim(&key(CLAIM)).unwrap().status, ClaimStatus::Paid);
}

#[test]
fn only_the_claimant_is_paid() {
    let mut ledger = approved_and_funded();
    assert_eq!(
        ledger.withdraw_payout(key(CLAIM), key(55)),
        Err(LedgerError::Refused(GigError::Unauthorized))
    );
    assert_eq!(ledger.balance(&key(55)), 0);
    assert_eq!(
        ledger.withdraw_payout(key(77), key(WORKER)),
        Err(LedgerError::AccountNotFound)
    );
}

#[test]
fn the_third_vote_closes_the_claim_to_further_votes() {
    let mut ledger = approved_and_funded();
    enroll(&mut ledger, 4);
    assert_eq!(
        ledger.vote_claim(key(CLAIM), voter(4), 250, false, T0 + 20),
        Err(LedgerError::Refused(GigError::ClaimNotPending))
    );
    assert_eq!(
        ledger.resolve_expired_claim(key(CLAIM), T0 + 2 + VOTING_PERIOD + 1),
        Err(LedgerError::Refused(GigError::ClaimNotPending))
    );
    assert_eq!(ledger.claim(&key(CLAIM)).unwrap().status, ClaimStatus::Approved);
}

#[test]
fn a_pending_or_rejected_claim_is_not_paid() {
    let mut ledger = contested();
    assert_eq!(
        ledger.withdraw_payout(key(CLAIM), key(WORKER)),
        Err(LedgerError::Refused(GigError::ClaimNotApproved))
    );
    for n in 1..=3 {
        ledger.vote_claim(key(CLAIM), voter(n), 250, false, T0 + 10).unwrap();
    }
    assert_eq!(ledger.claim(&key(CLAIM)).unwrap().status, ClaimStatus::Rejected);
    assert_eq!(
        ledger.withdraw_payout(key(CLAIM), key(WORKER)),
        Err(LedgerError::Refused(GigError::ClaimNotApproved))
    );
    assert_eq!(ledger.balance(&key(WORKER)), 400);
}

#[test]
fn expired_claim_with_two_approvals_is_rejected() {
    let mut ledger = contested();
    ledger.vote_claim(key(CLAIM), voter(1), 250, true, T0 + 10).unwrap();
    ledger.vote_claim(key(CLAIM), voter(2), 250, true, T0 + 11).unwrap();
    let deadline = T0 + 2 + VOTING_PERIOD;
    assert_eq!(
        ledger.resolve_expired_claim(key(CLAIM), deadline),
        Err(LedgerError::Refused(GigError::VotingNotExpired))
    );
    assert_eq!(ledger.resolve_expired_claim(key(CLAIM), deadline + 1), Ok(()));
    let claim = ledger.claim(&key(CLAIM)).unwrap();
    assert_eq!((claim.votes_for, claim.votes_against), (2, 0));
    assert_eq!(claim.status, ClaimStatus::Rejected);
    assert_eq!(
        ledger.resolve_expired_claim(key(CLAIM), deadline + 2),
        Err(LedgerError::Refused(GigError::ClaimNotPending))
    );
    assert_eq!(
        ledger.resolve_expired_claim(key(77), deadline + 2),
        Err(LedgerError::AccountNotFound)
    );
}

#[test]
fn unstaking_returns_the_stake_after_a_day() {
    let mut ledger = contested();
    assert_eq!(
        ledger.unstake_validator(voter(1), T0 + UNSTAKE_COOLDOWN - 1),
        Err(LedgerError::Refused(GigError::UnstakeCooldownNotMet))
    );
    assert_eq!(ledger.balance(&voter(1)), 0);
    assert_eq!(ledger.unstake_validator(voter(1), T0 + UNSTAKE_COOLDOWN), Ok(()));
    assert_eq!(ledger.balance(&voter(1)), MIN_STAKE);
    let retired = ledger.validator(&voter(1)).unwrap();
    assert_eq!(retired.stake, 0);
    assert!(!retired.is_active);
    assert_eq!(
        ledger.unstake_validator(voter(1), T0 + 2 * UNSTAKE_COOLDOWN),
        Err(LedgerError::Refused(GigError::ValidatorInactive))
    );
    assert_eq!(ledger.balance(&voter(1)), MIN_STAKE);
    assert_eq!(
        ledger.unstake_validator(voter(9), T0 + UNSTAKE_COOLDOWN),
        Err(LedgerError::AccountNotFound)
    );
}

#[test]
fn a_retired_validator_stays_retired() {
    let mut ledger = contested();
    ledger.unstake_validator(voter(1), T0 + UNSTAKE_COOLDOWN).unwrap();
    assert_eq!(
        ledger.register_validator(voter(1), 251, key(201), MIN_STAKE, T0 + UNSTAKE_COOLDOWN),
        Err(LedgerError::AccountInUse)
    );
}

#[test]
fn the_pool_holds_what_was_deposited_and_not_paid() {
    let mut ledger = approved_and_funded();
    let held = |ledger: &Ledger| {
        let pool = ledger.pool(&key(POOL)).unwrap();
        (ledger.pool_vault(&key(POOL)).unwrap().lamports, pool.total_deposits - pool.total_claims_paid)
    };
    assert_eq!(held(&ledger), (10_600, 10_600));
    ledger.withdraw_payout(key(CLAIM), key(WORKER)).unwrap();
    assert_eq!(held(&ledger), (6_600, 6_600));
}

#[test]
fn a_pool_that_is_full_takes_no_more() {
    let mut ledger = Ledger::new();
    ledger
        .create_pool(
            key(POOL),
            254,
            key(VAULT),
            key(ADMIN),
            "drivers".to_string(),
            GigCategory::RideShare,
            250,
            5_000,
            T0,
        )
        .unwrap();
    ledger.fund(key(WORKER), u64::MAX).unwrap();
    ledger.fund(key(55), 10).unwrap();
    ledger.deposit_premium(key(POOL), key(POLICY), 253, key(WORKER), u64::MAX - 5, T0).unwrap();
    assert_eq!(
        ledger.deposit_premium(key(POOL), key(56), 1, key(55), 6, T0),
        Err(LedgerError::Overflow)
    );
    assert_eq!(ledger.balance(&key(55)), 10);
    assert_eq!(ledger.policy(&key(POOL), &key(55)), None);
    assert_eq!(ledger.deposit_premium(key(POOL), key(56), 1, key(55), 5, T0).map(|e| e.amount), Ok(5));
    assert_eq!(ledger.pool(&key(POOL)).unwrap().total_deposits, u64::MAX);
}

#[test]
fn a_claim_cannot_be_filed_at_the_end_of_time() {
    let mut ledger = insured();
    let filed = ledger.submit_claim(
        key(POOL),
        key(CLAIM),
        252,
        key(WORKER),
        "claim-1".to_string(),
        4_000,
        [7; 32],
        String::new(),
        i64::MAX - VOTING_PERIOD + 1,
    );
    assert_eq!(filed, Err(LedgerError::Overflow));
    assert_eq!(ledger.claim(&key(CLAIM)), None);
}

#[test]
fn a_payout_needs_room_in_the_workers_balance() {
    let mut ledger = approved_and_funded();
    ledger.fund(key(WORKER), u64::MAX - 400 - 3_999).unwrap();
    assert_eq!(ledger.withdraw_payout(key(CLAIM), key(WORKER)), Err(LedgerError::Overflow));
    assert_eq!(ledger.claim(&key(CLAIM)).unwrap().status, ClaimStatus::Approved);
    assert_eq!(ledger.pool_vault(&key(POOL)).unwrap().lamports, 10_600);
}

#[test]
fn premiums_paid_later_do_not_touch_a_filed_claim() {
    let mut ledger = insured();
    file(&mut ledger, 4_000).unwrap();
    let before = ledger.claim(&key(CLAIM)).unwrap();
    ledger.deposit_premium(key(POOL), key(POLICY), 253, key(WORKER), 100, T0 + 3).unwrap();
    assert_eq!(ledger.claim(&key(CLAIM)).unwrap(), before);
    let policy = ledger.policy(&key(POOL), &key(WORKER)).unwrap();
    let pool = ledger.pool(&key(POOL)).unwrap();
    assert!(before.amount <= pool.max_payout);
    assert!(before.amount <= policy.premiums_paid * 10);
}
