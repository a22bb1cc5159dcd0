use gig_shield::consensus::{evaluate_expiry, evaluate_quorum, QUORUM};
use gig_shield::state::ClaimStatus;

#[test]
fn quorum_is_three_votes() {
    assert_eq!(QUORUM, 3);
}

#[test]
fn two_for_one_against_is_approved() {
    // 2 * 3 = 6 >= 3 * 2 = 6
    assert_eq!(evaluate_quorum(2, 1), ClaimStatus::Approved);
}

#[test]
fn one_for_two_against_is_rejected() {
    assert_eq!(evaluate_quorum(1, 2), ClaimStatus::Rejected);
}

#[test]
fn two_votes_never_resolve_a_live_claim() {
    assert_eq!(evaluate_quorum(0, 0), ClaimStatus::Pending);
    assert_eq!(evaluate_quorum(1, 0), ClaimStatus::Pending);
    assert_eq!(evaluate_quorum(2, 0), ClaimStatus::Pending);
    assert_eq!(evaluate_quorum(0, 2), ClaimStatus::Pending);
    assert_eq!(evaluate_quorum(1, 1), ClaimStatus::Pending);
}

#[test]
fn a_tie_leaves_a_live_claim_pending() {
    assert_eq!(evaluate_quorum(2, 2), ClaimStatus::Pending);
    assert_eq!(evaluate_quorum(3, 3), ClaimStatus::Pending);
    // 3 * 3 = 9 < 5 * 2 = 10 on both sides
    assert_eq!(evaluate_quorum(3, 2), ClaimStatus::Pending);
    assert_eq!(evaluate_quorum(2, 3), ClaimStatus::Pending);
}

#[test]
fn two_thirds_is_enough_and_less_is_not() {
    assert_eq!(evaluate_quorum(4, 2), ClaimStatus::Approved);
    assert_eq!(evaluate_quorum(2, 4), ClaimStatus::Rejected);
    // 199 * 3 = 597 < 300 * 2 = 600
    assert_eq!(evaluate_quorum(199, 101), ClaimStatus::Pending);
    assert_eq!(evaluate_quorum(200, 100), ClaimStatus::Approved);
}

#[test]
fn the_largest_tallies_do_not_overflow() {
    assert_eq!(evaluate_quorum(u16::MAX, u16::MAX), ClaimStatus::Pending);
    assert_eq!(evaluate_quorum(u16::MAX, 0), ClaimStatus::Approved);
    assert_eq!(evaluate_quorum(0, u16::MAX), ClaimStatus::Rejected);
    assert_eq!(evaluate_expiry(u16::MAX, u16::MAX), ClaimStatus::Rejected);
    assert_eq!(evaluate_expiry(u16::MAX, 32767), ClaimStatus::Approved);
}

#[test]
fn two_for_none_against_expires_rejected() {
    assert_eq!(evaluate_expiry(2, 0), ClaimStatus::Rejected);
}

#[test]
fn expiry_rejects_everything_but_an_approving_supermajority() {
    assert_eq!(evaluate_expiry(0, 0), ClaimStatus::Rejected);
    assert_eq!(evaluate_expiry(1, 1), ClaimStatus::Rejected);
    assert_eq!(evaluate_expiry(2, 2), ClaimStatus::Rejected);
    assert_eq!(evaluate_expiry(3, 2), ClaimStatus::Rejected);
    assert_eq!(evaluate_expiry(1, 2), ClaimStatus::Rejected);
    assert_eq!(evaluate_expiry(2, 1), ClaimStatus::Approved);
    assert_eq!(evaluate_expiry(3, 0), ClaimStatus::Approved);
}
