//! Peer-validated micro-insurance for gig workers.
//!
//! Workers pay premiums into category pools and file claims against them; a
//! panel of staked validators votes on each claim, and a claim that two
//! thirds of at least three voters approve can be paid out.
//!
//! The crate has three layers.
//!
//! * The rules. [`state`] holds the records and their mathematical views,
//!   [`consensus`] the quorum rule, [`rules`] what every operation refuses
//!   and what it leaves behind, and [`lifecycle`] what therefore stays true
//!   of a record all its life.
//! * The operations. [`instructions`] carries each operation out on the
//!   records it is handed in [`accounts`], and returns what has to be stored,
//!   moved and published ([`events`]). A refused operation changes nothing.
//! * The ledger. [`model`] is the whole system as mathematics, [`invariants`]
//!   and [`history`] prove what holds in every state it can reach, and
//!   [`ledger`] is the store that runs the operations and never leaves that
//!   model. It keeps its records in [`table`]s under the [`keys`] they are
//!   known by.
//!
//! Time and custody are the caller's: every operation is told the time, and
//! funds that come from outside the records it is handed are moved by whoever
//! calls it.

pub mod accounts;
pub mod consensus;
pub mod error;
pub mod events;
pub mod history;
pub mod instructions;
pub mod invariants;
pub mod keys;
pub mod ledger;
pub mod lifecycle;
pub mod model;
pub mod pubkey;
pub mod rules;
pub mod state;
pub mod table;

pub use accounts::{
    CreatePool, DepositPremium, RegisterValidator, ResolveExpiredClaim, SubmitClaim,
    UnstakeValidator, VoteClaim, Wallet, WithdrawPayout,
};
pub use error::GigError;
pub use events::{ClaimSubmitted, PayoutWithdrawn, PremiumDeposited, Transfer, VoteCasted};
pub use instructions::{
    create_pool, deposit_premium, register_validator, resolve_expired_claim, submit_claim,
    unstake_validator, vote_claim, withdraw_payout,
};
pub use ledger::Ledger;
pub use model::LedgerError;
pub use pubkey::Pubkey;
pub use state::{
    Claim, ClaimStatus, GigCategory, InsurancePool, Policy, ValidatorNode, Vote,
};
