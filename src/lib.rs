//! Accounting and state-machine core of an on-chain learning ledger: course
//! catalog, enrollment progress, learner XP with daily caps and streaks,
//! rate-limited minter roles and supply-capped achievements.
//!
//! Every transition takes the entities it touches and plain values (the
//! signer's key, the current time) and either fails with an
//! [`AcademyError`], leaving every entity as it was, or applies all of its
//! effects and returns the event that describes them. Storing accounts,
//! reading the clock and issuing tokens are left to the host.
//!
//! - [`key`]: account addresses and token-account references
//! - [`error`]: the failures and their six categories
//! - [`amount`]: the checked fixed-point amount
//! - [`bitset`]: the 256-slot set behind lesson progress
//! - [`state`]: the entities and the parameters that create or change them
//! - [`events`]: what transitions report
//! - [`config`], [`course`], [`progress`], [`learner`], [`minter`],
//!   [`achievement`]: the transitions
//! - [`laws`]: properties that span several transitions

pub mod key;
pub mod error;
pub mod amount;
pub mod bitset;
pub mod state;
pub mod events;
pub mod learner;
pub mod config;
pub mod course;
pub mod progress;
pub mod minter;
pub mod achievement;
pub mod laws;

pub use error::AcademyError;
