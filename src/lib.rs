//! Withdrawal of deposited governing tokens, gated by an authorization
//! pipeline and coupled with a delegated reward-accrual call.
//!
//! The library decides; the caller performs. Given plain descriptions of the
//! accounts of a withdrawal request and the facts read from the realm and its
//! configuration, it either rejects the request with a specific error, or
//! returns the delegated call to issue and the transfer to make, and zeroes the
//! owner's recorded deposit.
use vstd::prelude::*;

pub mod account;
pub mod error;
pub mod key;
pub mod rewards;
pub mod selector;
pub mod withdraw;

pub use account::{AccountMeta, AccountRef, Invocation};
pub use error::GovernanceError;
pub use key::Key;
pub use rewards::{ActorProfile, FolioProgram, RewardsProgram};
pub use withdraw::{
    process_withdraw_governing_tokens, OwnerRecord, TransferOrder, WithdrawFacts, WithdrawalPlan,
};
