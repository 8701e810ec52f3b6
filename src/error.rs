//! Errors that the withdrawal path raises on its own account.
use vstd::prelude::*;

verus! {

/// Why a withdrawal request was rejected.
#[derive(Clone, Copy, Debug, PartialEq, Eq, Structural)]
pub enum GovernanceError {
    /// The account list is too short for the positions the request needs.
    NotEnoughAccounts,
    /// The governing token owner did not sign the request.
    OwnerSignatureMissing,
    /// The realm does not match the holding account or its mint.
    InvalidRealmOrMint,
    /// The realm's configuration does not allow withdrawing this mint.
    WithdrawalNotPermittedByPolicy,
    /// The owner record still has unrelinquished votes or a lock in force.
    WithdrawalBlockedByActiveLockOrVote,
    /// The reward-accrual actor is not an accepted program, or not executable.
    InvalidDelegateActor,
    /// The trailing reward-token accounts do not form whole groups of four.
    MalformedRewardGroups,
}

} // verus!
