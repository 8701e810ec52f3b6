//! The authorization pipeline of a withdrawal of governing tokens.
//!
//! Positions in the account list of a withdrawal:
//! 0 realm, 1 custody holding, 2 destination, 3 governing token owner (signs),
//! 4 token owner record, 5 token program, 6 realm config, 7 system program,
//! 8 reward-accrual program, 9 to 13 its fixed accounts, and from 14 on zero
//! or more groups of four reward-token accounts.
use vstd::prelude::*;
use vstd::slice::slice_subrange;
use crate::account::{AccountRef, Invocation};
use crate::error::GovernanceError;
use crate::key::{folio_program_id, rewards_program_id, rewards_program_key, Key};
use crate::rewards::{
    accrual_error, is_accrual_call, FolioProgram, RewardsProgram, FOLIO_ACTOR_ACCOUNTS,
    REWARDS_ACTOR_ACCOUNTS,
};

verus! {

/// Accounts the pipeline reads before it reaches the system program.
pub const GOVERNANCE_ACCOUNTS: usize = 7;

/// Position of the reward-accrual program's address.
pub const ACTOR_POSITION: usize = 8;

/// Position of the first trailing reward-token account.
pub const REWARD_GROUPS_START: usize = 14;

/// What the owner record of a withdrawal holds that the withdrawal reads.
#[derive(Clone, Debug)]
pub struct OwnerRecord {
    /// Governing tokens the owner has deposited.
    pub governing_token_deposit_amount: u64,
    /// Votes cast with the deposit and not yet relinquished.
    pub unrelinquished_votes_count: u64,
    /// The expiry of each lock on the record; `None` never expires.
    pub lock_expiries: Vec<Option<i64>>,
}

/// A lock with this expiry is in force at time `now`.
pub open spec fn lock_in_force(expiry: Option<i64>, now: i64) -> bool {
    match expiry {
        None => true,
        Some(t) => now < t,
    }
}

impl OwnerRecord {
    /// No vote is outstanding and no lock is in force at time `now`.
    pub open spec fn may_withdraw(&self, now: i64) -> bool {
        &&& self.unrelinquished_votes_count == 0
        &&& forall|i: int|
            0 <= i < self.lock_expiries@.len() ==> !lock_in_force(#[trigger] self.lock_expiries@[i], now)
    }

    /// Refuses a withdrawal while a vote is outstanding or a lock is in force.
    pub fn assert_can_withdraw_governing_tokens(&self, now: i64) -> (r: Result<
        (),
        GovernanceError,
    >)
        ensures
            r is Ok <==> self.may_withdraw(now),
            r is Err ==> r == Err::<(), GovernanceError>(
                GovernanceError::WithdrawalBlockedByActiveLockOrVote,
            ),
    {
        if self.unrelinquished_votes_count > 0 {
            return Err(GovernanceError::WithdrawalBlockedByActiveLockOrVote);
        }
        let mut i: usize = 0;
        while i < self.lock_expiries.len()
            invariant
                i <= self.lock_expiries@.len(),
                forall|j: int| 0 <= j < i ==> !lock_in_force(#[trigger] self.lock_expiries@[j], now),
            decreases self.lock_expiries@.len() - i,
        {
            let in_force = match self.lock_expiries[i] {
                None => true,
                Some(t) => now < t,
            };
            if in_force {
                return Err(GovernanceError::WithdrawalBlockedByActiveLockOrVote);
            }
            i = i + 1;
        }
        Ok(())
    }
}

/// What the realm and its configuration say of a withdrawal, as read by the
/// caller, and the time of the request.
#[derive(Clone, Copy, Debug)]
pub struct WithdrawFacts {
    /// The realm is this program's, and names the holding account and its mint.
    pub realm_matches: bool,
    /// The realm's configuration lets this mint be withdrawn.
    pub withdrawal_permitted: bool,
    /// The clock's time, in seconds.
    pub unix_timestamp: i64,
}

/// A token transfer, signed by the realm's custody authority.
#[derive(Clone, Copy, Debug)]
pub struct TransferOrder {
    pub source: Key,
    pub destination: Key,
    /// The realm, whose derived address signs for the holding account.
    pub authority: Key,
    pub amount: u64,
}

/// What an accepted withdrawal asks the caller to do, in order: issue the
/// accrual call, then make the transfer.
#[derive(Debug)]
pub struct WithdrawalPlan {
    pub accrual_call: Invocation,
    pub transfer: TransferOrder,
}

/// The account list names the Rewards program as its reward-accrual program;
/// any other address is checked against the Folio program.
pub open spec fn uses_rewards_program(accounts: Seq<AccountRef>) -> bool {
    accounts[ACTOR_POSITION as int].key@ == rewards_program_id()
}

/// The address the reward-accrual program must have.
pub open spec fn expected_actor_id(accounts: Seq<AccountRef>) -> Seq<u8> {
    if uses_rewards_program(accounts) {
        rewards_program_id()
    } else {
        folio_program_id()
    }
}

/// How many fixed accounts the reward-accrual program takes.
pub open spec fn actor_account_count(accounts: Seq<AccountRef>) -> nat {
    if uses_rewards_program(accounts) {
        REWARDS_ACTOR_ACCOUNTS as nat
    } else {
        FOLIO_ACTOR_ACCOUNTS as nat
    }
}

/// The reward-accrual program and its fixed accounts.
pub open spec fn actor_block(accounts: Seq<AccountRef>) -> Seq<AccountRef> {
    accounts.subrange(ACTOR_POSITION as int, REWARD_GROUPS_START as int)
}

/// The trailing reward-token accounts.
pub open spec fn reward_groups(accounts: Seq<AccountRef>) -> Seq<AccountRef> {
    accounts.subrange(REWARD_GROUPS_START as int, accounts.len() as int)
}

/// Every gate before the delegated call passes.
pub open spec fn authorized(accounts: Seq<AccountRef>, facts: WithdrawFacts, record: OwnerRecord) -> bool {
    &&& accounts.len() >= REWARD_GROUPS_START
    &&& accounts[3].is_signer
    &&& facts.realm_matches
    &&& facts.withdrawal_permitted
    &&& record.may_withdraw(facts.unix_timestamp)
}

/// Why a withdrawal is rejected, if it is: the first gate that fails.
pub open spec fn withdraw_error(
    accounts: Seq<AccountRef>,
    facts: WithdrawFacts,
    record: OwnerRecord,
) -> Option<GovernanceError> {
    if accounts.len() < GOVERNANCE_ACCOUNTS {
        Some(GovernanceError::NotEnoughAccounts)
    } else if !accounts[3].is_signer {
        Some(GovernanceError::OwnerSignatureMissing)
    } else if !facts.realm_matches {
        Some(GovernanceError::InvalidRealmOrMint)
    } else if !facts.withdrawal_permitted {
        Some(GovernanceError::WithdrawalNotPermittedByPolicy)
    } else if !record.may_withdraw(facts.unix_timestamp) {
        Some(GovernanceError::WithdrawalBlockedByActiveLockOrVote)
    } else if accounts.len() < REWARD_GROUPS_START {
        Some(GovernanceError::NotEnoughAccounts)
    } else {
        accrual_error(
            expected_actor_id(accounts),
            actor_account_count(accounts),
            actor_block(accounts),
            reward_groups(accounts),
        )
    }
}

/// `plan` is what an accepted withdrawal with these accounts asks for, the
/// owner record having held `amount` before it.
pub open spec fn is_withdrawal_plan(plan: WithdrawalPlan, accounts: Seq<AccountRef>, amount: u64) -> bool {
    &&& is_accrual_call(
        plan.accrual_call,
        uses_rewards_program(accounts),
        actor_account_count(accounts),
        accounts[0],
        accounts[7],
        accounts[5],
        accounts[3],
        accounts[1],
        accounts[4],
        actor_block(accounts),
        reward_groups(accounts),
    )
    &&& plan.transfer == (TransferOrder {
        source: accounts[1].key,
        destination: accounts[2].key,
        authority: accounts[0].key,
        amount,
    })
}

/// Runs the gates of a withdrawal in order. On success the owner record's
/// deposit is zeroed and the plan holds the accrual call to issue and the
/// transfer of the whole former deposit from the holding account to the
/// destination. On failure nothing changes.
pub fn process_withdraw_governing_tokens(
    accounts: &[AccountRef],
    facts: &WithdrawFacts,
    token_owner_record: &mut OwnerRecord,
) -> (r: Result<WithdrawalPlan, GovernanceError>)
    ensures
        match r {
            Ok(plan) => {
                &&& withdraw_error(accounts@, *facts, *old(token_owner_record)) is None
                &&& is_withdrawal_plan(
                    plan,
                    accounts@,
                    old(token_owner_record).governing_token_deposit_amount,
                )
                &&& final(token_owner_record).governing_token_deposit_amount == 0
                &&& final(token_owner_record).unrelinquished_votes_count
                    == old(token_owner_record).unrelinquished_votes_count
                &&& final(token_owner_record).lock_expiries@ == old(token_owner_record).lock_expiries@
            },
            Err(e) => {
                &&& withdraw_error(accounts@, *facts, *old(token_owner_record)) == Some(e)
                &&& *final(token_owner_record) == *old(token_owner_record)
            },
        },
{
    if accounts.len() < GOVERNANCE_ACCOUNTS {
        return Err(GovernanceError::NotEnoughAccounts);
    }
    let realm_info = &accounts[0];
    let governing_token_holding_info = &accounts[1];
    let governing_token_destination_info = &accounts[2];
    let governing_token_owner_info = &accounts[3];
    let token_owner_record_info = &accounts[4];
    let spl_token_info = &accounts[5];

    if !governing_token_owner_info.is_signer {
        return Err(GovernanceError::OwnerSignatureMissing);
    }
    if !facts.realm_matches {
        return Err(GovernanceError::InvalidRealmOrMint);
    }
    if !facts.withdrawal_permitted {
        return Err(GovernanceError::WithdrawalNotPermittedByPolicy);
    }
    match token_owner_record.assert_can_withdraw_governing_tokens(facts.unix_timestamp) {
        Ok(()) => {},
        Err(e) => return Err(e),
    }
    if accounts.len() < REWARD_GROUPS_START {
        return Err(GovernanceError::NotEnoughAccounts);
    }
    let system_info = &accounts[7];
    let actor_accounts = slice_subrange(accounts, ACTOR_POSITION, REWARD_GROUPS_START);
    let reward_token_accounts = slice_subrange(accounts, REWARD_GROUPS_START, accounts.len());

    let rewards_key = rewards_program_key();
    let called = if accounts[ACTOR_POSITION].key.same_as(&rewards_key) {
        RewardsProgram::accrue_rewards(
            realm_info,
            system_info,
            spl_token_info,
            governing_token_owner_info,
            governing_token_holding_info,
            token_owner_record_info,
            actor_accounts,
            reward_token_accounts,
        )
    } else {
        FolioProgram::accrue_rewards(
            realm_info,
            system_info,
            spl_token_info,
            governing_token_owner_info,
            governing_token_holding_info,
            token_owner_record_info,
            actor_accounts,
            reward_token_accounts,
        )
    };
    let accrual_call = match called {
        Ok(call) => call,
        Err(e) => return Err(e),
    };

    let amount = token_owner_record.governing_token_deposit_amount;
    let transfer = TransferOrder {
        source: governing_token_holding_info.key,
        destination: governing_token_destination_info.key,
        authority: realm_info.key,
        amount,
    };
    token_owner_record.governing_token_deposit_amount = 0;
    Ok(WithdrawalPlan { accrual_call, transfer })
}

/// The reward-accrual program at position 8 is one of the accepted programs
/// and is executable.
pub open spec fn actor_accepted(accounts: Seq<AccountRef>) -> bool {
    &&& accounts[ACTOR_POSITION as int].key@ == folio_program_id()
        || accounts[ACTOR_POSITION as int].key@ == rewards_program_id()
    &&& accounts[ACTOR_POSITION as int].executable
}

/// A request that its owner did not sign is rejected for that reason, before
/// any record is read or any account touched.
pub proof fn lemma_unsigned_request_rejected(
    accounts: Seq<AccountRef>,
    facts: WithdrawFacts,
    record: OwnerRecord,
)
    requires
        accounts.len() >= GOVERNANCE_ACCOUNTS,
        !accounts[3].is_signer,
    ensures
        withdraw_error(accounts, facts, record) == Some(GovernanceError::OwnerSignatureMissing),
{
}

/// A request whose reward-accrual program is neither accepted program, or is
/// not executable, is rejected; where every other gate passes, with the
/// identity error.
pub proof fn lemma_unaccepted_actor_rejected(
    accounts: Seq<AccountRef>,
    facts: WithdrawFacts,
    record: OwnerRecord,
)
    requires
        accounts.len() >= REWARD_GROUPS_START,
        !actor_accepted(accounts),
    ensures
        withdraw_error(accounts, facts, record) is Some,
        authorized(accounts, facts, record) ==> withdraw_error(accounts, facts, record) == Some(
            GovernanceError::InvalidDelegateActor,
        ),
{
    assert(actor_block(accounts)[0] == accounts[ACTOR_POSITION as int]);
}

/// A request whose trailing reward-token accounts do not form whole groups of
/// four is rejected; where every gate before the delegated call passes and the
/// program is accepted, with the structural error.
pub proof fn lemma_partial_reward_group_rejected(
    accounts: Seq<AccountRef>,
    facts: WithdrawFacts,
    record: OwnerRecord,
)
    requires
        accounts.len() >= REWARD_GROUPS_START,
        (accounts.len() - REWARD_GROUPS_START) % 4 != 0,
    ensures
        withdraw_error(accounts, facts, record) is Some,
        authorized(accounts, facts, record) && actor_accepted(accounts) ==> withdraw_error(
            accounts,
            facts,
            record,
        ) == Some(GovernanceError::MalformedRewardGroups),
{
    assert(actor_block(accounts)[0] == accounts[ACTOR_POSITION as int]);
    assert(reward_groups(accounts).len() == accounts.len() - REWARD_GROUPS_START);
}

} // verus!
