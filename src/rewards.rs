//! Delegated reward-accrual calls into one of two accepted programs.
//!
//! Both programs take the same call, `accrue_rewards`, and differ only in their
//! address and in the fixed accounts between the caller's and the holding's:
//! one builder, parametrized by an [`ActorProfile`], serves both.
use vstd::prelude::*;
use vstd::string::StringSliceAdditionalSpecFns;
use crate::account::{readonly_meta, writable_meta, AccountMeta, AccountRef, Invocation};
use crate::error::GovernanceError;
use crate::key::{folio_program_id, folio_program_key, rewards_program_id, rewards_program_key, Key};
use crate::selector::{instruction_discriminator, selector_of};

verus! {

/// Accounts in each trailing group of reward-token accounts: the reward
/// mint, its reward info, the custody reward-token account, and the caller's
/// reward info.
pub const REWARD_GROUP_SIZE: usize = 4;

/// What tells the accepted reward-accrual programs apart.
#[derive(Clone, Copy, Debug)]
pub struct ActorProfile {
    /// The only address accepted for the program.
    pub program_id: Key,
    /// Whether the realm goes before the program's own fixed accounts.
    pub passes_realm: bool,
    /// How many fixed accounts of the program follow its address.
    pub actor_account_count: usize,
}

/// The bytes of the method name of the delegated call.
pub open spec fn accrue_rewards_name() -> Seq<u8> {
    "accrue_rewards".spec_bytes()
}

/// Why the accounts handed to a builder are refused, if they are: `accounts`
/// starts with the program's address and goes on with its fixed accounts;
/// `trailing` holds the reward-token groups.
pub open spec fn accrual_error(
    id: Seq<u8>,
    count: nat,
    accounts: Seq<AccountRef>,
    trailing: Seq<AccountRef>,
) -> Option<GovernanceError> {
    if accounts.len() == 0 {
        Some(GovernanceError::NotEnoughAccounts)
    } else if accounts[0].key@ != id || !accounts[0].executable {
        Some(GovernanceError::InvalidDelegateActor)
    } else if accounts.len() < 1 + count {
        Some(GovernanceError::NotEnoughAccounts)
    } else if trailing.len() % (REWARD_GROUP_SIZE as nat) != 0 {
        Some(GovernanceError::MalformedRewardGroups)
    } else {
        None
    }
}

/// An account the delegated call only reads.
pub open spec fn read_only(a: AccountRef) -> AccountMeta {
    readonly_meta(a.key, false)
}

/// The withdrawing owner, who signs and may be written.
pub open spec fn acting_owner(a: AccountRef) -> AccountMeta {
    writable_meta(a.key, true)
}

/// The fixed accounts of the delegated call. The owner stands in three
/// places: as the caller, as the user, and as the user's token account.
pub open spec fn accrual_fixed_metas(
    passes_realm: bool,
    count: nat,
    realm: AccountRef,
    system: AccountRef,
    token_program: AccountRef,
    owner: AccountRef,
    holding: AccountRef,
    owner_record: AccountRef,
    accounts: Seq<AccountRef>,
) -> Seq<AccountMeta> {
    seq![read_only(system), read_only(token_program), acting_owner(owner)]
        + (if passes_realm { seq![read_only(realm)] } else { Seq::empty() })
        + accounts.subrange(1, 1 + count as int).map_values(|a: AccountRef| read_only(a))
        + seq![read_only(holding), read_only(owner_record), acting_owner(owner), acting_owner(owner)]
}

/// The metadata of the trailing account at `position`: the reward infos
/// (second and fourth of each group) are writable, the others read-only, and
/// none signs.
pub open spec fn reward_group_meta(a: AccountRef, position: int) -> AccountMeta {
    AccountMeta {
        pubkey: a.key,
        is_signer: false,
        is_writable: position % 4 == 1 || position % 4 == 3,
    }
}

/// The metadata of all trailing reward-token accounts, in order.
pub open spec fn reward_group_metas(trailing: Seq<AccountRef>) -> Seq<AccountMeta> {
    Seq::new(trailing.len(), |i: int| reward_group_meta(trailing[i], i))
}

/// `inv` is the delegated accrual call for these accounts.
pub open spec fn is_accrual_call(
    inv: Invocation,
    passes_realm: bool,
    count: nat,
    realm: AccountRef,
    system: AccountRef,
    token_program: AccountRef,
    owner: AccountRef,
    holding: AccountRef,
    owner_record: AccountRef,
    accounts: Seq<AccountRef>,
    trailing: Seq<AccountRef>,
) -> bool {
    &&& inv.program_id == accounts[0].key
    &&& inv.accounts@ == accrual_fixed_metas(
        passes_realm,
        count,
        realm,
        system,
        token_program,
        owner,
        holding,
        owner_record,
        accounts,
    ) + reward_group_metas(trailing)
    &&& inv.data@ == selector_of(accrue_rewards_name())
}

/// Checks the reward-accrual program against `profile` and builds the
/// delegated `accrue_rewards` call. `accounts` starts with the program's
/// address, followed by its fixed accounts; `reward_token_accounts` holds
/// whole groups of four.
pub fn accrue_rewards_for(
    profile: &ActorProfile,
    realm_info: &AccountRef,
    system_info: &AccountRef,
    spl_token_info: &AccountRef,
    governing_token_owner_info: &AccountRef,
    governing_token_holding_info: &AccountRef,
    token_owner_record_info: &AccountRef,
    accounts: &[AccountRef],
    reward_token_accounts: &[AccountRef],
) -> (r: Result<Invocation, GovernanceError>)
    ensures
        match r {
            Ok(inv) => {
                &&& accrual_error(
                    profile.program_id@,
                    profile.actor_account_count as nat,
                    accounts@,
                    reward_token_accounts@,
                ) is None
                &&& is_accrual_call(
                    inv,
                    profile.passes_realm,
                    profile.actor_account_count as nat,
                    *realm_info,
                    *system_info,
                    *spl_token_info,
                    *governing_token_owner_info,
                    *governing_token_holding_info,
                    *token_owner_record_info,
                    accounts@,
                    reward_token_accounts@,
                )
            },
            Err(e) => accrual_error(
                profile.program_id@,
                profile.actor_account_count as nat,
                accounts@,
                reward_token_accounts@,
            ) == Some(e),
        },
{
    if accounts.len() == 0 {
        return Err(GovernanceError::NotEnoughAccounts);
    }
    let program_info = &accounts[0];
    if !program_info.key.same_as(&profile.program_id) || !program_info.executable {
        return Err(GovernanceError::InvalidDelegateActor);
    }
    let count = profile.actor_account_count;
    if accounts.len() - 1 < count {
        return Err(GovernanceError::NotEnoughAccounts);
    }
    let n = reward_token_accounts.len();
    if n % REWARD_GROUP_SIZE != 0 {
        return Err(GovernanceError::MalformedRewardGroups);
    }

    let ghost head: Seq<AccountMeta> = seq![
        read_only(*system_info),
        read_only(*spl_token_info),
        acting_owner(*governing_token_owner_info),
    ] + (if profile.passes_realm { seq![read_only(*realm_info)] } else { Seq::empty() });

    let mut metas: Vec<AccountMeta> = Vec::new();
    metas.push(AccountMeta::new_readonly(system_info.key, false));
    metas.push(AccountMeta::new_readonly(spl_token_info.key, false));
    metas.push(AccountMeta::new(governing_token_owner_info.key, true));
    if profile.passes_realm {
        metas.push(AccountMeta::new_readonly(realm_info.key, false));
    }
    assert(metas@ =~= head);

    let mut i: usize = 1;
    while i <= count
        invariant
            1 <= i <= count + 1,
            count + 1 <= accounts@.len(),
            metas@ == head + accounts@.subrange(1, i as int).map_values(
                |a: AccountRef| read_only(a),
            ),
        decreases count + 1 - i,
    {
        metas.push(AccountMeta::new_readonly(accounts[i].key, false));
        i = i + 1;
        assert(metas@ =~= head + accounts@.subrange(1, i as int).map_values(
            |a: AccountRef| read_only(a),
        ));
    }
    metas.push(AccountMeta::new_readonly(governing_token_holding_info.key, false));
    metas.push(AccountMeta::new_readonly(token_owner_record_info.key, false));
    metas.push(AccountMeta::new(governing_token_owner_info.key, true));
    metas.push(AccountMeta::new(governing_token_owner_info.key, true));

    let ghost fixed = accrual_fixed_metas(
        profile.passes_realm,
        count as nat,
        *realm_info,
        *system_info,
        *spl_token_info,
        *governing_token_owner_info,
        *governing_token_holding_info,
        *token_owner_record_info,
        accounts@,
    );
    assert(metas@ =~= fixed);

    let ghost trailing = reward_token_accounts@;
    let mut base: usize = 0;
    while base < n
        invariant
            base <= n,
            trailing == reward_token_accounts@,
            n == trailing.len(),
            n % 4 == 0,
            base % 4 == 0,
            metas@ == fixed + reward_group_metas(trailing.subrange(0, base as int)),
        decreases n - base,
    {
        assert(base + 4 <= n);
        let reward_token_mint = &reward_token_accounts[base];
        let reward_info_for_token_mint = &reward_token_accounts[base + 1];
        let reward_token_custody = &reward_token_accounts[base + 2];
        let reward_info_for_caller = &reward_token_accounts[base + 3];

        metas.push(AccountMeta::new_readonly(reward_token_mint.key, false));
        metas.push(AccountMeta::new(reward_info_for_token_mint.key, false));
        metas.push(AccountMeta::new_readonly(reward_token_custody.key, false));
        metas.push(AccountMeta::new(reward_info_for_caller.key, false));
        base = base + 4;
        assert(metas@ =~= fixed + reward_group_metas(trailing.subrange(0, base as int)));
    }
    assert(trailing.subrange(0, n as int) =~= trailing);

    let selector = instruction_discriminator("accrue_rewards");
    let data: Vec<u8> = vec![
        selector[0], selector[1], selector[2], selector[3],
        selector[4], selector[5], selector[6], selector[7],
    ];
    assert(data@ =~= selector@);
    Ok(Invocation { program_id: program_info.key, accounts: metas, data })
}

/// Fixed accounts of the Folio program after its address: the folio's
/// owner, the actor, the folio, the folio's reward tokens and the governing
/// token mint.
pub const FOLIO_ACTOR_ACCOUNTS: usize = 5;

/// Fixed accounts of the Rewards program after its address: its reward
/// tokens and the governing token mint. The realm goes before them.
pub const REWARDS_ACTOR_ACCOUNTS: usize = 2;

/// The Folio reward-accrual program.
pub struct FolioProgram {}

impl FolioProgram {
    /// The Folio program's address and fixed accounts.
    pub fn profile() -> (p: ActorProfile)
        ensures
            p.program_id@ == folio_program_id(),
            !p.passes_realm,
            p.actor_account_count == FOLIO_ACTOR_ACCOUNTS,
    {
        ActorProfile {
            program_id: folio_program_key(),
            passes_realm: false,
            actor_account_count: FOLIO_ACTOR_ACCOUNTS,
        }
    }

    /// Checks that `accounts` starts with the executable Folio program and
    /// builds its `accrue_rewards` call for the withdrawing owner.
    pub fn accrue_rewards(
        realm_info: &AccountRef,
        system_info: &AccountRef,
        spl_token_info: &AccountRef,
        governing_token_owner_info: &AccountRef,
        governing_token_holding_info: &AccountRef,
        token_owner_record_info: &AccountRef,
        accounts: &[AccountRef],
        reward_token_accounts: &[AccountRef],
    ) -> (r: Result<Invocation, GovernanceError>)
        ensures
            match r {
                Ok(inv) => {
                    &&& accrual_error(
                        folio_program_id(),
                        FOLIO_ACTOR_ACCOUNTS as nat,
                        accounts@,
                        reward_token_accounts@,
                    ) is None
                    &&& is_accrual_call(
                        inv,
                        false,
                        FOLIO_ACTOR_ACCOUNTS as nat,
                        *realm_info,
                        *system_info,
                        *spl_token_info,
                        *governing_token_owner_info,
                        *governing_token_holding_info,
                        *token_owner_record_info,
                        accounts@,
                        reward_token_accounts@,
                    )
                },
                Err(e) => accrual_error(
                    folio_program_id(),
                    FOLIO_ACTOR_ACCOUNTS as nat,
                    accounts@,
                    reward_token_accounts@,
                ) == Some(e),
            },
    {
        accrue_rewards_for(
            &FolioProgram::profile(),
            realm_info,
            system_info,
            spl_token_info,
            governing_token_owner_info,
            governing_token_holding_info,
            token_owner_record_info,
            accounts,
            reward_token_accounts,
        )
    }
}

/// The Rewards reward-accrual program.
pub struct RewardsProgram {}

impl RewardsProgram {
    /// The Rewards program's address and fixed accounts.
    pub fn profile() -> (p: ActorProfile)
        ensures
            p.program_id@ == rewards_program_id(),
            p.passes_realm,
            p.actor_account_count == REWARDS_ACTOR_ACCOUNTS,
    {
        ActorProfile {
            program_id: rewards_program_key(),
            passes_realm: true,
            actor_account_count: REWARDS_ACTOR_ACCOUNTS,
        }
    }

    /// Checks that `accounts` starts with the executable Rewards program and
    /// builds its `accrue_rewards` call for the withdrawing owner.
    pub fn accrue_rewards(
        realm_info: &AccountRef,
        system_info: &AccountRef,
        spl_token_info: &AccountRef,
        governing_token_owner_info: &AccountRef,
        governing_token_holding_info: &AccountRef,
        token_owner_record_info: &AccountRef,
        accounts: &[AccountRef],
        reward_token_accounts: &[AccountRef],
    ) -> (r: Result<Invocation, GovernanceError>)
        ensures
            match r {
                Ok(inv) => {
                    &&& accrual_error(
                        rewards_program_id(),
                        REWARDS_ACTOR_ACCOUNTS as nat,
                        accounts@,
                        reward_token_accounts@,
                    ) is None
                    &&& is_accrual_call(
                        inv,
                        true,
                        REWARDS_ACTOR_ACCOUNTS as nat,
                        *realm_info,
                        *system_info,
                        *spl_token_info,
                        *governing_token_owner_info,
                        *governing_token_holding_info,
                        *token_owner_record_info,
                        accounts@,
                        reward_token_accounts@,
                    )
                },
                Err(e) => accrual_error(
                    rewards_program_id(),
                    REWARDS_ACTOR_ACCOUNTS as nat,
                    accounts@,
                    reward_token_accounts@,
                ) == Some(e),
            },
    {
        accrue_rewards_for(
            &RewardsProgram::profile(),
            realm_info,
            system_info,
            spl_token_info,
            governing_token_owner_info,
            governing_token_holding_info,
            token_owner_record_info,
            accounts,
            reward_token_accounts,
        )
    }
}

} // verus!
