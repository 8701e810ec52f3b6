use std::str::FromStr;

use solana_program::pubkey::Pubkey;
use withdraw_governance::key::{folio_program_key, rewards_program_key};
use withdraw_governance::selector::{
    instruction_discriminator, selector_from_digest, selector_preimage,
};
use withdraw_governance::{
    process_withdraw_governing_tokens, AccountRef, FolioProgram, GovernanceError, Key,
    OwnerRecord, RewardsProgram, WithdrawFacts,
};

const ACCRUE_REWARDS_SELECTOR: [u8; 8] = [197, 188, 54, 32, 63, 34, 71, 215];

fn key(n: u8) -> Key {
    Key::new([n; 32])
}

fn account(n: u8) -> AccountRef {
    AccountRef { key: key(n), is_signer: false, is_writable: false, executable: false }
}

fn program(k: Key, executable: bool) -> AccountRef {
    AccountRef { key: k, is_signer: false, is_writable: false, executable }
}

/// A well-formed withdrawal with `groups` trailing reward-token groups, and
/// `actor` as the reward-accrual program.
fn withdrawal_accounts(actor: AccountRef, groups: usize) -> Vec<AccountRef> {
    let mut accounts: Vec<AccountRef> = (0..8u8).map(account).collect();
    accounts[3].is_signer = true;
    accounts.push(actor);
    for n in 9..14u8 {
        accounts.push(account(n));
    }
    for n in 0..(4 * groups) as u8 {
        accounts.push(account(100 + n));
    }
    accounts
}

fn folio_accounts(groups: usize) -> Vec<AccountRef> {
    withdrawal_accounts(program(folio_program_key(), true), groups)
}

fn permissive_facts() -> WithdrawFacts {
    WithdrawFacts { realm_matches: true, withdrawal_permitted: true, unix_timestamp: 1_700_000_000 }
}

fn record(amount: u64) -> OwnerRecord {
    OwnerRecord {
        governing_token_deposit_amount: amount,
        unrelinquished_votes_count: 0,
        lock_expiries: Vec::new(),
    }
}

fn assert_meta(meta: &withdraw_governance::AccountMeta, k: Key, writable: bool, signer: bool) {
    assert_eq!(meta.pubkey.bytes, k.bytes);
    assert_eq!(meta.is_writable, writable);
    assert_eq!(meta.is_signer, signer);
}

#[test]
fn selector_of_accrue_rewards() {
    assert_eq!(instruction_discriminator("accrue_rewards"), ACCRUE_REWARDS_SELECTOR);
}

#[test]
fn selector_is_stable_across_calls() {
    let first = instruction_discriminator("accrue_rewards");
    let second = instruction_discriminator("accrue_rewards");
    assert_eq!(first, second);
    assert_ne!(instruction_discriminator("accrue_reward"), first);
}

#[test]
fn selector_preimage_has_namespace() {
    assert_eq!(selector_preimage("accrue_rewards"), b"global:accrue_rewards".to_vec());
    assert_eq!(selector_preimage(""), b"global:".to_vec());
}

#[test]
fn selector_is_head_of_digest() {
    let mut digest = [0u8; 32];
    for (i, b) in digest.iter_mut().enumerate() {
        *b = i as u8 + 1;
    }
    assert_eq!(selector_from_digest(&digest), [1, 2, 3, 4, 5, 6, 7, 8]);
}

#[test]
fn program_addresses_match_their_names() {
    let folio = Pubkey::from_str("n6sR7Eg5LMg5SGorxK9q3ZePHs9e8gjoQ7TgUW2YCaG").unwrap();
    let rewards = Pubkey::from_str("7GiMvNDHVY8PXWQLHjSf1REGKpiDsVzRr4p7Y3xGbSuf").unwrap();
    assert_eq!(folio_program_key().bytes, folio.to_bytes());
    assert_eq!(rewards_program_key().bytes, rewards.to_bytes());
}

#[test]
fn keys_compare_by_bytes() {
    assert!(key(1).same_as(&key(1)));
    assert!(!key(1).same_as(&key(2)));
    let mut bytes = [7u8; 32];
    bytes[31] = 8;
    assert!(!key(7).same_as(&Key::new(bytes)));
}

#[test]
fn valid_withdrawal_without_reward_groups() {
    let accounts = folio_accounts(0);
    let mut rec = record(1_000);
    let plan = process_withdraw_governing_tokens(&accounts, &permissive_facts(), &mut rec).unwrap();
    assert_eq!(rec.governing_token_deposit_amount, 0);
    assert_eq!(plan.transfer.amount, 1_000);
    assert_eq!(plan.transfer.source.bytes, key(1).bytes);
    assert_eq!(plan.transfer.destination.bytes, key(2).bytes);
    assert_eq!(plan.transfer.authority.bytes, key(0).bytes);

    let call = &plan.accrual_call;
    assert_eq!(call.program_id.bytes, folio_program_key().bytes);
    assert_eq!(call.data, ACCRUE_REWARDS_SELECTOR.to_vec());
    assert_eq!(call.accounts.len(), 12);
    assert_meta(&call.accounts[0], key(7), false, false);
    assert_meta(&call.accounts[1], key(5), false, false);
    assert_meta(&call.accounts[2], key(3), true, true);
    for (i, n) in (9..14u8).enumerate() {
        assert_meta(&call.accounts[3 + i], key(n), false, false);
    }
    assert_meta(&call.accounts[8], key(1), false, false);
    assert_meta(&call.accounts[9], key(4), false, false);
    assert_meta(&call.accounts[10], key(3), true, true);
    assert_meta(&call.accounts[11], key(3), true, true);
}

#[test]
fn valid_withdrawal_with_two_reward_groups() {
    let accounts = folio_accounts(2);
    let mut rec = record(1_000);
    let plan = process_withdraw_governing_tokens(&accounts, &permissive_facts(), &mut rec).unwrap();
    assert_eq!(rec.governing_token_deposit_amount, 0);
    let call = &plan.accrual_call;
    assert_eq!(call.accounts.len(), 20);
    for i in 0..8usize {
        let writable = i % 4 == 1 || i % 4 == 3;
        assert_meta(&call.accounts[12 + i], key(100 + i as u8), writable, false);
    }
}

#[test]
fn valid_withdrawal_through_rewards_program() {
    let accounts = withdrawal_accounts(program(rewards_program_key(), true), 1);
    let mut rec = record(42);
    let plan = process_withdraw_governing_tokens(&accounts, &permissive_facts(), &mut rec).unwrap();
    assert_eq!(rec.governing_token_deposit_amount, 0);
    assert_eq!(plan.transfer.amount, 42);
    let call = &plan.accrual_call;
    assert_eq!(call.program_id.bytes, rewards_program_key().bytes);
    assert_eq!(call.accounts.len(), 14);
    assert_meta(&call.accounts[2], key(3), true, true);
    assert_meta(&call.accounts[3], key(0), false, false);
    assert_meta(&call.accounts[4], key(9), false, false);
    assert_meta(&call.accounts[5], key(10), false, false);
    assert_meta(&call.accounts[6], key(1), false, false);
    assert_meta(&call.accounts[7], key(4), false, false);
    assert_meta(&call.accounts[9], key(3), true, true);
    assert_meta(&call.accounts[10], key(100), false, false);
    assert_meta(&call.accounts[11], key(101), true, false);
}

#[test]
fn active_lock_blocks_withdrawal() {
    let accounts = folio_accounts(0);
    let facts = permissive_facts();
    let mut rec = record(1_000);
    rec.lock_expiries.push(Some(facts.unix_timestamp + 60));
    let err = process_withdraw_governing_tokens(&accounts, &facts, &mut rec).unwrap_err();
    assert_eq!(err, GovernanceError::WithdrawalBlockedByActiveLockOrVote);
    assert_eq!(rec.governing_token_deposit_amount, 1_000);
}

#[test]
fn lock_without_expiry_blocks_withdrawal() {
    let accounts = folio_accounts(0);
    let mut rec = record(5);
    rec.lock_expiries.push(None);
    let err = process_withdraw_governing_tokens(&accounts, &permissive_facts(), &mut rec).unwrap_err();
    assert_eq!(err, GovernanceError::WithdrawalBlockedByActiveLockOrVote);
    assert_eq!(rec.governing_token_deposit_amount, 5);
}

#[test]
fn expired_lock_allows_withdrawal() {
    let accounts = folio_accounts(0);
    let facts = permissive_facts();
    let mut rec = record(5);
    rec.lock_expiries.push(Some(facts.unix_timestamp));
    rec.lock_expiries.push(Some(facts.unix_timestamp - 1));
    let plan = process_withdraw_governing_tokens(&accounts, &facts, &mut rec).unwrap();
    assert_eq!(plan.transfer.amount, 5);
    assert_eq!(rec.governing_token_deposit_amount, 0);
    assert_eq!(rec.lock_expiries.len(), 2);
}

#[test]
fn outstanding_votes_block_withdrawal() {
    let accounts = folio_accounts(0);
    let mut rec = record(5);
    rec.unrelinquished_votes_count = 1;
    let err = process_withdraw_governing_tokens(&accounts, &permissive_facts(), &mut rec).unwrap_err();
    assert_eq!(err, GovernanceError::WithdrawalBlockedByActiveLockOrVote);
    assert_eq!(rec.governing_token_deposit_amount, 5);
}

#[test]
fn non_executable_actor_is_rejected() {
    let accounts = withdrawal_accounts(program(folio_program_key(), false), 0);
    let mut rec = record(1_000);
    let err = process_withdraw_governing_tokens(&accounts, &permissive_facts(), &mut rec).unwrap_err();
    assert_eq!(err, GovernanceError::InvalidDelegateActor);
    assert_eq!(rec.governing_token_deposit_amount, 1_000);
}

#[test]
fn unknown_actor_is_rejected() {
    let accounts = withdrawal_accounts(program(key(99), true), 1);
    let mut rec = record(1_000);
    let err = process_withdraw_governing_tokens(&accounts, &permissive_facts(), &mut rec).unwrap_err();
    assert_eq!(err, GovernanceError::InvalidDelegateActor);
    assert_eq!(rec.governing_token_deposit_amount, 1_000);
}

#[test]
fn unsigned_request_is_rejected() {
    let mut accounts = folio_accounts(0);
    accounts[3].is_signer = false;
    let mut rec = record(1_000);
    let err = process_withdraw_governing_tokens(&accounts, &permissive_facts(), &mut rec).unwrap_err();
    assert_eq!(err, GovernanceError::OwnerSignatureMissing);
    assert_eq!(rec.governing_token_deposit_amount, 1_000);
}

#[test]
fn partial_reward_group_is_rejected() {
    for extra in [1usize, 2, 3, 5] {
        let mut accounts = folio_accounts(0);
        for n in 0..extra as u8 {
            accounts.push(account(100 + n));
        }
        let mut rec = record(1_000);
        let err =
            process_withdraw_governing_tokens(&accounts, &permissive_facts(), &mut rec).unwrap_err();
        assert_eq!(err, GovernanceError::MalformedRewardGroups);
        assert_eq!(rec.governing_token_deposit_amount, 1_000);
    }
}

#[test]
fn mismatched_realm_is_rejected() {
    let accounts = folio_accounts(0);
    let facts = WithdrawFacts { realm_matches: false, ..permissive_facts() };
    let mut rec = record(3);
    let err = process_withdraw_governing_tokens(&accounts, &facts, &mut rec).unwrap_err();
    assert_eq!(err, GovernanceError::InvalidRealmOrMint);
    assert_eq!(rec.governing_token_deposit_amount, 3);
}

#[test]
fn policy_forbidding_withdrawal_is_rejected() {
    let accounts = folio_accounts(0);
    let facts = WithdrawFacts { withdrawal_permitted: false, ..permissive_facts() };
    let mut rec = record(3);
    let err = process_withdraw_governing_tokens(&accounts, &facts, &mut rec).unwrap_err();
    assert_eq!(err, GovernanceError::WithdrawalNotPermittedByPolicy);
}

#[test]
fn short_account_lists_are_rejected() {
    let full = folio_accounts(0);
    for len in [0usize, 6, 7, 13] {
        let mut rec = record(3);
        let err = process_withdraw_governing_tokens(&full[..len], &permissive_facts(), &mut rec)
            .unwrap_err();
        assert_eq!(err, GovernanceError::NotEnoughAccounts);
        assert_eq!(rec.governing_token_deposit_amount, 3);
    }
}

#[test]
fn signature_is_checked_before_account_count() {
    let mut accounts = folio_accounts(0);
    accounts.truncate(8);
    accounts[3].is_signer = false;
    let mut rec = record(3);
    let err = process_withdraw_governing_tokens(&accounts, &permissive_facts(), &mut rec).unwrap_err();
    assert_eq!(err, GovernanceError::OwnerSignatureMissing);
}

#[test]
fn builders_check_their_own_program() {
    let a = account(1);
    let rewards_block = [program(rewards_program_key(), true), account(9), account(10)];
    let err = FolioProgram::accrue_rewards(&a, &a, &a, &a, &a, &a, &rewards_block, &[]).unwrap_err();
    assert_eq!(err, GovernanceError::InvalidDelegateActor);
    let call = RewardsProgram::accrue_rewards(&a, &a, &a, &a, &a, &a, &rewards_block, &[]).unwrap();
    assert_eq!(call.accounts.len(), 10);
    let short = [program(rewards_program_key(), true), account(9)];
    let err = RewardsProgram::accrue_rewards(&a, &a, &a, &a, &a, &a, &short, &[]).unwrap_err();
    assert_eq!(err, GovernanceError::NotEnoughAccounts);
    let err = RewardsProgram::accrue_rewards(&a, &a, &a, &a, &a, &a, &[], &[]).unwrap_err();
    assert_eq!(err, GovernanceError::NotEnoughAccounts);
}
