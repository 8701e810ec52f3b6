//! Plain descriptions of accounts and of a delegated call.
use vstd::prelude::*;
use crate::key::Key;

verus! {

/// An account handed to the withdrawal: its address and the flags the
/// runtime reports for it.
#[derive(Clone, Copy, Debug)]
pub struct AccountRef {
    pub key: Key,
    pub is_signer: bool,
    pub is_writable: bool,
    pub executable: bool,
}

/// One account of a delegated call, with the rights the call asks for it.
#[derive(Clone, Copy, Debug)]
pub struct AccountMeta {
    pub pubkey: Key,
    pub is_signer: bool,
    pub is_writable: bool,
}

/// The metadata of a writable account.
pub open spec fn writable_meta(pubkey: Key, is_signer: bool) -> AccountMeta {
    AccountMeta { pubkey, is_signer, is_writable: true }
}

/// The metadata of a read-only account.
pub open spec fn readonly_meta(pubkey: Key, is_signer: bool) -> AccountMeta {
    AccountMeta { pubkey, is_signer, is_writable: false }
}

impl AccountMeta {
    /// A writable account.
    pub fn new(pubkey: Key, is_signer: bool) -> (r: AccountMeta)
        ensures
            r == writable_meta(pubkey, is_signer),
    {
        AccountMeta { pubkey, is_signer, is_writable: true }
    }

    /// A read-only account.
    pub fn new_readonly(pubkey: Key, is_signer: bool) -> (r: AccountMeta)
        ensures
            r == readonly_meta(pubkey, is_signer),
    {
        AccountMeta { pubkey, is_signer, is_writable: false }
    }
}

/// A delegated call: the program to call, its accounts in order, and the
/// instruction data (a method selector).
#[derive(Debug)]
pub struct Invocation {
    pub program_id: Key,
    pub accounts: Vec<AccountMeta>,
    pub data: Vec<u8>,
}

} // verus!
