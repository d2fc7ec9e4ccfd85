//! Accounts as the dispatcher sees them: the handle that the calling program holds,
//! and the two projections that cross into the host.

use solana_program::pubkey::Pubkey;
use vstd::prelude::*;

verus! {

/// One account that is visible to the calling program, for the length of one call.
///
/// The handle carries what the dispatcher reads. The account's byte buffer stays with
/// the embedding program: of the buffer, only the length is known here.
#[derive(Clone, Copy, Debug, PartialEq, Eq)]
pub struct AccountHandle {
    /// The account's identifier.
    pub key: Pubkey,
    /// The program that owns the account.
    pub owner: Pubkey,
    /// The token balance.
    pub lamports: u64,
    /// The length of the account's byte buffer.
    pub data_len: usize,
    /// Whether the account signed the transaction.
    pub is_signer: bool,
    /// Whether the account may be written to.
    pub is_writable: bool,
    /// Whether the buffer holds a loaded program.
    pub executable: bool,
}

/// What an instruction asks of one account: who it is, and whether it is written to
/// and whether it signs.
#[derive(Clone, Copy, Debug, PartialEq, Eq)]
pub struct AccountMeta {
    /// The account's identifier.
    pub pubkey: Pubkey,
    /// Whether the instruction writes to the account.
    pub is_writable: bool,
    /// Whether the account signs the instruction.
    pub is_signer: bool,
}

/// The wire form of a handle: what the host is told of one account.
#[derive(Clone, Copy, Debug, PartialEq, Eq)]
pub struct AccountRecord {
    /// The account's identifier.
    pub key: Pubkey,
    /// The token balance.
    pub lamports: u64,
    /// The length of the account's byte buffer.
    pub data_len: u64,
    /// The program that owns the account.
    pub owner: Pubkey,
    /// The epoch at which rent is next due; always 0 in a record made here.
    pub rent_epoch: u64,
    /// Whether the account signed the transaction.
    pub is_signer: bool,
    /// Whether the account may be written to.
    pub is_writable: bool,
    /// Whether the buffer holds a loaded program.
    pub executable: bool,
}

impl AccountMeta {
    /// An account that is only read and does not sign.
    pub fn readonly(pubkey: Pubkey) -> (meta: AccountMeta)
        ensures
            meta == (AccountMeta { pubkey, is_writable: false, is_signer: false }),
    {
        AccountMeta { pubkey, is_writable: false, is_signer: false }
    }

    /// An account that is written to and does not sign.
    pub fn writable(pubkey: Pubkey) -> (meta: AccountMeta)
        ensures
            meta == (AccountMeta { pubkey, is_writable: true, is_signer: false }),
    {
        AccountMeta { pubkey, is_writable: true, is_signer: false }
    }

    /// An account that is only read and signs.
    pub fn readonly_signer(pubkey: Pubkey) -> (meta: AccountMeta)
        ensures
            meta == (AccountMeta { pubkey, is_writable: false, is_signer: true }),
    {
        AccountMeta { pubkey, is_writable: false, is_signer: true }
    }

    /// An account that is written to and signs.
    pub fn writable_signer(pubkey: Pubkey) -> (meta: AccountMeta)
        ensures
            meta == (AccountMeta { pubkey, is_writable: true, is_signer: true }),
    {
        AccountMeta { pubkey, is_writable: true, is_signer: true }
    }
}

impl AccountHandle {
    /// The record of this handle: every field carried over, and no rent epoch.
    pub open spec fn record(&self) -> AccountRecord {
        AccountRecord {
            key: self.key,
            lamports: self.lamports,
            data_len: self.data_len as u64,
            owner: self.owner,
            rent_epoch: 0,
            is_signer: self.is_signer,
            is_writable: self.is_writable,
            executable: self.executable,
        }
    }

    /// Projects the handle into its wire form.
    pub fn to_record(&self) -> (record: AccountRecord)
        ensures
            record == self.record(),
    {
        AccountRecord {
            key: self.key,
            lamports: self.lamports,
            data_len: self.data_len as u64,
            owner: self.owner,
            rent_epoch: 0,
            is_signer: self.is_signer,
            is_writable: self.is_writable,
            executable: self.executable,
        }
    }
}

} // verus!
