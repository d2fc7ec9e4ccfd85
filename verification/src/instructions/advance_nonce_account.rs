//! Consume a stored nonce, replacing it with a successor.

use crate::account::{AccountHandle, AccountMeta};
use crate::dispatch::{
    invoke_signed, no_seeds, seeds_view, Instruction, Invocation, InvokeError,
};
use crate::instructions::{is_system_call, system_instruction};
use crate::key::{key_seq, zero_key};
use vstd::prelude::*;

verus! {

/// Consumes a stored nonce, replacing it with a successor.
///
/// Accounts:
///   0. writable: the nonce account
///   1. read-only: the recent-blockhashes sysvar
///   2. signer: the nonce authority
pub struct AdvanceNonceAccount<'a> {
    /// Nonce account.
    pub account: &'a AccountHandle,
    /// Recent-blockhashes sysvar.
    pub recent_blockhashes_sysvar: &'a AccountHandle,
    /// Nonce authority.
    pub authority: &'a AccountHandle,
}

impl<'a> AdvanceNonceAccount<'a> {
    /// The operation's discriminator.
    pub const DISCRIMINATOR: u8 = 4;

    /// The length of the operation's bytes.
    pub const DATA_LEN: usize = 1;

    /// The account requirements.
    pub open spec fn metas(&self) -> Seq<AccountMeta> {
        seq![
            AccountMeta { pubkey: self.account.key, is_writable: true, is_signer: false },
            AccountMeta {
                pubkey: self.recent_blockhashes_sysvar.key,
                is_writable: false,
                is_signer: false,
            },
            AccountMeta { pubkey: self.authority.key, is_writable: false, is_signer: true },
        ]
    }

    /// The operation's bytes: the discriminator alone, in one byte.
    pub open spec fn data(&self) -> Seq<u8> {
        seq![Self::DISCRIMINATOR]
    }

    /// The accounts, in the order in which the host receives them.
    pub open spec fn accounts(&self) -> Seq<&AccountHandle> {
        seq![self.account, self.recent_blockhashes_sysvar, self.authority]
    }

    /// Encodes the operation as a descriptor for the system program.
    pub fn instruction(&self) -> (instruction: Instruction)
        ensures
            key_seq(instruction@.program_id) == zero_key(),
            instruction@.accounts == self.metas(),
            instruction@.data == self.data(),
            instruction@.data[0] == Self::DISCRIMINATOR,
            instruction@.data.len() == Self::DATA_LEN,
    {
        let mut accounts: Vec<AccountMeta> = Vec::with_capacity(3);
        accounts.push(AccountMeta::writable(self.account.key));
        accounts.push(AccountMeta::readonly(self.recent_blockhashes_sysvar.key));
        accounts.push(AccountMeta::readonly_signer(self.authority.key));

        let mut data: Vec<u8> = Vec::with_capacity(Self::DATA_LEN);
        data.push(Self::DISCRIMINATOR);
        proof {
            assert(data@ =~= self.data());
            assert(accounts@ =~= self.metas());
        }
        system_instruction(accounts, data)
    }

    /// Lays out the call without seed sets: `invoke_signed` with an empty list.
    pub fn invoke(&self) -> (result: Result<Invocation<'static>, InvokeError>)
        ensures
            result matches Ok(call) && is_system_call(
                call@,
                self.metas(),
                self.data(),
                self.accounts(),
                Seq::empty(),
            ),
    {
        self.invoke_signed(no_seeds())
    }

    /// Lays out the call of the system program with the given seed sets.
    pub fn invoke_signed<'s>(&self, signers: &'s [&'s [&'s [u8]]]) -> (result: Result<
        Invocation<'s>,
        InvokeError,
    >)
        ensures
            result matches Ok(call) && is_system_call(
                call@,
                self.metas(),
                self.data(),
                self.accounts(),
                seeds_view(signers),
            ),
    {
        let instruction = self.instruction();
        let accounts = [self.account, self.recent_blockhashes_sysvar, self.authority];
        assert(accounts@ =~= self.accounts());
        invoke_signed(instruction, &accounts, signers)
    }
}

} // verus!
