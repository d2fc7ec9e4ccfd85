//! Create a new account.

use crate::account::{AccountHandle, AccountMeta};
use crate::bytes::{le_bytes, lemma_le_bytes_len, u64_le};
use crate::dispatch::{
    invoke_signed, no_seeds, seeds_view, Instruction, Invocation, InvokeError,
};
use crate::instructions::{
    is_system_call, lemma_tag, put, system_instruction, tag, tagged_buffer,
};
use crate::key::{key_seq, lemma_key_len, to_bytes, zero_key};
use solana_program::pubkey::Pubkey;
use vstd::prelude::*;

verus! {

/// Create a new account.
///
/// Accounts:
///   0. writable, signer: the funding account
///   1. writable, signer: the new account
pub struct CreateAccount<'a> {
    /// Funding account.
    pub from: &'a AccountHandle,
    /// New account.
    pub to: &'a AccountHandle,
    /// Number of lamports to transfer to the new account.
    pub lamports: u64,
    /// Number of bytes of memory to allocate.
    pub space: u64,
    /// Address of the program that will own the new account.
    pub owner: &'a Pubkey,
}

impl<'a> CreateAccount<'a> {
    /// The operation's discriminator.
    pub const DISCRIMINATOR: u8 = 0;

    /// The length of the operation's bytes.
    pub const DATA_LEN: usize = 52;

    /// The account requirements.
    pub open spec fn metas(&self) -> Seq<AccountMeta> {
        seq![
            AccountMeta { pubkey: self.from.key, is_writable: true, is_signer: true },
            AccountMeta { pubkey: self.to.key, is_writable: true, is_signer: true },
        ]
    }

    /// The operation's bytes: the tag, the amount, the space and the owner.
    pub open spec fn data(&self) -> Seq<u8> {
        tag(Self::DISCRIMINATOR) + le_bytes(self.lamports as nat, 8) + le_bytes(
            self.space as nat,
            8,
        ) + key_seq(*self.owner)
    }

    /// The accounts, in the order in which the host receives them.
    pub open spec fn accounts(&self) -> Seq<&AccountHandle> {
        seq![self.from, self.to]
    }

    /// Encodes the operation as a descriptor for the system program.
    pub fn instruction(&self) -> (instruction: Instruction)
        ensures
            key_seq(instruction@.program_id) == zero_key(),
            instruction@.accounts == self.metas(),
            instruction@.data == self.data(),
            instruction@.data[0] == Self::DISCRIMINATOR,
            instruction@.data.len() == Self::DATA_LEN,
    {
        let mut accounts: Vec<AccountMeta> = Vec::with_capacity(2);
        accounts.push(AccountMeta::writable_signer(self.from.key));
        accounts.push(AccountMeta::writable_signer(self.to.key));

        let mut data = tagged_buffer(Self::DISCRIMINATOR, Self::DATA_LEN);
        put(&mut data, 4, &u64_le(self.lamports));
        put(&mut data, 12, &u64_le(self.space));
        put(&mut data, 20, &to_bytes(self.owner));
        proof {
            lemma_tag(Self::DISCRIMINATOR);
            lemma_key_len(*self.owner);
            lemma_le_bytes_len(self.lamports as nat, 8);
            lemma_le_bytes_len(self.space as nat, 8);
            assert(data@ =~= self.data());
            assert(accounts@ =~= self.metas());
        }
        system_instruction(accounts, data)
    }

    /// Lays out the call without seed sets: `invoke_signed` with an empty list.
    pub fn invoke(&self) -> (result: Result<Invocation<'static>, InvokeError>)
        ensures
            result matches Ok(call) && is_system_call(
                call@,
                self.metas(),
                self.data(),
                self.accounts(),
                Seq::empty(),
            ),
    {
        self.invoke_signed(no_seeds())
    }

    /// Lays out the call of the system program with the given seed sets.
    pub fn invoke_signed<'s>(&self, signers: &'s [&'s [&'s [u8]]]) -> (result: Result<
        Invocation<'s>,
        InvokeError,
    >)
        ensures
            result matches Ok(call) && is_system_call(
                call@,
                self.metas(),
                self.data(),
                self.accounts(),
                seeds_view(signers),
            ),
    {
        let instruction = self.instruction();
        let accounts = [self.from, self.to];
        assert(accounts@ =~= self.accounts());
        invoke_signed(instruction, &accounts, signers)
    }
}

} // verus!
