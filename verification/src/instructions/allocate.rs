//! Allocate space in an account without funding it.

use crate::account::{AccountHandle, AccountMeta};
use crate::bytes::{le_bytes, lemma_le_bytes_len, u64_le};
use crate::dispatch::{
    invoke_signed, no_seeds, seeds_view, Instruction, Invocation, InvokeError,
};
use crate::instructions::{
    is_system_call, lemma_tag, put, system_instruction, tag, tagged_buffer,
};
use crate::key::{key_seq, zero_key};
use vstd::prelude::*;

verus! {

/// Allocate space in a (possibly new) account without funding.
///
/// Accounts:
///   0. writable, signer: the account
pub struct Allocate<'a> {
    /// Account to allocate space in.
    pub account: &'a AccountHandle,
    /// Number of bytes of memory to allocate.
    pub space: u64,
}

impl<'a> Allocate<'a> {
    /// The operation's discriminator.
    pub const DISCRIMINATOR: u8 = 8;

    /// The length of the operation's bytes.
    pub const DATA_LEN: usize = 12;

    /// The account requirements.
    pub open spec fn metas(&self) -> Seq<AccountMeta> {
        seq![AccountMeta { pubkey: self.account.key, is_writable: true, is_signer: true }]
    }

    /// The operation's bytes: the tag, then the space.
    pub open spec fn data(&self) -> Seq<u8> {
        tag(Self::DISCRIMINATOR) + le_bytes(self.space as nat, 8)
    }

    /// The accounts, in the order in which the host receives them.
    pub open spec fn accounts(&self) -> Seq<&AccountHandle> {
        seq![self.account]
    }

    /// Encodes the operation as a descriptor for the system program.
    pub fn instruction(&self) -> (instruction: Instruction)
        ensures
            key_seq(instruction@.program_id) == zero_key(),
            instruction@.accounts == self.metas(),
            instruction@.data == self.data(),
            instruction@.data[0] == Self::DISCRIMINATOR,
            instruction@.data.len() == Self::DATA_LEN,
    {
        let mut accounts: Vec<AccountMeta> = Vec::with_capacity(1);
        accounts.push(AccountMeta::writable_signer(self.account.key));

        let mut data = tagged_buffer(Self::DISCRIMINATOR, Self::DATA_LEN);
        put(&mut data, 4, &u64_le(self.space));
        proof {
            lemma_tag(Self::DISCRIMINATOR);
            lemma_le_bytes_len(self.space as nat, 8);
            assert(data@ =~= self.data());
            assert(accounts@ =~= self.metas());
        }
        system_instruction(accounts, data)
    }

    /// Lays out the call without seed sets: `invoke_signed` with an empty list.
    pub fn invoke(&self) -> (result: Result<Invocation<'static>, InvokeError>)
        ensures
            result matches Ok(call) && is_system_call(
                call@,
                self.metas(),
                self.data(),
                self.accounts(),
                Seq::empty(),
            ),
    {
        self.invoke_signed(no_seeds())
    }

    /// Lays out the call of the system program with the given seed sets.
    pub fn invoke_signed<'s>(&self, signers: &'s [&'s [&'s [u8]]]) -> (result: Result<
        Invocation<'s>,
        InvokeError,
    >)
        ensures
            result matches Ok(call) && is_system_call(
                call@,
                self.metas(),
                self.data(),
                self.accounts(),
                seeds_view(signers),
            ),
    {
        let instruction = self.instruction();
        let accounts = [self.account];
        assert(accounts@ =~= self.accounts());
        invoke_signed(instruction, &accounts, signers)
    }
}

} // verus!
