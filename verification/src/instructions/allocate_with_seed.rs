//! Allocate space for, and assign, an account at a derived address.

use crate::account::{AccountHandle, AccountMeta};
use crate::bytes::{le_bytes, lemma_le_bytes_len, u32_le, u64_le};
use crate::dispatch::{
    invoke_signed, no_seeds, seeds_view, Instruction, Invocation, InvokeError,
};
use crate::instructions::{
    field_offset, is_system_call, lemma_seeded_layout, lemma_tag, put, seeded,
    system_instruction, tag, tagged_buffer,
};
use crate::key::{key_seq, lemma_key_len, seed_fits, to_bytes, zero_key};
use solana_program::pubkey::Pubkey;
use vstd::prelude::*;
use vstd::string::StringSliceAdditionalSpecFns;

verus! {

/// Allocate space for and assign an account at an address derived from a base key and
/// a seed.
///
/// Accounts:
///   0. writable: the allocated account
///   1. signer: the base account
pub struct AllocateWithSeed<'a, 'b, 'c> {
    /// Allocated account.
    pub account: &'a AccountHandle,
    /// Base account: the account whose key the address is derived from. It must sign.
    pub base: &'a AccountHandle,
    /// The seed, no longer than [`crate::key::MAX_SEED_LEN`] bytes.
    pub seed: &'b str,
    /// Number of bytes of memory to allocate.
    pub space: u64,
    /// Address of the program that will own the account.
    pub owner: &'c Pubkey,
}

impl<'a, 'b, 'c> AllocateWithSeed<'a, 'b, 'c> {
    /// The operation's discriminator.
    pub const DISCRIMINATOR: u8 = 9;

    /// Where the seed begins.
    pub const SEED_OFFSET: usize = 40;

    /// The length of the fixed fields after the seed.
    pub const TAIL_LEN: usize = 40;

    /// The account requirements.
    pub open spec fn metas(&self) -> Seq<AccountMeta> {
        seq![
            AccountMeta { pubkey: self.account.key, is_writable: true, is_signer: false },
            AccountMeta { pubkey: self.base.key, is_writable: false, is_signer: true },
        ]
    }

    /// The fixed fields before the seed: the tag and the base key.
    pub open spec fn head(&self) -> Seq<u8> {
        tag(Self::DISCRIMINATOR) + key_seq(self.base.key)
    }

    /// The fixed fields after the seed: the space and the owner.
    pub open spec fn tail(&self) -> Seq<u8> {
        le_bytes(self.space as nat, 8) + key_seq(*self.owner)
    }

    /// The operation's bytes.
    pub open spec fn data(&self) -> Seq<u8> {
        seeded(self.head(), self.seed.spec_bytes(), self.tail())
    }

    /// The accounts, in the order in which the host receives them.
    pub open spec fn accounts(&self) -> Seq<&AccountHandle> {
        seq![self.account, self.base]
    }

    /// Encodes the operation as a descriptor for the system program.
    pub fn instruction(&self) -> (instruction: Instruction)
        requires
            seed_fits(self.seed),
        ensures
            key_seq(instruction@.program_id) == zero_key(),
            instruction@.accounts == self.metas(),
            instruction@.data == self.data(),
            instruction@.data[0] == Self::DISCRIMINATOR,
            instruction@.data.len() == field_offset(
                Self::SEED_OFFSET as nat,
                self.seed.spec_bytes(),
            ) + Self::TAIL_LEN,
            instruction@.data.subrange(
                Self::SEED_OFFSET as int,
                field_offset(Self::SEED_OFFSET as nat, self.seed.spec_bytes()) as int,
            ) == self.seed.spec_bytes(),
            instruction@.data.subrange(
                field_offset(Self::SEED_OFFSET as nat, self.seed.spec_bytes()) as int,
                instruction@.data.len() as int,
            ) == self.tail(),
    {
        let mut accounts: Vec<AccountMeta> = Vec::with_capacity(2);
        accounts.push(AccountMeta::writable(self.account.key));
        accounts.push(AccountMeta::readonly_signer(self.base.key));

        let seed = self.seed.as_bytes();
        let offset: usize = Self::SEED_OFFSET + seed.len();
        let mut data = tagged_buffer(Self::DISCRIMINATOR, offset + Self::TAIL_LEN);
        put(&mut data, 4, &to_bytes(&self.base.key));
        put(&mut data, 36, &u32_le(seed.len() as u32));
        put(&mut data, Self::SEED_OFFSET, seed);
        put(&mut data, offset, &u64_le(self.space));
        put(&mut data, offset + 8, &to_bytes(self.owner));
        proof {
            lemma_tag(Self::DISCRIMINATOR);
            lemma_key_len(self.base.key);
            lemma_key_len(*self.owner);
            lemma_le_bytes_len(seed@.len(), 4);
            lemma_le_bytes_len(self.space as nat, 8);
            assert(data@ =~= self.data());
            lemma_seeded_layout(self.head(), self.seed.spec_bytes(), self.tail());
            assert(accounts@ =~= self.metas());
        }
        system_instruction(accounts, data)
    }

    /// Lays out the call without seed sets: `invoke_signed` with an empty list.
    pub fn invoke(&self) -> (result: Result<Invocation<'static>, InvokeError>)
        requires
            seed_fits(self.seed),
        ensures
            result matches Ok(call) && is_system_call(
                call@,
                self.metas(),
                self.data(),
                self.accounts(),
                Seq::empty(),
            ),
    {
        self.invoke_signed(no_seeds())
    }

    /// Lays out the call of the system program with the given seed sets.
    pub fn invoke_signed<'s>(&self, signers: &'s [&'s [&'s [u8]]]) -> (result: Result<
        Invocation<'s>,
        InvokeError,
    >)
        requires
            seed_fits(self.seed),
        ensures
            result matches Ok(call) && is_system_call(
                call@,
                self.metas(),
                self.data(),
                self.accounts(),
                seeds_view(signers),
            ),
    {
        let instruction = self.instruction();
        let accounts = [self.account, self.base];
        assert(accounts@ =~= self.accounts());
        invoke_signed(instruction, &accounts, signers)
    }
}

} // verus!
