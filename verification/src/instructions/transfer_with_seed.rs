//! Transfer lamports from a derived address.

use crate::account::{AccountHandle, AccountMeta};
use crate::bytes::{le_bytes, lemma_le_bytes_len, u32_le, u64_le};
use crate::dispatch::{
    invoke_signed, no_seeds, seeds_view, Instruction, Invocation, InvokeError,
};
use crate::instructions::{
    field_offset, is_system_call, lemma_seeded_layout, lemma_tag, put, seeded,
    system_instruction, tag, tagged_buffer,
};
use crate::key::{key_seq, lemma_key_len, seed_fits, to_bytes, zero_key};
use solana_program::pubkey::Pubkey;
use vstd::prelude::*;
use vstd::string::StringSliceAdditionalSpecFns;

verus! {

/// Transfer lamports from an address derived from a base key and a seed.
///
/// Accounts:
///   0. writable: the funding account
///   1. signer: the base of the funding account
///   2. writable: the recipient account
pub struct TransferWithSeed<'a, 'b, 'c> {
    /// Funding account.
    pub from: &'a AccountHandle,
    /// Base account: the account whose key the funding address is derived from. It
    /// must sign.
    pub base: &'a AccountHandle,
    /// Recipient account.
    pub to: &'a AccountHandle,
    /// Amount of lamports to transfer.
    pub lamports: u64,
    /// The seed, no longer than [`crate::key::MAX_SEED_LEN`] bytes.
    pub seed: &'b str,
    /// Address of the program that owns the funding account.
    pub owner: &'c Pubkey,
}

impl<'a, 'b, 'c> TransferWithSeed<'a, 'b, 'c> {
    /// The operation's discriminator.
    pub const DISCRIMINATOR: u8 = 11;

    /// Where the seed begins.
    pub const SEED_OFFSET: usize = 16;

    /// The length of the fixed fields after the seed.
    pub const TAIL_LEN: usize = 32;

    /// The account requirements.
    pub open spec fn metas(&self) -> Seq<AccountMeta> {
        seq![
            AccountMeta { pubkey: self.from.key, is_writable: true, is_signer: false },
            AccountMeta { pubkey: self.base.key, is_writable: false, is_signer: true },
            AccountMeta { pubkey: self.to.key, is_writable: true, is_signer: false },
        ]
    }

    /// The fixed fields before the seed: the tag and the amount.
    pub open spec fn head(&self) -> Seq<u8> {
        tag(Self::DISCRIMINATOR) + le_bytes(self.lamports as nat, 8)
    }

    /// The fixed field after the seed: the owner.
    pub open spec fn tail(&self) -> Seq<u8> {
        key_seq(*self.owner)
    }

    /// The operation's bytes.
    pub open spec fn data(&self) -> Seq<u8> {
        seeded(self.head(), self.seed.spec_bytes(), self.tail())
    }

    /// The accounts, in the order in which the host receives them.
    pub open spec fn accounts(&self) -> Seq<&AccountHandle> {
        seq![self.from, self.base, self.to]
    }

    /// Encodes the operation as a descriptor for the system program.
    pub fn instruction(&self) -> (instruction: Instruction)
        requires
            seed_fits(self.seed),
        ensures
            key_seq(instruction@.program_id) == zero_key(),
            instruction@.accounts == self.metas(),
            instruction@.data == self.data(),
            instruction@.data[0] == Self::DISCRIMINATOR,
            instruction@.data.len() == field_offset(
                Self::SEED_OFFSET as nat,
                self.seed.spec_bytes(),
            ) + Self::TAIL_LEN,
            instruction@.data.subrange(
                Self::SEED_OFFSET as int,
                field_offset(Self::SEED_OFFSET as nat, self.seed.spec_bytes()) as int,
            ) == self.seed.spec_bytes(),
            instruction@.data.subrange(
                field_offset(Self::SEED_OFFSET as nat, self.seed.spec_bytes()) as int,
                instruction@.data.len() as int,
            ) == self.tail(),
    {
        let mut accounts: Vec<AccountMeta> = Vec::with_capacity(3);
        accounts.push(AccountMeta::writable(self.from.key));
        accounts.push(AccountMeta::readonly_signer(self.base.key));
        accounts.push(AccountMeta::writable(self.to.key));

        let seed = self.seed.as_bytes();
        let offset: usize = Self::SEED_OFFSET + seed.len();
        let mut data = tagged_buffer(Self::DISCRIMINATOR, offset + Self::TAIL_LEN);
        put(&mut data, 4, &u64_le(self.lamports));
        put(&mut data, 12, &u32_le(seed.len() as u32));
        put(&mut data, Self::SEED_OFFSET, seed);
        put(&mut data, offset, &to_bytes(self.owner));
        proof {
            lemma_tag(Self::DISCRIMINATOR);
            lemma_key_len(*self.owner);
            lemma_le_bytes_len(seed@.len(), 4);
            lemma_le_bytes_len(self.lamports as nat, 8);
            assert(data@ =~= self.data());
            lemma_seeded_layout(self.head(), self.seed.spec_bytes(), self.tail());
            assert(accounts@ =~= self.metas());
        }
        system_instruction(accounts, data)
    }

    /// Lays out the call without seed sets: `invoke_signed` with an empty list.
    pub fn invoke(&self) -> (result: Result<Invocation<'static>, InvokeError>)
        requires
            seed_fits(self.seed),
        ensures
            result matches Ok(call) && is_system_call(
                call@,
                self.metas(),
                self.data(),
                self.accounts(),
                Seq::empty(),
            ),
    {
        self.invoke_signed(no_seeds())
    }

    /// Lays out the call of the system program with the given seed sets.
    pub fn invoke_signed<'s>(&self, signers: &'s [&'s [&'s [u8]]]) -> (result: Result<
        Invocation<'s>,
        InvokeError,
    >)
        requires
            seed_fits(self.seed),
        ensures
            result matches Ok(call) && is_system_call(
                call@,
                self.metas(),
                self.data(),
                self.accounts(),
                seeds_view(signers),
            ),
    {
        let instruction = self.instruction();
        let accounts = [self.from, self.base, self.to];
        assert(accounts@ =~= self.accounts());
        invoke_signed(instruction, &accounts, signers)
    }
}

} // verus!
