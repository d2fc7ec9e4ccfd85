//! The instruction codec: one encoder for each operation of the system program.
//!
//! Every operation is a struct that holds the accounts and arguments. Its
//! `instruction` packs them into the descriptor that the system program expects: the
//! account requirements, whose writable and signer flags the operation fixes, and the
//! operation's bytes. Its `invoke_signed` hands the descriptor and the accounts to the
//! dispatcher, and `invoke` does the same without seed sets.
//!
//! All operations take the checked path, [`crate::dispatch::invoke_signed`]. Since an
//! operation builds its account requirements from the very accounts it passes on, the
//! check never refuses: what the checked path adds is the borrow probe of each account.
//! A caller who has no use for the probes passes `instruction()` and the records to
//! [`crate::dispatch::invoke_unchecked`].
//!
//! The bytes open with the operation's discriminator as a little-endian `u32`; the
//! one operation without arguments, [`AdvanceNonceAccount`], has the discriminator
//! alone, in a single byte. Integers are little-endian, identifiers are their 32
//! bytes, and a seed is its length as a little-endian `u32` followed by its bytes.
//!
//! A buffer is made once, at its final length, and filled in place: it never grows.

use crate::account::{AccountHandle, AccountMeta};
use crate::bytes::{le_bytes, lemma_le_bytes_len, overwrite, u32_le, write_at, write_bytes};
use crate::dispatch::{
    lemma_empty_seed_sets, probes_of, records_of, seeds_view, Instruction, InvocationView,
};
use crate::key::{key_seq, system_program_id, zero_key};
use vstd::prelude::*;

pub mod advance_nonce_account;
pub mod allocate;
pub mod allocate_with_seed;
pub mod assign;
pub mod assign_with_seed;
pub mod authorize_nonce_account;
pub mod create_account;
pub mod create_account_with_seed;
pub mod initialize_nonce_account;
pub mod transfer;
pub mod transfer_with_seed;

pub use advance_nonce_account::AdvanceNonceAccount;
pub use allocate::Allocate;
pub use allocate_with_seed::AllocateWithSeed;
pub use assign::Assign;
pub use assign_with_seed::AssignWithSeed;
pub use authorize_nonce_account::AuthorizeNonceAccount;
pub use create_account::CreateAccount;
pub use create_account_with_seed::CreateAccountWithSeed;
pub use initialize_nonce_account::InitializeNonceAccount;
pub use transfer::Transfer;
pub use transfer_with_seed::TransferWithSeed;

verus! {

/// The four bytes that open an operation's buffer.
pub open spec fn tag(discriminator: u8) -> Seq<u8> {
    le_bytes(discriminator as nat, 4)
}

/// `count` zero bytes.
pub open spec fn zeros(count: nat) -> Seq<u8> {
    Seq::new(count, |i: int| 0u8)
}

/// A buffer with a seed in it: the fixed fields before the seed, the seed's length
/// in four bytes, the seed, and the fixed fields after it.
pub open spec fn seeded(head: Seq<u8>, seed: Seq<u8>, tail: Seq<u8>) -> Seq<u8> {
    head + le_bytes(seed.len(), 4) + seed + tail
}

/// Where the field after a seed begins, for a seed that begins at `base_offset`.
pub open spec fn field_offset(base_offset: nat, seed: Seq<u8>) -> nat {
    base_offset + seed.len()
}

/// `call` is the checked call of the system program for an operation with these
/// account requirements, bytes, accounts and seed sets.
pub open spec fn is_system_call(
    call: InvocationView,
    metas: Seq<AccountMeta>,
    data: Seq<u8>,
    accounts: Seq<&AccountHandle>,
    signers_seeds: Seq<Seq<Seq<u8>>>,
) -> bool {
    &&& key_seq(call.instruction.program_id) == zero_key()
    &&& call.instruction.accounts == metas
    &&& call.instruction.data == data
    &&& call.records == records_of(accounts)
    &&& call.probes == probes_of(metas, accounts.len())
    &&& call.signers_seeds == signers_seeds
}

/// For every operation, `invoke` is `invoke_signed` with an empty list of seed sets:
/// a call is the one that `invoke` lays out exactly when it is the one that
/// `invoke_signed` lays out for such a list.
pub proof fn lemma_invoke_is_invoke_signed_without_seeds(
    call: InvocationView,
    metas: Seq<AccountMeta>,
    data: Seq<u8>,
    accounts: Seq<&AccountHandle>,
    signers_seeds: &[&[&[u8]]],
)
    requires
        signers_seeds@.len() == 0,
    ensures
        is_system_call(call, metas, data, accounts, Seq::empty()) == is_system_call(
            call,
            metas,
            data,
            accounts,
            seeds_view(signers_seeds),
        ),
{
    lemma_empty_seed_sets(signers_seeds);
}

/// The tag is the discriminator followed by three zero bytes.
pub proof fn lemma_tag(discriminator: u8)
    ensures
        tag(discriminator) == seq![discriminator, 0u8, 0u8, 0u8],
{
    reveal_with_fuel(le_bytes, 5);
    assert(tag(discriminator) =~= seq![discriminator, 0u8, 0u8, 0u8]);
}

/// In a buffer with a seed, the field after the seed begins at the seed's offset plus
/// the seed's length, and the buffer ends where the fixed fields after the seed end.
/// Each part is found at its place.
pub proof fn lemma_seeded_layout(head: Seq<u8>, seed: Seq<u8>, tail: Seq<u8>)
    ensures
        ({
            let buffer = seeded(head, seed, tail);
            let base_offset = head.len() + 4;
            let after = field_offset(base_offset, seed);
            &&& buffer.len() == after + tail.len()
            &&& buffer.subrange(0, head.len() as int) == head
            &&& buffer.subrange(head.len() as int, base_offset as int) == le_bytes(seed.len(), 4)
            &&& buffer.subrange(base_offset as int, after as int) == seed
            &&& buffer.subrange(after as int, buffer.len() as int) == tail
        }),
{
    lemma_le_bytes_len(seed.len(), 4);
    let buffer = seeded(head, seed, tail);
    let base_offset = head.len() + 4;
    let after = field_offset(base_offset, seed);
    assert(buffer.subrange(0, head.len() as int) =~= head);
    assert(buffer.subrange(head.len() as int, base_offset as int) =~= le_bytes(seed.len(), 4));
    assert(buffer.subrange(base_offset as int, after as int) =~= seed);
    assert(buffer.subrange(after as int, buffer.len() as int) =~= tail);
}

/// A buffer of `len` bytes for an operation: the tag, then zero bytes.
pub(crate) fn tagged_buffer(discriminator: u8, len: usize) -> (buffer: Vec<u8>)
    requires
        4 <= len,
    ensures
        buffer@ == tag(discriminator) + zeros((len - 4) as nat),
        buffer@.len() == len,
{
    let mut buffer: Vec<u8> = vec![0u8; len];
    write_bytes(buffer.as_mut_slice(), &u32_le(discriminator as u32));
    proof {
        lemma_le_bytes_len(discriminator as nat, 4);
        assert(buffer@ =~= tag(discriminator) + zeros((len - 4) as nat));
    }
    buffer
}

/// Copies `source` into `buffer` at `offset`.
pub(crate) fn put(buffer: &mut Vec<u8>, offset: usize, source: &[u8])
    requires
        offset + source@.len() <= old(buffer)@.len(),
    ensures
        final(buffer)@ == overwrite(old(buffer)@, offset as int, source@),
{
    write_at(buffer.as_mut_slice(), offset, source);
}

/// The descriptor of a system-program instruction.
pub(crate) fn system_instruction(accounts: Vec<AccountMeta>, data: Vec<u8>) -> (instruction:
    Instruction)
    ensures
        key_seq(instruction@.program_id) == zero_key(),
        instruction@.accounts == accounts@,
        instruction@.data == data@,
{
    Instruction { program_id: system_program_id(), accounts, data }
}

} // verus!
