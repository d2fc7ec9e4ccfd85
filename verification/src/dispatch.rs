//! The call dispatcher.
//!
//! A cross-program call hands the host three things: the instruction descriptor, the
//! records of the accounts that the instruction names, and the signer seed sets. The
//! functions here lay these out as an [`Invocation`]. [`invoke_signed`] first holds
//! the accounts against the descriptor and refuses a call whose accounts are too few
//! or out of order; [`invoke_unchecked`] lays out whatever it is given.

use crate::account::{AccountHandle, AccountMeta, AccountRecord};
use crate::key::{key_seq, same_key};
use solana_program::pubkey::Pubkey;
use vstd::prelude::*;

verus! {

/// Why the checked dispatch refused a call.
#[derive(Clone, Copy, Debug, PartialEq, Eq)]
pub enum InvokeError {
    /// The descriptor names fewer accounts than were supplied.
    NotEnoughAccountKeys,
    /// An account's identifier is not the one that the descriptor names at its place.
    InvalidArgument,
}

/// The scoped borrow of an account's buffer and balance that is tried, and released
/// at once, before the host is entered.
#[derive(Clone, Copy, Debug, PartialEq, Eq)]
pub enum BorrowKind {
    /// A shared borrow: others may read.
    Shared,
    /// An exclusive borrow: no other borrow may be live.
    Exclusive,
}

/// The instruction descriptor: the program to run, the accounts it asks for, and the
/// operation's bytes.
#[derive(Debug)]
pub struct Instruction {
    /// The identifier of the program to run.
    pub program_id: Pubkey,
    /// What the instruction asks of each account, in order.
    pub accounts: Vec<AccountMeta>,
    /// The discriminator and the arguments, as the program expects them.
    pub data: Vec<u8>,
}

/// An [`Instruction`] as a mathematical value.
pub struct InstructionView {
    pub program_id: Pubkey,
    pub accounts: Seq<AccountMeta>,
    pub data: Seq<u8>,
}

impl View for Instruction {
    type V = InstructionView;

    open spec fn view(&self) -> InstructionView {
        InstructionView {
            program_id: self.program_id,
            accounts: self.accounts@,
            data: self.data@,
        }
    }
}

/// One call, laid out for the host: nothing is left to decide.
///
/// `probes` is the borrow to try on each account before the call, in the order of
/// `records`; what a probe finds is not acted on. It is empty where no account is to
/// be probed.
#[derive(Debug)]
pub struct Invocation<'a> {
    /// The descriptor.
    pub instruction: Instruction,
    /// The account records, in the order in which the accounts were supplied.
    pub records: Vec<AccountRecord>,
    /// The borrow to try on each account beforehand.
    pub probes: Vec<BorrowKind>,
    /// The seed sets, one for each address that the program signs for.
    pub signers_seeds: &'a [&'a [&'a [u8]]],
}

/// An [`Invocation`] as a mathematical value.
pub struct InvocationView {
    pub instruction: InstructionView,
    pub records: Seq<AccountRecord>,
    pub probes: Seq<BorrowKind>,
    pub signers_seeds: Seq<Seq<Seq<u8>>>,
}

impl<'a> View for Invocation<'a> {
    type V = InvocationView;

    open spec fn view(&self) -> InvocationView {
        InvocationView {
            instruction: self.instruction@,
            records: self.records@,
            probes: self.probes@,
            signers_seeds: seeds_view(self.signers_seeds),
        }
    }
}

/// The seed sets as sequences of byte strings.
pub open spec fn seeds_view(signers_seeds: &[&[&[u8]]]) -> Seq<Seq<Seq<u8>>> {
    Seq::new(
        signers_seeds@.len(),
        |i: int| Seq::new(signers_seeds@[i]@.len(), |j: int| signers_seeds@[i]@[j]@),
    )
}

/// An empty list of seed sets has no seed set in it.
pub proof fn lemma_empty_seed_sets(signers_seeds: &[&[&[u8]]])
    requires
        signers_seeds@.len() == 0,
    ensures
        seeds_view(signers_seeds) == Seq::<Seq<Seq<u8>>>::empty(),
{
    assert(seeds_view(signers_seeds) =~= Seq::empty());
}

/// The empty list of seed sets.
pub(crate) fn no_seeds() -> (signers_seeds: &'static [&'static [&'static [u8]]])
    ensures
        signers_seeds@.len() == 0,
        seeds_view(signers_seeds) == Seq::<Seq<Seq<u8>>>::empty(),
{
    let signers_seeds: &'static [&'static [&'static [u8]]] = &[];
    proof {
        lemma_empty_seed_sets(signers_seeds);
    }
    signers_seeds
}

/// Every supplied account is the one that the descriptor names at its place.
pub open spec fn keys_agree(metas: Seq<AccountMeta>, accounts: Seq<&AccountHandle>) -> bool {
    forall|i: int|
        0 <= i < accounts.len() ==> key_seq(#[trigger] accounts[i].key) == key_seq(metas[i].pubkey)
}

/// The records of the accounts, in order.
pub open spec fn records_of(accounts: Seq<&AccountHandle>) -> Seq<AccountRecord> {
    Seq::new(accounts.len(), |i: int| accounts[i].record())
}

/// The borrow that is tried on an account: exclusive where the instruction writes to
/// it, shared where it does not.
pub open spec fn probe_for(meta: AccountMeta) -> BorrowKind {
    if meta.is_writable {
        BorrowKind::Exclusive
    } else {
        BorrowKind::Shared
    }
}

/// The probes for the first `count` accounts that the descriptor names.
pub open spec fn probes_of(metas: Seq<AccountMeta>, count: nat) -> Seq<BorrowKind> {
    Seq::new(count, |i: int| probe_for(metas[i]))
}

/// The call that the checked dispatch lays out once the accounts have passed.
pub open spec fn checked_call(
    instruction: InstructionView,
    accounts: Seq<&AccountHandle>,
    signers_seeds: Seq<Seq<Seq<u8>>>,
) -> InvocationView {
    InvocationView {
        instruction,
        records: records_of(accounts),
        probes: probes_of(instruction.accounts, accounts.len()),
        signers_seeds,
    }
}

/// What the checked dispatch decides: the refusal, or the call that it lays out.
///
/// Too few account requirements are found before a wrong identifier is.
pub open spec fn checked_dispatch(
    instruction: InstructionView,
    accounts: Seq<&AccountHandle>,
    signers_seeds: Seq<Seq<Seq<u8>>>,
) -> Result<InvocationView, InvokeError> {
    if instruction.accounts.len() < accounts.len() {
        Err(InvokeError::NotEnoughAccountKeys)
    } else if !keys_agree(instruction.accounts, accounts) {
        Err(InvokeError::InvalidArgument)
    } else {
        Ok(checked_call(instruction, accounts, signers_seeds))
    }
}

/// The outcome of a dispatch as a mathematical value.
pub open spec fn outcome(result: Result<Invocation, InvokeError>) -> Result<
    InvocationView,
    InvokeError,
> {
    match result {
        Ok(call) => Ok(call@),
        Err(error) => Err(error),
    }
}

/// A descriptor that names fewer accounts than are supplied is refused with
/// [`InvokeError::NotEnoughAccountKeys`]: no call is laid out, so none reaches the
/// host.
pub proof fn lemma_too_few_requirements_are_refused(
    instruction: InstructionView,
    accounts: Seq<&AccountHandle>,
    signers_seeds: Seq<Seq<Seq<u8>>>,
)
    requires
        instruction.accounts.len() < accounts.len(),
    ensures
        checked_dispatch(instruction, accounts, signers_seeds) == Err::<
            InvocationView,
            InvokeError,
        >(InvokeError::NotEnoughAccountKeys),
{
}

/// Where the descriptor names enough accounts, an account whose identifier differs
/// from the one that the descriptor names at its place has the call refused with
/// [`InvokeError::InvalidArgument`]: no call is laid out, so none reaches the host.
pub proof fn lemma_wrong_identifier_is_refused(
    instruction: InstructionView,
    accounts: Seq<&AccountHandle>,
    signers_seeds: Seq<Seq<Seq<u8>>>,
    place: int,
)
    requires
        accounts.len() <= instruction.accounts.len(),
        0 <= place < accounts.len(),
        key_seq(accounts[place].key) != key_seq(instruction.accounts[place].pubkey),
    ensures
        checked_dispatch(instruction, accounts, signers_seeds) == Err::<
            InvocationView,
            InvokeError,
        >(InvokeError::InvalidArgument),
{
}

/// [`invoke`] is [`invoke_signed`] with an empty list of seed sets: whatever the
/// descriptor and the accounts, the two decide alike.
pub proof fn lemma_invoke_is_invoke_signed_without_seeds(
    instruction: InstructionView,
    accounts: Seq<&AccountHandle>,
    signers_seeds: &[&[&[u8]]],
)
    requires
        signers_seeds@.len() == 0,
    ensures
        checked_dispatch(instruction, accounts, Seq::empty()) == checked_dispatch(
            instruction,
            accounts,
            seeds_view(signers_seeds),
        ),
{
    lemma_empty_seed_sets(signers_seeds);
}

/// Lays out a call without seed sets: [`invoke_signed`] with an empty seed-set list.
pub fn invoke<const ACCOUNTS: usize>(
    instruction: Instruction,
    account_infos: &[&AccountHandle; ACCOUNTS],
) -> (result: Result<Invocation<'static>, InvokeError>)
    ensures
        outcome(result) == checked_dispatch(instruction@, account_infos@, Seq::empty()),
{
    invoke_signed(instruction, account_infos, no_seeds())
}

/// Holds the accounts against the descriptor and, if they pass, lays out the call.
///
/// The call is refused with [`InvokeError::NotEnoughAccountKeys`] where the descriptor
/// names fewer accounts than were supplied. Otherwise it is refused with
/// [`InvokeError::InvalidArgument`] where some account's identifier differs from the
/// one that the descriptor names at the same place. A refused call yields no
/// [`Invocation`], so nothing reaches the host.
///
/// A call that passes holds the descriptor unchanged, the record of each account in
/// the order supplied, the seed sets, and for each account the borrow to try before
/// the host is entered: exclusive where the descriptor marks the account writable,
/// shared otherwise.
pub fn invoke_signed<'a, const ACCOUNTS: usize>(
    instruction: Instruction,
    accounts: &[&AccountHandle; ACCOUNTS],
    signers_seeds: &'a [&'a [&'a [u8]]],
) -> (result: Result<Invocation<'a>, InvokeError>)
    ensures
        outcome(result) == checked_dispatch(instruction@, accounts@, seeds_view(signers_seeds)),
{
    if instruction.accounts.len() < ACCOUNTS {
        return Err(InvokeError::NotEnoughAccountKeys);
    }
    let mut records: Vec<AccountRecord> = Vec::with_capacity(ACCOUNTS);
    let mut probes: Vec<BorrowKind> = Vec::with_capacity(ACCOUNTS);
    let mut index: usize = 0;
    while index < ACCOUNTS
        invariant
            index <= ACCOUNTS,
            ACCOUNTS <= instruction.accounts@.len(),
            accounts@.len() == ACCOUNTS,
            records@ =~= records_of(accounts@.take(index as int)),
            probes@ =~= probes_of(instruction.accounts@, index as nat),
            keys_agree(instruction.accounts@, accounts@.take(index as int)),
        decreases ACCOUNTS - index,
    {
        let info: &AccountHandle = accounts[index];
        let meta: &AccountMeta = &instruction.accounts[index];
        if !same_key(&info.key, &meta.pubkey) {
            return Err(InvokeError::InvalidArgument);
        }
        if meta.is_writable {
            probes.push(BorrowKind::Exclusive);
        } else {
            probes.push(BorrowKind::Shared);
        }
        records.push(info.to_record());
        index += 1;
    }
    assert(accounts@.take(ACCOUNTS as int) =~= accounts@);
    let mut call = invoke_unchecked(instruction, records, signers_seeds);
    call.probes = probes;
    Ok(call)
}

/// Lays out a call from a descriptor, account records and seed sets as they are
/// given: no count or identifier is checked, and no borrow is probed.
///
/// The caller answers for what [`invoke_signed`] would have looked at. Above all, no
/// writable account passed here may have its buffer borrowed by the calling program
/// when the host runs the callee.
pub fn invoke_unchecked<'a>(
    instruction: Instruction,
    account_infos: Vec<AccountRecord>,
    signers_seeds: &'a [&'a [&'a [u8]]],
) -> (call: Invocation<'a>)
    ensures
        call@ == (InvocationView {
            instruction: instruction@,
            records: account_infos@,
            probes: Seq::empty(),
            signers_seeds: seeds_view(signers_seeds),
        }),
{
    Invocation { instruction, records: account_infos, probes: Vec::new(), signers_seeds }
}

} // verus!
