//! Account identifiers.
//!
//! An identifier is a `solana_program::pubkey::Pubkey`. The type is opaque to the
//! verifier; what the proofs know of a key is its content, the 32 bytes that
//! [`key_bytes`] names.

use solana_program::pubkey::Pubkey;
use vstd::prelude::*;
use vstd::string::StringSliceAdditionalSpecFns;

verus! {

/// The number of bytes in an identifier.
pub const KEY_LEN: usize = 32;

/// The longest seed, in bytes, from which an address may be derived.
pub const MAX_SEED_LEN: usize = 32;

/// Declares `Pubkey` to the verifier as a type whose content it does not see.
#[verifier::external_type_specification]
#[verifier::external_body]
pub struct ExPubkey(Pubkey);

/// The content of a key: its 32 bytes, first byte first.
pub uninterp spec fn key_bytes(key: Pubkey) -> [u8; 32];

/// The content of a key as a sequence of bytes.
pub open spec fn key_seq(key: Pubkey) -> Seq<u8> {
    key_bytes(key)@
}

/// Thirty-two zero bytes: the content of the system program's identifier.
pub open spec fn zero_key() -> Seq<u8> {
    Seq::new(KEY_LEN as nat, |i: int| 0u8)
}

/// A seed that an address may be derived from: one of at most [`MAX_SEED_LEN`] bytes.
pub open spec fn seed_fits(seed: &str) -> bool {
    seed.spec_bytes().len() <= MAX_SEED_LEN
}

/// Whether `seed` is short enough to derive an address from.
pub fn is_short_seed(seed: &str) -> (fits: bool)
    ensures
        fits == seed_fits(seed),
{
    seed.as_bytes().len() <= MAX_SEED_LEN
}

/// Trusted: `Pubkey::to_bytes`. The contract claims that the array returned is the
/// key's content.
#[verifier::external_body]
pub(crate) fn to_bytes(key: &Pubkey) -> (bytes: [u8; 32])
    ensures
        bytes == key_bytes(*key),
{
    key.to_bytes()
}

/// Trusted: `==` on two `Pubkey`s, which `Pubkey` derives: it compares the two byte
/// arrays. The contract claims that the result is `true` exactly when the two keys
/// hold the same bytes.
#[verifier::external_body]
pub(crate) fn same_key(a: &Pubkey, b: &Pubkey) -> (same: bool)
    ensures
        same == (key_seq(*a) == key_seq(*b)),
{
    a == b
}

/// Trusted: `solana_program::system_program::id`. The contract claims that the system
/// program's identifier holds 32 zero bytes.
#[verifier::external_body]
pub(crate) fn system_program_id() -> (id: Pubkey)
    ensures
        key_seq(id) == zero_key(),
{
    solana_program::system_program::id()
}

/// A key's content has [`KEY_LEN`] bytes.
pub proof fn lemma_key_len(key: Pubkey)
    ensures
        key_seq(key).len() == KEY_LEN,
{
    vstd::array::array_len_matches_n(&key_bytes(key));
}

} // verus!
