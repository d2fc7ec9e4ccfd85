//! Cross-program calls for an on-chain program, and the wire encoders of the
//! system program's account-management operations.
//!
//! The crate has two layers. The call dispatcher ([`dispatch`]) takes an instruction
//! descriptor, a fixed-length list of account handles and the signer seed sets, checks
//! the accounts against the descriptor and lays out what the host is to receive. The
//! instruction codec ([`instructions`]) has one encoder per system operation; each
//! packs its arguments into the operation's byte layout and hands the result to the
//! dispatcher.
//!
//! Nothing here crosses into the host. Every entry point returns an [`Invocation`]: the
//! descriptor, the account records and the seed sets exactly as the host must see them,
//! together with the borrow probes to make beforehand. The embedding program performs
//! it, and hands the status that the host reports on to its caller.
//!
//! Identifiers are `solana_program::pubkey::Pubkey` values. The verifier takes three
//! facts about them on trust, each stated where it is used in [`key`]: what bytes a
//! key holds, when two keys are equal, and which key names the system program.

pub mod account;
pub mod bytes;
pub mod dispatch;
pub mod instructions;
pub mod key;

pub use account::{AccountHandle, AccountMeta, AccountRecord};
pub use bytes::write_bytes;

pub use dispatch::{
    invoke, invoke_signed, invoke_unchecked, BorrowKind, Instruction, Invocation, InvokeError,
};
