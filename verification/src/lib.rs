//! Verified rules for two kinds of asset contract.
//!
//! The *token* is a fungible ledger whose transfers pay a fee to the
//! contract's owner and are held to two caps: one on what a transfer may move
//! and one on what a wallet may hold. The *collection* is a ledger of
//! non-fungible tokens that are minted in sequence, against exact payment and
//! within a fixed supply; its tokens carry named attributes until they are
//! locked.
//!
//! The rules keep their own state and decide; they do no input or output. What
//! a rule needs from outside (the caller, a balance, the owner of a token, the
//! outcome of a call to a ledger) it takes as an argument, and what it wants
//! done outside (a move on the ledger, a unit to mint, a payment) it returns
//! as a value. The program around the rules reads, calls and reports.
//!
//! - [`account`]: addresses and amounts.
//! - [`error`]: the errors that the rules report.
//! - [`psp22_fee`], [`psp22`]: the fee policy and the token contract.
//! - [`metadata`]: the store of attribute values.
//! - [`psp34_traits`], [`psp34_nft`], [`admin`]: the collection's rules, the
//!   collection contract and the owner's withdrawals.
//! - [`text`]: text as bytes and numbers as text.

pub mod account;
pub mod admin;
pub mod error;
pub mod metadata;
pub mod psp22;
pub mod psp22_fee;
pub mod psp34_nft;
pub mod psp34_traits;
pub mod text;
