//! Errors returned by the token market.

use vstd::prelude::*;

verus! {

/// Why an instruction was rejected. Every error aborts the whole instruction:
/// no token-ledger operation is issued and no record is written.
#[derive(Clone, Copy, Debug, PartialEq, Eq, Structural)]
pub enum TokenMarketError {
    /// An `Initialize` against a record that is already initialized.
    AlreadyInitialized,
    /// An operation on a record or token account that is not set up yet.
    Uninitialized,
    /// The supplied authority differs from the derived or the stored one.
    IncorrectAuthority,
    /// Malformed token-account data, or an account whose identity or mint
    /// differs from the one the market expects.
    InvalidAccountData,
    /// The write-off account holds less than the requested amount.
    InsufficientFunds,
    /// Instruction or record bytes that do not match their encoding.
    DecodeError,
    /// An account that is not owned by, or is not, the expected program.
    IncorrectProgramId,
    /// Fewer accounts than the instruction's layout names.
    NotEnoughAccountKeys,
}

} // verus!
