//! A token market: an operator binds an acceptable input token to an emitted
//! output token at a one-to-one rate, and buyers exchange the first for the
//! second. The processor validates every supplied account and returns the
//! token-ledger operations to perform, so that nothing is issued unless every
//! precondition holds.

pub mod address;
pub mod error;
pub mod instruction;
pub mod state;
pub mod ledger;
pub mod authority;
pub mod processor;
