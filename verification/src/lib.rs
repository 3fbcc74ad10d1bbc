//! A two-party token escrow: the record of one trade, the decoding of the three
//! operations on it, and the checks that each operation makes before value moves.
//!
//! The library decides; it moves nothing itself. A handler takes what the
//! runtime shows of the supplied accounts and either rejects the operation or
//! returns a plan: the calls to the token program that the runtime is to carry
//! out, in order, as one unit.

pub mod address;
pub mod encoding;
pub mod error;
pub mod instruction;
pub mod state;
pub mod token;
pub mod custody;
pub mod account;
pub mod plan;
pub mod processor;
pub mod initialize;
pub mod exchange;
pub mod cancel;
pub mod entrypoint;
pub mod ledger;
pub mod lifecycle;
