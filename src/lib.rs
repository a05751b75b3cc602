//! A custodial coin-flip wager contract, written as a verified state machine.
//!
//! The hosting chain (storage, value transfers, the randomness oracle) stays
//! outside: each operation takes what the host observed as plain values and
//! hands back the action the host is to perform.

pub mod uint;
pub mod address;
pub mod error;
pub mod access;
pub mod ledger;
pub mod coinflip;
pub mod laws;
