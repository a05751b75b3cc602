//! The errors that the contract's operations return.

use crate::address::Address;
use crate::uint::Uint256;
use vstd::prelude::*;

verus! {

/// Every way an operation of the contract can be rejected.
#[derive(Clone, Copy, Debug, PartialEq, Eq, Structural)]
pub enum Error {
    /// No wager is recorded under the identifier.
    GameNotFound,
    /// The stake is below the configured minimum.
    MinBetNotMet { min_bet: Uint256, player_bet: Uint256 },
    /// The oracle did not accept the randomness request.
    RandomnessRequestFailed,
    /// The caller is not the administrator.
    UnauthorizedAccount { account: Address },
    /// The proposed administrator is the null identity.
    InvalidOwner { owner: Address },
    /// A fulfillment came from someone other than the oracle.
    OnlySupraRouter,
    /// The wager was resolved before.
    GameAlreadyResolved,
    /// The host could not transfer the funds.
    TransferFailed,
    /// The contract holds less than the amount asked for.
    InsufficientBalance { balance: Uint256, amount: Uint256 },
}

} // verus!
