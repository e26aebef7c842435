//! The error taxonomy. Every operation fails fast: the first violated
//! precondition decides the error, and a failed call changes no state.

use vstd::prelude::*;

verus! {

#[derive(Clone, Copy, Debug, PartialEq, Eq, Structural)]
pub enum Error {
    NotInitialized,
    InvalidAmount,
    InvalidHoldbackRate,
    InvalidBuyer,
    InvalidSeller,
    TransactionNotFound,
    InvalidStatus,
    Unauthorized,
    AlreadyInitialized,
    InsufficientBalance,
    InvalidHoldbackDays,
    RateLimitExceeded,
    Paused,
    TransferFailed,
    InsufficientAllowance,
}

} // verus!
