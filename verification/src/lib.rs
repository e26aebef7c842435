//! An escrow payment engine with partial fund holdback.
//!
//! A buyer deposits funds for a seller; a configurable percentage is withheld
//! for a time-boxed holdback period, and the withheld portion is later
//! released to the seller (or refunded to the buyer) based on buyer approval,
//! elapsed time, or administrator-mediated dispute resolution.
//!
//! The library is the transaction lifecycle state machine and its
//! fund-movement and authorization rules. The host environment that holds
//! token balances, verifies caller signatures, persists state and delivers
//! events is a collaborator outside this crate: every operation takes the
//! authenticated caller identity and the current time as plain values, and
//! records the fund transfers and events it requires as pending effects for
//! the host to perform.

pub mod entities;
pub mod errors;
pub mod model;
pub mod hold_back_contract;

pub use entities::{DataKey, Event, Transaction, TransactionStatus, Transfer};
pub use errors::Error;
pub use hold_back_contract::HoldBackContract;
pub use model::DAY_IN_SECONDS;
