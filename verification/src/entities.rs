//! Data model: transactions, their status, storage keys, and the effects
//! (fund transfers and events) that operations hand to the host environment.

use vstd::prelude::*;

verus! {

/// Lifecycle status of an escrow transaction.
#[derive(Clone, Copy, Debug, PartialEq, Eq, Structural)]
pub enum TransactionStatus {
    /// Created; the holdback waits for buyer approval or the release timer.
    Held,
    /// Buyer approved the release; the holdback is about to move to the seller.
    HoldbackPending,
    /// Holdback paid out to the seller. Terminal.
    Completed,
    /// Dispute resolved in the buyer's favour; holdback refunded. Terminal.
    Cancelled,
    /// Buyer raised a dispute; only the administrator can resolve it.
    Disputed,
}

/// One escrow transaction. Principal identities (buyer, seller, token) are
/// plain numeric identifiers assigned by the host environment.
#[derive(Clone, Copy, Debug, PartialEq, Eq, Structural)]
pub struct Transaction {
    pub buyer: u64,
    pub seller: u64,
    /// Total deposited value; positive and at most the largest signed 128-bit value.
    pub amount: u128,
    pub token: u64,
    /// Percentage of `amount` withheld, in (0, 100].
    pub holdback_rate: u32,
    /// `floor(amount * holdback_rate / 100)`, withheld from the seller.
    pub holdback_amount: u128,
    /// `amount - holdback_amount`, forwarded to the seller at creation.
    pub final_amount: u128,
    /// Absolute time after which an unresolved holdback auto-releases.
    pub release_time: u64,
    pub status: TransactionStatus,
}

/// Keys under which a persistent storage backend files the ledger's state.
#[derive(Clone, Copy, Debug, PartialEq, Eq, Structural)]
pub enum DataKey {
    Transaction(u128),
    TransactionCounter,
    Token,
    Admin,
}

/// A fund movement the host's asset-transfer collaborator must perform.
#[derive(Clone, Copy, Debug, PartialEq, Eq, Structural)]
pub enum Transfer {
    /// Pull `amount` of `token` from `from` into escrow custody, on the
    /// allowance `from` granted the escrow.
    Pull { from: u64, token: u64, amount: u128 },
    /// Pay `amount` of `token` out of escrow custody to `to`.
    Pay { to: u64, token: u64, amount: u128 },
}

/// A domain event the host's event sink must publish.
#[derive(Clone, Copy, Debug, PartialEq, Eq, Structural)]
pub enum Event {
    TxCreated { transaction_id: u128, buyer: u64, seller: u64, amount: u128, holdback_amount: u128 },
    DisputeInitiated { transaction_id: u128, buyer: u64 },
    HoldbackRefunded { transaction_id: u128, buyer: u64, amount: u128 },
    HoldbackReleased { transaction_id: u128, seller: u64, amount: u128 },
}

} // verus!
