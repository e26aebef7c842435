//! The escrow ledger and its lifecycle operations.
//!
//! `HoldBackContract` owns the shared mutable state: the admin registry and
//! the transaction store, plus the outbox of pending effects. Every operation
//! takes the authenticated caller identity and, where it matters, the current
//! time as plain values from the host, and is specified exactly by its
//! transition function in [`crate::model`].

use vstd::prelude::*;
use crate::entities::{Event, Transaction, TransactionStatus, Transfer};
use crate::errors::Error;
use crate::model::{
    amount_in_range, approve_release_tr, check_and_release_tr, create_payment_tr, empty_model,
    get_admin_spec, get_transaction_spec, holdback_of, initialize_tr, initiate_dispute_tr, tx_of,
    lemma_holdback_partition, lemma_holdback_split, Model, rate_in_range, released,
    release_holdback_if_due_tr, resolve_dispute_tr, with_status, DAY_IN_SECONDS,
};
use vstd::arithmetic::div_mod::lemma_fundamental_div_mod;
use vstd::arithmetic::mul::lemma_mul_inequality;

verus! {

/// `floor(amount * rate / 100)`, computed without overflowing 128-bit
/// arithmetic by splitting the amount at its last two decimal digits.
fn compute_holdback(amount: u128, rate: u32) -> (h: u128)
    requires
        amount_in_range(amount),
        rate_in_range(rate),
    ensures
        h == holdback_of(amount, rate),
        h <= amount,
{
    proof {
        lemma_holdback_partition(amount, rate);
        lemma_holdback_split(amount, rate);
        lemma_fundamental_div_mod(amount as int, 100);
        lemma_mul_inequality(rate as int, 100, (amount as int) / 100);
        assert(((amount as int) / 100) * (rate as int)
            == (rate as int) * ((amount as int) / 100)) by (nonlinear_arith);
        assert(((amount as int) % 100) * (rate as int) <= 9900) by (nonlinear_arith)
            requires
                0 <= (amount as int) % 100 < 100,
                0 < rate as int <= 100,
        ;
    }
    let q: u128 = amount / 100;
    let s: u128 = amount % 100;
    q * (rate as u128) + s * (rate as u128) / 100
}

/// The escrow ledger: admin registry, transaction store (the record with
/// identifier `i` sits at index `i - 1`), and the pending effects the host
/// must perform, oldest first.
pub struct HoldBackContract {
    pub admin: Option<u64>,
    pub transactions: Vec<Transaction>,
    pub transfers: Vec<Transfer>,
    pub events: Vec<Event>,
}

impl View for HoldBackContract {
    type V = Model;

    open spec fn view(&self) -> Model {
        Model {
            admin: self.admin,
            txs: self.transactions@,
            transfers: self.transfers@,
            events: self.events@,
        }
    }
}

impl HoldBackContract {
    /// A fresh, uninitialized ledger.
    pub fn new() -> (c: Self)
        ensures
            c@ == empty_model(),
    {
        let c = HoldBackContract {
            admin: None,
            transactions: Vec::new(),
            transfers: Vec::new(),
            events: Vec::new(),
        };
        proof {
            assert(c@ =~= empty_model());
        }
        c
    }

    /// Records the administrator identity, exactly once per ledger lifetime.
    pub fn initialize(&mut self, admin: u64) -> (r: Result<bool, Error>)
        ensures
            ({
                let (m2, res) = initialize_tr(old(self)@, admin);
                final(self)@ == m2 && r == res
            }),
    {
        if self.admin.is_some() {
            return Err(Error::AlreadyInitialized);
        }
        self.admin = Some(admin);
        proof {
            assert(self@ =~= initialize_tr(old(self)@, admin).0);
        }
        Ok(true)
    }

    /// Creates an escrow payment: validates the request, pulls the deposit
    /// from the buyer into escrow custody, forwards the non-withheld part to
    /// the seller at once, and stores the new transaction as `Held`.
    ///
    /// `now` is the current ledger time; `buyer_balance` and
    /// `buyer_allowance` are the buyer's token balance and the spending
    /// allowance granted to the escrow, both queried from the asset
    /// collaborator by the host immediately before the call.
    pub fn create_payment(
        &mut self,
        buyer: u64,
        seller: u64,
        amount: u128,
        token: u64,
        holdback_rate: u32,
        holdback_days: u32,
        now: u64,
        buyer_balance: i128,
        buyer_allowance: i128,
    ) -> (r: Result<u128, Error>)
        ensures
            ({
                let (m2, res) = create_payment_tr(old(self)@, buyer, seller, amount, token,
                    holdback_rate, holdback_days, now, buyer_balance, buyer_allowance);
                final(self)@ == m2 && r == res
            }),
    {
        let admin: u64 = match self.admin {
            Some(a) => a,
            None => {
                return Err(Error::NotInitialized);
            },
        };
        if amount == 0 || amount > i128::MAX as u128 {
            return Err(Error::InvalidAmount);
        }
        if holdback_rate == 0 || holdback_rate > 100 {
            return Err(Error::InvalidHoldbackRate);
        }
        if buyer == seller || buyer == admin || seller == admin {
            return Err(Error::InvalidBuyer);
        }
        if buyer == token || seller == token {
            return Err(Error::InvalidSeller);
        }

        let holdback_amount: u128 = compute_holdback(amount, holdback_rate);
        // Underflow is impossible here — the holdback is at most the amount —
        // but the subtraction stays guarded, mapped to `InvalidAmount`.
        if amount < holdback_amount {
            return Err(Error::InvalidAmount);
        }
        let final_amount: u128 = amount - holdback_amount;

        if buyer_balance < amount as i128 {
            return Err(Error::InsufficientBalance);
        }
        if buyer_allowance < amount as i128 {
            return Err(Error::InsufficientAllowance);
        }

        let holdback_seconds: u64 = (holdback_days as u64) * DAY_IN_SECONDS;
        if now > u64::MAX - holdback_seconds {
            return Err(Error::InvalidAmount);
        }
        let release_time: u64 = now + holdback_seconds;

        let transaction_id: u128 = self.transactions.len() as u128 + 1;

        self.transfers.push(Transfer::Pull { from: buyer, token: token, amount: amount });
        if final_amount > 0 {
            self.transfers.push(Transfer::Pay { to: seller, token: token, amount: final_amount });
        }

        let transaction = Transaction {
            buyer: buyer,
            seller: seller,
            amount: amount,
            token: token,
            holdback_rate: holdback_rate,
            holdback_amount: holdback_amount,
            final_amount: final_amount,
            release_time: release_time,
            status: TransactionStatus::Held,
        };
        self.transactions.push(transaction);
        self.events.push(Event::TxCreated {
            transaction_id: transaction_id,
            buyer: buyer,
            seller: seller,
            amount: amount,
            holdback_amount: holdback_amount,
        });

        proof {
            assert(self@ =~= create_payment_tr(old(self)@, buyer, seller, amount, token,
                holdback_rate, holdback_days, now, buyer_balance, buyer_allowance).0);
        }
        Ok(transaction_id)
    }

    /// The shared release routine: pays the holdback to the seller and
    /// completes the transaction if and only if the buyer already approved
    /// (`HoldbackPending`) or it is `Held` and its timer has elapsed;
    /// otherwise a successful no-op.
    fn release_holdback_if_due(&mut self, transaction_id: u128, now: u64) -> (r: Result<
        (),
        Error,
    >)
        ensures
            ({
                let (m2, res) = release_holdback_if_due_tr(old(self)@, transaction_id, now);
                final(self)@ == m2 && r == res
            }),
    {
        if transaction_id == 0 || transaction_id > self.transactions.len() as u128 {
            return Err(Error::TransactionNotFound);
        }
        let idx: usize = (transaction_id - 1) as usize;
        let transaction = self.transactions[idx];

        let due: bool = transaction.status == TransactionStatus::HoldbackPending
            || (transaction.status == TransactionStatus::Held
                && now >= transaction.release_time);
        if due {
            self.transfers.push(Transfer::Pay {
                to: transaction.seller,
                token: transaction.token,
                amount: transaction.holdback_amount,
            });
            let mut updated = transaction;
            updated.status = TransactionStatus::Completed;
            self.transactions[idx] = updated;
            self.events.push(Event::HoldbackReleased {
                transaction_id: transaction_id,
                seller: transaction.seller,
                amount: transaction.holdback_amount,
            });
            proof {
                assert(self@ =~= released(old(self)@, transaction_id));
            }
        }
        Ok(())
    }

    /// Buyer approval of the release: moves the transaction past `Held` and
    /// pays the holdback to the seller at once, without waiting for the timer.
    pub fn approve_release(&mut self, transaction_id: u128, buyer: u64, now: u64) -> (r: Result<
        (),
        Error,
    >)
        ensures
            ({
                let (m2, res) = approve_release_tr(old(self)@, transaction_id, buyer, now);
                final(self)@ == m2 && r == res
            }),
    {
        if transaction_id == 0 || transaction_id > self.transactions.len() as u128 {
            return Err(Error::TransactionNotFound);
        }
        let idx: usize = (transaction_id - 1) as usize;
        let transaction = self.transactions[idx];
        if transaction.buyer != buyer {
            return Err(Error::Unauthorized);
        }
        if transaction.status != TransactionStatus::Held {
            return Err(Error::InvalidStatus);
        }

        let mut updated = transaction;
        updated.status = TransactionStatus::HoldbackPending;
        self.transactions[idx] = updated;
        proof {
            let m = old(self)@;
            assert(self@ =~= Model {
                admin: m.admin,
                txs: m.txs.update(transaction_id as int - 1,
                    with_status(tx_of(m, transaction_id),
                        TransactionStatus::HoldbackPending)),
                transfers: m.transfers,
                events: m.events,
            });
        }
        self.release_holdback_if_due(transaction_id, now)
    }

    /// Buyer-initiated dispute: suspends the release flow until the
    /// administrator resolves it. No funds move.
    pub fn initiate_dispute(&mut self, transaction_id: u128, buyer: u64) -> (r: Result<
        (),
        Error,
    >)
        ensures
            ({
                let (m2, res) = initiate_dispute_tr(old(self)@, transaction_id, buyer);
                final(self)@ == m2 && r == res
            }),
    {
        if transaction_id == 0 || transaction_id > self.transactions.len() as u128 {
            return Err(Error::TransactionNotFound);
        }
        let idx: usize = (transaction_id - 1) as usize;
        let transaction = self.transactions[idx];
        if transaction.buyer != buyer {
            return Err(Error::Unauthorized);
        }
        if transaction.status != TransactionStatus::Held
            && transaction.status != TransactionStatus::HoldbackPending {
            return Err(Error::InvalidStatus);
        }

        let mut updated = transaction;
        updated.status = TransactionStatus::Disputed;
        self.transactions[idx] = updated;
        self.events.push(Event::DisputeInitiated {
            transaction_id: transaction_id,
            buyer: buyer,
        });
        proof {
            assert(self@ =~= initiate_dispute_tr(old(self)@, transaction_id, buyer).0);
        }
        Ok(())
    }

    /// Administrator adjudication of a dispute, the sole path out of
    /// `Disputed`: refunds the holdback to the buyer (`Cancelled`) or pays it
    /// to the seller (`Completed`).
    pub fn resolve_dispute(
        &mut self,
        transaction_id: u128,
        refund: bool,
        admin: u64,
    ) -> (r: Result<(), Error>)
        ensures
            ({
                let (m2, res) = resolve_dispute_tr(old(self)@, transaction_id, refund, admin);
                final(self)@ == m2 && r == res
            }),
    {
        let stored_admin: u64 = match self.admin {
            Some(a) => a,
            None => {
                return Err(Error::NotInitialized);
            },
        };
        if admin != stored_admin {
            return Err(Error::Unauthorized);
        }
        if transaction_id == 0 || transaction_id > self.transactions.len() as u128 {
            return Err(Error::TransactionNotFound);
        }
        let idx: usize = (transaction_id - 1) as usize;
        let transaction = self.transactions[idx];
        if transaction.status != TransactionStatus::Disputed {
            return Err(Error::InvalidStatus);
        }

        let mut updated = transaction;
        if refund {
            self.transfers.push(Transfer::Pay {
                to: transaction.buyer,
                token: transaction.token,
                amount: transaction.holdback_amount,
            });
            updated.status = TransactionStatus::Cancelled;
            self.transactions[idx] = updated;
            self.events.push(Event::HoldbackRefunded {
                transaction_id: transaction_id,
                buyer: transaction.buyer,
                amount: transaction.holdback_amount,
            });
        } else {
            self.transfers.push(Transfer::Pay {
                to: transaction.seller,
                token: transaction.token,
                amount: transaction.holdback_amount,
            });
            updated.status = TransactionStatus::Completed;
            self.transactions[idx] = updated;
            self.events.push(Event::HoldbackReleased {
                transaction_id: transaction_id,
                seller: transaction.seller,
                amount: transaction.holdback_amount,
            });
        }
        proof {
            assert(self@ =~= resolve_dispute_tr(old(self)@, transaction_id, refund, admin).0);
        }
        Ok(())
    }

    /// The time-based release check, callable by anyone: fails only on a
    /// missing or disputed transaction, otherwise delegates to the shared
    /// release routine.
    pub fn check_and_release(&mut self, transaction_id: u128, now: u64) -> (r: Result<
        (),
        Error,
    >)
        ensures
            ({
                let (m2, res) = check_and_release_tr(old(self)@, transaction_id, now);
                final(self)@ == m2 && r == res
            }),
    {
        if transaction_id == 0 || transaction_id > self.transactions.len() as u128 {
            return Err(Error::TransactionNotFound);
        }
        let idx: usize = (transaction_id - 1) as usize;
        if self.transactions[idx].status == TransactionStatus::Disputed {
            return Err(Error::InvalidStatus);
        }
        self.release_holdback_if_due(transaction_id, now)
    }

    /// Returns the stored transaction record.
    pub fn get_transaction(&self, transaction_id: u128) -> (r: Result<Transaction, Error>)
        ensures
            r == get_transaction_spec(self@, transaction_id),
    {
        if transaction_id == 0 || transaction_id > self.transactions.len() as u128 {
            return Err(Error::TransactionNotFound);
        }
        Ok(self.transactions[(transaction_id - 1) as usize])
    }

    /// Returns the stored administrator identity.
    pub fn get_admin(&self) -> (r: Result<u64, Error>)
        ensures
            r == get_admin_spec(self@),
    {
        match self.admin {
            Some(a) => Ok(a),
            None => Err(Error::NotInitialized),
        }
    }
}

} // verus!
