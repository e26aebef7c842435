//! The mathematical model of the escrow ledger.
//!
//! `Model` is the ghost view of the ledger state: the admin registry, the
//! transaction store (the record with identifier `i` sits at sequence index
//! `i - 1`, so identifiers are sequential from 1 and never reused), and the
//! pending effects owed to the host. Each operation of the library is
//! specified by a transition function from a model and the operation's inputs
//! to the next model and the operation's result; a failed operation returns
//! the model unchanged. The proof functions at the end of the module state
//! the laws of the state machine.

use vstd::prelude::*;
use vstd::arithmetic::div_mod::{
    lemma_div_is_ordered, lemma_div_multiples_vanish, lemma_fundamental_div_mod,
    lemma_hoist_over_denominator,
};
use crate::entities::{Event, Transaction, TransactionStatus, Transfer};
use crate::errors::Error;

verus! {

pub const DAY_IN_SECONDS: u64 = 86400;

/// Ghost state of the escrow ledger.
#[verifier::ext_equal]
pub ghost struct Model {
    /// The administrator identity, if the registry was initialized.
    pub admin: Option<u64>,
    /// All transactions ever created; identifier `i` sits at index `i - 1`.
    pub txs: Seq<Transaction>,
    /// Fund movements owed to the asset-transfer collaborator, oldest first.
    pub transfers: Seq<Transfer>,
    /// Events owed to the event sink, oldest first.
    pub events: Seq<Event>,
}

pub open spec fn empty_model() -> Model {
    Model { admin: None, txs: Seq::empty(), transfers: Seq::empty(), events: Seq::empty() }
}

/// A deposit is positive and at most the largest signed 128-bit value.
pub open spec fn amount_in_range(amount: u128) -> bool {
    0 < amount <= i128::MAX as u128
}

/// A holdback rate is a percentage in (0, 100].
pub open spec fn rate_in_range(rate: u32) -> bool {
    0 < rate <= 100
}

/// The withheld portion: `floor(amount * rate / 100)`.
pub open spec fn holdback_of(amount: u128, rate: u32) -> int {
    (amount as int) * (rate as int) / 100
}

/// The portion forwarded to the seller at creation.
pub open spec fn final_of(amount: u128, rate: u32) -> int {
    amount - holdback_of(amount, rate)
}

/// Seconds in `holdback_days` days.
pub open spec fn release_seconds(holdback_days: u32) -> int {
    (holdback_days as int) * (DAY_IN_SECONDS as int)
}

/// Does the store hold a transaction with this identifier?
pub open spec fn has_tx(m: Model, transaction_id: u128) -> bool {
    1 <= transaction_id <= m.txs.len()
}

/// The stored transaction with this identifier.
pub open spec fn tx_of(m: Model, transaction_id: u128) -> Transaction {
    m.txs[transaction_id as int - 1]
}

/// The same record with only its status changed.
pub open spec fn with_status(t: Transaction, status: TransactionStatus) -> Transaction {
    Transaction { status, ..t }
}

pub open spec fn is_terminal(status: TransactionStatus) -> bool {
    status == TransactionStatus::Completed || status == TransactionStatus::Cancelled
}

// ------------------------------------------------------------------
// Transition functions
// ------------------------------------------------------------------

/// The first violated creation precondition, in check order, if any.
pub open spec fn create_first_error(
    m: Model,
    buyer: u64,
    seller: u64,
    amount: u128,
    token: u64,
    holdback_rate: u32,
    holdback_days: u32,
    now: u64,
    buyer_balance: i128,
    buyer_allowance: i128,
) -> Option<Error> {
    if m.admin is None {
        Some(Error::NotInitialized)
    } else if !amount_in_range(amount) {
        Some(Error::InvalidAmount)
    } else if !rate_in_range(holdback_rate) {
        Some(Error::InvalidHoldbackRate)
    } else if buyer == seller || m.admin == Some(buyer) || m.admin == Some(seller) {
        Some(Error::InvalidBuyer)
    } else if buyer == token || seller == token {
        Some(Error::InvalidSeller)
    } else if buyer_balance < amount as i128 {
        Some(Error::InsufficientBalance)
    } else if buyer_allowance < amount as i128 {
        Some(Error::InsufficientAllowance)
    } else if now + release_seconds(holdback_days) > u64::MAX {
        Some(Error::InvalidAmount)
    } else {
        None
    }
}

/// The record a successful creation stores, before it gets its identifier.
pub open spec fn created_tx(
    buyer: u64,
    seller: u64,
    amount: u128,
    token: u64,
    holdback_rate: u32,
    holdback_days: u32,
    now: u64,
) -> Transaction {
    Transaction {
        buyer: buyer,
        seller: seller,
        amount: amount,
        token: token,
        holdback_rate: holdback_rate,
        holdback_amount: holdback_of(amount, holdback_rate) as u128,
        final_amount: final_of(amount, holdback_rate) as u128,
        release_time: (now + release_seconds(holdback_days)) as u64,
        status: TransactionStatus::Held,
    }
}

pub open spec fn initialize_tr(m: Model, admin: u64) -> (Model, Result<bool, Error>) {
    if m.admin is Some {
        (m, Err(Error::AlreadyInitialized))
    } else {
        (Model { admin: Some(admin), txs: m.txs, transfers: m.transfers, events: m.events },
            Ok(true))
    }
}

pub open spec fn create_payment_tr(
    m: Model,
    buyer: u64,
    seller: u64,
    amount: u128,
    token: u64,
    holdback_rate: u32,
    holdback_days: u32,
    now: u64,
    buyer_balance: i128,
    buyer_allowance: i128,
) -> (Model, Result<u128, Error>) {
    match create_first_error(m, buyer, seller, amount, token, holdback_rate, holdback_days,
        now, buyer_balance, buyer_allowance) {
        Some(e) => (m, Err(e)),
        None => {
            let t = created_tx(buyer, seller, amount, token, holdback_rate, holdback_days, now);
            let transaction_id = (m.txs.len() + 1) as u128;
            let pulled = m.transfers.push(
                Transfer::Pull { from: buyer, token: token, amount: amount });
            let moved = if t.final_amount > 0 {
                pulled.push(Transfer::Pay { to: seller, token: token, amount: t.final_amount })
            } else {
                pulled
            };
            (Model {
                admin: m.admin,
                txs: m.txs.push(t),
                transfers: moved,
                events: m.events.push(Event::TxCreated {
                    transaction_id: transaction_id,
                    buyer: buyer,
                    seller: seller,
                    amount: amount,
                    holdback_amount: t.holdback_amount,
                }),
            }, Ok(transaction_id))
        },
    }
}

/// Is the holdback of this record due for automatic release?
pub open spec fn release_due(t: Transaction, now: u64) -> bool {
    ||| t.status == TransactionStatus::HoldbackPending
    ||| (t.status == TransactionStatus::Held && now >= t.release_time)
}

/// The state after the holdback of `transaction_id` is paid out to the seller.
pub open spec fn released(m: Model, transaction_id: u128) -> Model {
    let t = tx_of(m, transaction_id);
    Model {
        admin: m.admin,
        txs: m.txs.update(transaction_id as int - 1,
            with_status(t, TransactionStatus::Completed)),
        transfers: m.transfers.push(
            Transfer::Pay { to: t.seller, token: t.token, amount: t.holdback_amount }),
        events: m.events.push(Event::HoldbackReleased {
            transaction_id: transaction_id,
            seller: t.seller,
            amount: t.holdback_amount,
        }),
    }
}

pub open spec fn release_holdback_if_due_tr(m: Model, transaction_id: u128, now: u64)
    -> (Model, Result<(), Error>) {
    if !has_tx(m, transaction_id) {
        (m, Err(Error::TransactionNotFound))
    } else if release_due(tx_of(m, transaction_id), now) {
        (released(m, transaction_id), Ok(()))
    } else {
        (m, Ok(()))
    }
}

pub open spec fn approve_release_tr(m: Model, transaction_id: u128, buyer: u64, now: u64)
    -> (Model, Result<(), Error>) {
    if !has_tx(m, transaction_id) {
        (m, Err(Error::TransactionNotFound))
    } else if tx_of(m, transaction_id).buyer != buyer {
        (m, Err(Error::Unauthorized))
    } else if tx_of(m, transaction_id).status != TransactionStatus::Held {
        (m, Err(Error::InvalidStatus))
    } else {
        let pending = Model {
            admin: m.admin,
            txs: m.txs.update(transaction_id as int - 1,
                with_status(tx_of(m, transaction_id), TransactionStatus::HoldbackPending)),
            transfers: m.transfers,
            events: m.events,
        };
        release_holdback_if_due_tr(pending, transaction_id, now)
    }
}

pub open spec fn initiate_dispute_tr(m: Model, transaction_id: u128, buyer: u64)
    -> (Model, Result<(), Error>) {
    if !has_tx(m, transaction_id) {
        (m, Err(Error::TransactionNotFound))
    } else if tx_of(m, transaction_id).buyer != buyer {
        (m, Err(Error::Unauthorized))
    } else if tx_of(m, transaction_id).status != TransactionStatus::Held
        && tx_of(m, transaction_id).status != TransactionStatus::HoldbackPending {
        (m, Err(Error::InvalidStatus))
    } else {
        (Model {
            admin: m.admin,
            txs: m.txs.update(transaction_id as int - 1,
                with_status(tx_of(m, transaction_id), TransactionStatus::Disputed)),
            transfers: m.transfers,
            events: m.events.push(Event::DisputeInitiated {
                transaction_id: transaction_id,
                buyer: buyer,
            }),
        }, Ok(()))
    }
}

pub open spec fn resolve_dispute_tr(m: Model, transaction_id: u128, refund: bool, admin: u64)
    -> (Model, Result<(), Error>) {
    if m.admin is None {
        (m, Err(Error::NotInitialized))
    } else if m.admin != Some(admin) {
        (m, Err(Error::Unauthorized))
    } else if !has_tx(m, transaction_id) {
        (m, Err(Error::TransactionNotFound))
    } else if tx_of(m, transaction_id).status != TransactionStatus::Disputed {
        (m, Err(Error::InvalidStatus))
    } else {
        let t = tx_of(m, transaction_id);
        if refund {
            (Model {
                admin: m.admin,
                txs: m.txs.update(transaction_id as int - 1,
                    with_status(t, TransactionStatus::Cancelled)),
                transfers: m.transfers.push(
                    Transfer::Pay { to: t.buyer, token: t.token, amount: t.holdback_amount }),
                events: m.events.push(Event::HoldbackRefunded {
                    transaction_id: transaction_id,
                    buyer: t.buyer,
                    amount: t.holdback_amount,
                }),
            }, Ok(()))
        } else {
            (released(m, transaction_id), Ok(()))
        }
    }
}

pub open spec fn check_and_release_tr(m: Model, transaction_id: u128, now: u64)
    -> (Model, Result<(), Error>) {
    if !has_tx(m, transaction_id) {
        (m, Err(Error::TransactionNotFound))
    } else if tx_of(m, transaction_id).status == TransactionStatus::Disputed {
        (m, Err(Error::InvalidStatus))
    } else {
        release_holdback_if_due_tr(m, transaction_id, now)
    }
}

pub open spec fn get_transaction_spec(m: Model, transaction_id: u128)
    -> Result<Transaction, Error> {
    if has_tx(m, transaction_id) {
        Ok(tx_of(m, transaction_id))
    } else {
        Err(Error::TransactionNotFound)
    }
}

pub open spec fn get_admin_spec(m: Model) -> Result<u64, Error> {
    match m.admin {
        Some(a) => Ok(a),
        None => Err(Error::NotInitialized),
    }
}

// ------------------------------------------------------------------
// Well-formedness
// ------------------------------------------------------------------

/// Everything that holds of each stored record: the holdback split is exact
/// and conserves the deposit, and the principals are pairwise distinct.
pub open spec fn tx_wf(t: Transaction, admin: u64) -> bool {
    &&& amount_in_range(t.amount)
    &&& rate_in_range(t.holdback_rate)
    &&& t.holdback_amount == holdback_of(t.amount, t.holdback_rate)
    &&& t.holdback_amount + t.final_amount == t.amount
    &&& t.buyer != t.seller
    &&& t.buyer != admin
    &&& t.seller != admin
    &&& t.buyer != t.token
    &&& t.seller != t.token
}

pub open spec fn txs_wf(admin: Option<u64>, txs: Seq<Transaction>) -> bool {
    match admin {
        None => txs.len() == 0,
        Some(a) => forall|i: int| 0 <= i < txs.len() ==> tx_wf(#[trigger] txs[i], a),
    }
}

/// The ledger invariant: no record exists before initialization, and every
/// record is well formed with respect to the (then immutable) admin.
pub open spec fn wf(m: Model) -> bool {
    txs_wf(m.admin, m.txs)
}

// ------------------------------------------------------------------
// Laws
// ------------------------------------------------------------------

/// The holdback split conserves the deposit exactly: for every rate in
/// (0, 100] the withheld part is between 0 and the amount, and withheld part
/// plus forwarded part equal the amount, with integer floor division.
pub proof fn lemma_holdback_partition(amount: u128, rate: u32)
    requires
        amount_in_range(amount),
        rate_in_range(rate),
    ensures
        0 <= holdback_of(amount, rate) <= amount,
        holdback_of(amount, rate) + final_of(amount, rate) == amount,
{
    let a = amount as int;
    let r = rate as int;
    assert(0 <= a * r && a * r <= a * 100) by (nonlinear_arith)
        requires 0 < a, 0 < r <= 100;
    lemma_div_is_ordered(0, a * r, 100);
    lemma_div_is_ordered(a * r, a * 100, 100);
    assert(a * 100 == 100 * a) by (nonlinear_arith);
    lemma_div_multiples_vanish(a, 100);
}

/// The withheld part can be computed without 128-bit overflow by splitting
/// the amount at its last two decimal digits.
pub proof fn lemma_holdback_split(amount: u128, rate: u32)
    requires
        amount_in_range(amount),
        rate_in_range(rate),
    ensures
        holdback_of(amount, rate)
            == ((amount as int) / 100) * (rate as int)
                + (((amount as int) % 100) * (rate as int)) / 100,
{
    let a = amount as int;
    let r = rate as int;
    let q = a / 100;
    let s = a % 100;
    lemma_fundamental_div_mod(a, 100);
    assert(a * r == s * r + (q * r) * 100) by (nonlinear_arith)
        requires a == 100 * q + s;
    lemma_hoist_over_denominator(s * r, q * r, 100);
}

proof fn lemma_status_update_wf(
    admin: Option<u64>,
    txs: Seq<Transaction>,
    i: int,
    status: TransactionStatus,
)
    requires
        txs_wf(admin, txs),
        0 <= i < txs.len(),
    ensures
        txs_wf(admin, txs.update(i, with_status(txs[i], status))),
{
    match admin {
        None => {},
        Some(a) => {
            let txs2 = txs.update(i, with_status(txs[i], status));
            assert forall|j: int| 0 <= j < txs2.len() implies tx_wf(#[trigger] txs2[j], a) by {
                if j != i {
                    assert(txs2[j] == txs[j]);
                }
            }
        },
    }
}

/// Initialization preserves the ledger invariant.
pub proof fn lemma_initialize_preserves_wf(m: Model, admin: u64)
    requires
        wf(m),
    ensures
        wf(initialize_tr(m, admin).0),
{
}

/// Creation preserves the ledger invariant: in particular the stored record
/// carries the exact holdback split of its deposit.
pub proof fn lemma_create_payment_preserves_wf(
    m: Model,
    buyer: u64,
    seller: u64,
    amount: u128,
    token: u64,
    holdback_rate: u32,
    holdback_days: u32,
    now: u64,
    buyer_balance: i128,
    buyer_allowance: i128,
)
    requires
        wf(m),
    ensures
        wf(create_payment_tr(m, buyer, seller, amount, token, holdback_rate, holdback_days,
            now, buyer_balance, buyer_allowance).0),
{
    let e = create_first_error(m, buyer, seller, amount, token, holdback_rate, holdback_days,
        now, buyer_balance, buyer_allowance);
    if e is None {
        lemma_holdback_partition(amount, holdback_rate);
        let t = created_tx(buyer, seller, amount, token, holdback_rate, holdback_days, now);
        let m2 = create_payment_tr(m, buyer, seller, amount, token, holdback_rate,
            holdback_days, now, buyer_balance, buyer_allowance).0;
        match m.admin {
            None => {},
            Some(a) => {
                assert(tx_wf(t, a));
                assert forall|i: int| 0 <= i < m2.txs.len() implies tx_wf(#[trigger] m2.txs[i], a)
                by {
                    if i < m.txs.len() {
                        assert(m2.txs[i] == m.txs[i]);
                    } else {
                        assert(m2.txs[i] == t);
                    }
                }
            },
        }
    }
}

/// The shared release routine preserves the ledger invariant.
pub proof fn lemma_release_holdback_preserves_wf(m: Model, transaction_id: u128, now: u64)
    requires
        wf(m),
    ensures
        wf(release_holdback_if_due_tr(m, transaction_id, now).0),
{
    if has_tx(m, transaction_id) && release_due(tx_of(m, transaction_id), now) {
        lemma_status_update_wf(m.admin, m.txs, transaction_id as int - 1,
            TransactionStatus::Completed);
    }
}

/// Buyer approval preserves the ledger invariant.
pub proof fn lemma_approve_release_preserves_wf(
    m: Model,
    transaction_id: u128,
    buyer: u64,
    now: u64,
)
    requires
        wf(m),
    ensures
        wf(approve_release_tr(m, transaction_id, buyer, now).0),
{
    if has_tx(m, transaction_id) && tx_of(m, transaction_id).buyer == buyer
        && tx_of(m, transaction_id).status == TransactionStatus::Held {
        lemma_status_update_wf(m.admin, m.txs, transaction_id as int - 1,
            TransactionStatus::HoldbackPending);
        let pending = Model {
            admin: m.admin,
            txs: m.txs.update(transaction_id as int - 1,
                with_status(tx_of(m, transaction_id), TransactionStatus::HoldbackPending)),
            transfers: m.transfers,
            events: m.events,
        };
        lemma_release_holdback_preserves_wf(pending, transaction_id, now);
    }
}

/// Raising a dispute preserves the ledger invariant.
pub proof fn lemma_initiate_dispute_preserves_wf(m: Model, transaction_id: u128, buyer: u64)
    requires
        wf(m),
    ensures
        wf(initiate_dispute_tr(m, transaction_id, buyer).0),
{
    let r = initiate_dispute_tr(m, transaction_id, buyer).1;
    if r is Ok {
        lemma_status_update_wf(m.admin, m.txs, transaction_id as int - 1,
            TransactionStatus::Disputed);
    }
}

/// Dispute resolution preserves the ledger invariant.
pub proof fn lemma_resolve_dispute_preserves_wf(
    m: Model,
    transaction_id: u128,
    refund: bool,
    admin: u64,
)
    requires
        wf(m),
    ensures
        wf(resolve_dispute_tr(m, transaction_id, refund, admin).0),
{
    let r = resolve_dispute_tr(m, transaction_id, refund, admin).1;
    if r is Ok {
        if refund {
            lemma_status_update_wf(m.admin, m.txs, transaction_id as int - 1,
                TransactionStatus::Cancelled);
        } else {
            lemma_status_update_wf(m.admin, m.txs, transaction_id as int - 1,
                TransactionStatus::Completed);
        }
    }
}

/// The time-based release check preserves the ledger invariant.
pub proof fn lemma_check_and_release_preserves_wf(m: Model, transaction_id: u128, now: u64)
    requires
        wf(m),
    ensures
        wf(check_and_release_tr(m, transaction_id, now).0),
{
    lemma_release_holdback_preserves_wf(m, transaction_id, now);
}

/// A successful creation stores the new record under the next sequential
/// identifier, with status `Held` and a release time of the creation time
/// plus the holdback period; every older record is untouched.
pub proof fn lemma_create_payment_initial_state(
    m: Model,
    buyer: u64,
    seller: u64,
    amount: u128,
    token: u64,
    holdback_rate: u32,
    holdback_days: u32,
    now: u64,
    buyer_balance: i128,
    buyer_allowance: i128,
)
    requires
        m.txs.len() < u128::MAX,
        create_payment_tr(m, buyer, seller, amount, token, holdback_rate, holdback_days,
            now, buyer_balance, buyer_allowance).1 is Ok,
    ensures
        ({
            let (m2, r) = create_payment_tr(m, buyer, seller, amount, token, holdback_rate,
                holdback_days, now, buyer_balance, buyer_allowance);
            &&& r == Ok::<u128, Error>((m.txs.len() + 1) as u128)
            &&& m2.txs.len() == m.txs.len() + 1
            &&& tx_of(m2, r->Ok_0) == created_tx(buyer, seller, amount, token, holdback_rate,
                holdback_days, now)
            &&& tx_of(m2, r->Ok_0).status == TransactionStatus::Held
            &&& tx_of(m2, r->Ok_0).release_time == now + release_seconds(holdback_days)
            &&& forall|id: u128| has_tx(m, id) ==> #[trigger] tx_of(m2, id) == tx_of(m, id)
        }),
{
}

/// Approval by anyone but the transaction's buyer is rejected and changes
/// nothing.
pub proof fn lemma_approve_release_unauthorized(
    m: Model,
    transaction_id: u128,
    caller: u64,
    now: u64,
)
    requires
        has_tx(m, transaction_id),
        tx_of(m, transaction_id).buyer != caller,
    ensures
        approve_release_tr(m, transaction_id, caller, now)
            == (m, Err::<(), Error>(Error::Unauthorized)),
{
}

/// A second approval of the same transaction fails with `InvalidStatus`:
/// the first one already moved it past `Held`.
pub proof fn lemma_approve_release_twice(
    m: Model,
    transaction_id: u128,
    buyer: u64,
    now: u64,
    now2: u64,
)
    requires
        approve_release_tr(m, transaction_id, buyer, now).1 is Ok,
    ensures
        ({
            let m2 = approve_release_tr(m, transaction_id, buyer, now).0;
            approve_release_tr(m2, transaction_id, buyer, now2)
                == (m2, Err::<(), Error>(Error::InvalidStatus))
        }),
{
}

/// On a `Held` transaction whose timer has not elapsed, the release check is
/// a successful no-op.
pub proof fn lemma_check_and_release_early_noop(m: Model, transaction_id: u128, now: u64)
    requires
        has_tx(m, transaction_id),
        tx_of(m, transaction_id).status == TransactionStatus::Held,
        now < tx_of(m, transaction_id).release_time,
    ensures
        check_and_release_tr(m, transaction_id, now) == (m, Ok::<(), Error>(())),
{
}

/// On a `Held` transaction whose timer has elapsed, the release check pays
/// the holdback to the seller exactly once and completes the transaction.
pub proof fn lemma_check_and_release_due(m: Model, transaction_id: u128, now: u64)
    requires
        has_tx(m, transaction_id),
        tx_of(m, transaction_id).status == TransactionStatus::Held,
        now >= tx_of(m, transaction_id).release_time,
    ensures
        ({
            let t = tx_of(m, transaction_id);
            let (m2, r) = check_and_release_tr(m, transaction_id, now);
            &&& r == Ok::<(), Error>(())
            &&& tx_of(m2, transaction_id) == with_status(t, TransactionStatus::Completed)
            &&& m2.transfers == m.transfers.push(
                (Transfer::Pay { to: t.seller, token: t.token, amount: t.holdback_amount }))
            &&& m2.events == m.events.push(
                (Event::HoldbackReleased {
                    transaction_id: transaction_id,
                    seller: t.seller,
                    amount: t.holdback_amount,
                }))
        }),
{
}

/// Once disputed, a transaction never auto-releases: the release check fails
/// with `InvalidStatus` and changes nothing.
pub proof fn lemma_dispute_blocks_auto_release(
    m: Model,
    transaction_id: u128,
    buyer: u64,
    now: u64,
)
    requires
        initiate_dispute_tr(m, transaction_id, buyer).1 is Ok,
    ensures
        ({
            let m2 = initiate_dispute_tr(m, transaction_id, buyer).0;
            check_and_release_tr(m2, transaction_id, now)
                == (m2, Err::<(), Error>(Error::InvalidStatus))
        }),
{
}

/// A successful dispute resolution pays the holdback exactly once: to the
/// buyer with status `Cancelled` on a refund, to the seller with status
/// `Completed` otherwise.
pub proof fn lemma_resolve_dispute_outcome(
    m: Model,
    transaction_id: u128,
    refund: bool,
    admin: u64,
)
    requires
        resolve_dispute_tr(m, transaction_id, refund, admin).1 is Ok,
    ensures
        ({
            let t = tx_of(m, transaction_id);
            let m2 = resolve_dispute_tr(m, transaction_id, refund, admin).0;
            &&& refund ==> tx_of(m2, transaction_id)
                == with_status(t, TransactionStatus::Cancelled)
                && m2.transfers == m.transfers.push(
                    (Transfer::Pay { to: t.buyer, token: t.token, amount: t.holdback_amount }))
            &&& !refund ==> tx_of(m2, transaction_id)
                == with_status(t, TransactionStatus::Completed)
                && m2.transfers == m.transfers.push(
                    (Transfer::Pay { to: t.seller, token: t.token, amount: t.holdback_amount }))
        }),
{
}

/// Resolving the same dispute a second time fails with `InvalidStatus`: the
/// first resolution left the transaction in a terminal state.
pub proof fn lemma_resolve_dispute_twice(
    m: Model,
    transaction_id: u128,
    refund: bool,
    refund2: bool,
    admin: u64,
)
    requires
        resolve_dispute_tr(m, transaction_id, refund, admin).1 is Ok,
    ensures
        ({
            let m2 = resolve_dispute_tr(m, transaction_id, refund, admin).0;
            resolve_dispute_tr(m2, transaction_id, refund2, admin)
                == (m2, Err::<(), Error>(Error::InvalidStatus))
        }),
{
}

/// A terminal (completed or cancelled) transaction is frozen: every further
/// operation on it either fails or — for the release check — succeeds as a
/// no-op; none moves funds or changes state, however often it is repeated.
pub proof fn lemma_terminal_is_frozen(
    m: Model,
    transaction_id: u128,
    buyer: u64,
    refund: bool,
    admin: u64,
    now: u64,
)
    requires
        has_tx(m, transaction_id),
        is_terminal(tx_of(m, transaction_id).status),
    ensures
        approve_release_tr(m, transaction_id, buyer, now).0 == m,
        initiate_dispute_tr(m, transaction_id, buyer).0 == m,
        resolve_dispute_tr(m, transaction_id, refund, admin).0 == m,
        check_and_release_tr(m, transaction_id, now) == (m, Ok::<(), Error>(())),
{
}

} // verus!

