use holdback_escrow::{Error, Event, HoldBackContract, Transaction, TransactionStatus, Transfer};

const ADMIN: u64 = 1;
const BUYER: u64 = 2;
const SELLER: u64 = 3;
const TOKEN: u64 = 4;
const DAY: u64 = 86400;

fn ready_ledger() -> HoldBackContract {
    let mut c = HoldBackContract::new();
    assert_eq!(c.initialize(ADMIN), Ok(true));
    c
}

fn create(c: &mut HoldBackContract, amount: u128, rate: u32, days: u32, now: u64) -> u128 {
    c.create_payment(BUYER, SELLER, amount, TOKEN, rate, days, now, amount as i128, amount as i128)
        .expect("creation with valid inputs succeeds")
}

#[test]
fn get_admin_before_initialization_fails() {
    let c = HoldBackContract::new();
    assert_eq!(c.get_admin(), Err(Error::NotInitialized));
}

#[test]
fn initialize_records_admin() {
    let mut c = HoldBackContract::new();
    assert_eq!(c.initialize(ADMIN), Ok(true));
    assert_eq!(c.get_admin(), Ok(ADMIN));
}

#[test]
fn initialize_twice_fails() {
    let mut c = ready_ledger();
    assert_eq!(c.initialize(77), Err(Error::AlreadyInitialized));
    assert_eq!(c.get_admin(), Ok(ADMIN));
}

#[test]
fn create_before_initialization_fails() {
    let mut c = HoldBackContract::new();
    let r = c.create_payment(BUYER, SELLER, 1000, TOKEN, 20, 5, 0, 1000, 1000);
    assert_eq!(r, Err(Error::NotInitialized));
}

#[test]
fn create_rejects_zero_amount() {
    let mut c = ready_ledger();
    let r = c.create_payment(BUYER, SELLER, 0, TOKEN, 20, 5, 0, 1000, 1000);
    assert_eq!(r, Err(Error::InvalidAmount));
}

#[test]
fn create_rejects_amount_above_signed_range() {
    let mut c = ready_ledger();
    let r = c.create_payment(BUYER, SELLER, u128::MAX, TOKEN, 20, 5, 0, i128::MAX, i128::MAX);
    assert_eq!(r, Err(Error::InvalidAmount));
}

#[test]
fn create_rejects_zero_rate() {
    let mut c = ready_ledger();
    let r = c.create_payment(BUYER, SELLER, 1000, TOKEN, 0, 5, 0, 1000, 1000);
    assert_eq!(r, Err(Error::InvalidHoldbackRate));
}

#[test]
fn create_rejects_rate_over_hundred() {
    let mut c = ready_ledger();
    let r = c.create_payment(BUYER, SELLER, 1000, TOKEN, 101, 5, 0, 1000, 1000);
    assert_eq!(r, Err(Error::InvalidHoldbackRate));
}

#[test]
fn create_rejects_buyer_equal_seller() {
    let mut c = ready_ledger();
    let r = c.create_payment(BUYER, BUYER, 1000, TOKEN, 20, 5, 0, 1000, 1000);
    assert_eq!(r, Err(Error::InvalidBuyer));
}

#[test]
fn create_rejects_buyer_equal_admin() {
    let mut c = ready_ledger();
    let r = c.create_payment(ADMIN, SELLER, 1000, TOKEN, 20, 5, 0, 1000, 1000);
    assert_eq!(r, Err(Error::InvalidBuyer));
}

#[test]
fn create_rejects_seller_equal_admin() {
    let mut c = ready_ledger();
    let r = c.create_payment(BUYER, ADMIN, 1000, TOKEN, 20, 5, 0, 1000, 1000);
    assert_eq!(r, Err(Error::InvalidBuyer));
}

#[test]
fn create_rejects_token_equal_buyer() {
    let mut c = ready_ledger();
    let r = c.create_payment(BUYER, SELLER, 1000, BUYER, 20, 5, 0, 1000, 1000);
    assert_eq!(r, Err(Error::InvalidSeller));
}

#[test]
fn create_rejects_token_equal_seller() {
    let mut c = ready_ledger();
    let r = c.create_payment(BUYER, SELLER, 1000, SELLER, 20, 5, 0, 1000, 1000);
    assert_eq!(r, Err(Error::InvalidSeller));
}

#[test]
fn create_rejects_insufficient_balance() {
    let mut c = ready_ledger();
    let r = c.create_payment(BUYER, SELLER, 1000, TOKEN, 20, 5, 0, 999, 1000);
    assert_eq!(r, Err(Error::InsufficientBalance));
}

#[test]
fn create_rejects_insufficient_allowance() {
    let mut c = ready_ledger();
    let r = c.create_payment(BUYER, SELLER, 1000, TOKEN, 20, 5, 0, 1000, 999);
    assert_eq!(r, Err(Error::InsufficientAllowance));
}

#[test]
fn create_rejects_release_time_overflow() {
    let mut c = ready_ledger();
    let r = c.create_payment(BUYER, SELLER, 1000, TOKEN, 20, 1, u64::MAX, 1000, 1000);
    assert_eq!(r, Err(Error::InvalidAmount));
}

#[test]
fn failed_create_changes_nothing() {
    let mut c = ready_ledger();
    let r = c.create_payment(BUYER, SELLER, 0, TOKEN, 20, 5, 0, 1000, 1000);
    assert!(r.is_err());
    assert!(c.transactions.is_empty());
    assert!(c.transfers.is_empty());
    assert!(c.events.is_empty());
}

#[test]
fn holdback_split_conserves_amount() {
    let mut c = ready_ledger();
    let id = create(&mut c, 1000, 20, 5, 0);
    let t = c.get_transaction(id).unwrap();
    assert_eq!(t.holdback_amount, 200);
    assert_eq!(t.final_amount, 800);
    assert_eq!(t.holdback_amount + t.final_amount, t.amount);
}

#[test]
fn holdback_split_uses_floor_division() {
    let mut c = ready_ledger();
    let id = create(&mut c, 999, 33, 5, 0);
    let t = c.get_transaction(id).unwrap();
    // floor(999 * 33 / 100) = floor(329.67) = 329
    assert_eq!(t.holdback_amount, 329);
    assert_eq!(t.final_amount, 670);
    assert_eq!(t.holdback_amount + t.final_amount, 999);
}

#[test]
fn holdback_split_conserves_for_every_rate() {
    let mut c = ready_ledger();
    for rate in 1..=100u32 {
        let id = create(&mut c, 12345, rate, 5, 0);
        let t = c.get_transaction(id).unwrap();
        assert_eq!(t.holdback_amount, 12345 * rate as u128 / 100);
        assert_eq!(t.holdback_amount + t.final_amount, 12345);
    }
}

#[test]
fn holdback_split_at_extreme_amount() {
    let mut c = ready_ledger();
    let amount = i128::MAX as u128;
    let id = c
        .create_payment(BUYER, SELLER, amount, TOKEN, 99, 5, 0, i128::MAX, i128::MAX)
        .unwrap();
    let t = c.get_transaction(id).unwrap();
    assert_eq!(t.holdback_amount, amount / 100 * 99 + amount % 100 * 99 / 100);
    assert_eq!(t.holdback_amount + t.final_amount, amount);
}

#[test]
fn create_sets_held_status_and_release_time() {
    let mut c = ready_ledger();
    let id = create(&mut c, 1000, 20, 5, 1000);
    let t = c.get_transaction(id).unwrap();
    assert_eq!(t.status, TransactionStatus::Held);
    assert_eq!(t.release_time, 1000 + 5 * DAY);
    assert_eq!(t.buyer, BUYER);
    assert_eq!(t.seller, SELLER);
    assert_eq!(t.token, TOKEN);
    assert_eq!(t.holdback_rate, 20);
}

#[test]
fn create_assigns_sequential_ids_from_one() {
    let mut c = ready_ledger();
    assert_eq!(create(&mut c, 1000, 20, 5, 0), 1);
    assert_eq!(create(&mut c, 500, 10, 1, 0), 2);
    assert_eq!(create(&mut c, 700, 50, 2, 0), 3);
}

#[test]
fn create_pulls_deposit_and_forwards_final_amount() {
    let mut c = ready_ledger();
    create(&mut c, 1000, 20, 5, 0);
    assert_eq!(
        c.transfers,
        vec![
            Transfer::Pull { from: BUYER, token: TOKEN, amount: 1000 },
            Transfer::Pay { to: SELLER, token: TOKEN, amount: 800 },
        ]
    );
    assert_eq!(
        c.events,
        vec![Event::TxCreated {
            transaction_id: 1,
            buyer: BUYER,
            seller: SELLER,
            amount: 1000,
            holdback_amount: 200,
        }]
    );
}

#[test]
fn create_with_full_holdback_forwards_nothing() {
    let mut c = ready_ledger();
    create(&mut c, 1000, 100, 5, 0);
    // the whole deposit is withheld, so only the pull happens at creation
    assert_eq!(c.transfers, vec![Transfer::Pull { from: BUYER, token: TOKEN, amount: 1000 }]);
}

#[test]
fn approve_release_by_non_buyer_fails() {
    let mut c = ready_ledger();
    let id = create(&mut c, 1000, 20, 5, 0);
    assert_eq!(c.approve_release(id, SELLER, 10), Err(Error::Unauthorized));
    assert_eq!(c.get_transaction(id).unwrap().status, TransactionStatus::Held);
}

#[test]
fn approve_release_pays_holdback_at_once() {
    let mut c = ready_ledger();
    let id = create(&mut c, 1000, 20, 5, 0);
    assert_eq!(c.approve_release(id, BUYER, 10), Ok(()));
    let t = c.get_transaction(id).unwrap();
    assert_eq!(t.status, TransactionStatus::Completed);
    assert_eq!(
        c.transfers.last(),
        Some(&Transfer::Pay { to: SELLER, token: TOKEN, amount: 200 })
    );
    assert_eq!(
        c.events.last(),
        Some(&Event::HoldbackReleased { transaction_id: id, seller: SELLER, amount: 200 })
    );
}

#[test]
fn approve_release_twice_fails() {
    let mut c = ready_ledger();
    let id = create(&mut c, 1000, 20, 5, 0);
    assert_eq!(c.approve_release(id, BUYER, 10), Ok(()));
    let transfers_after_first = c.transfers.len();
    assert_eq!(c.approve_release(id, BUYER, 11), Err(Error::InvalidStatus));
    assert_eq!(c.transfers.len(), transfers_after_first);
}

#[test]
fn approve_release_on_missing_transaction_fails() {
    let mut c = ready_ledger();
    assert_eq!(c.approve_release(1, BUYER, 0), Err(Error::TransactionNotFound));
}

#[test]
fn check_and_release_before_release_time_is_a_noop() {
    let mut c = ready_ledger();
    let id = create(&mut c, 1000, 20, 5, 0);
    let transfers_before = c.transfers.clone();
    assert_eq!(c.check_and_release(id, 5 * DAY - 1), Ok(()));
    assert_eq!(c.get_transaction(id).unwrap().status, TransactionStatus::Held);
    assert_eq!(c.transfers, transfers_before);
}

#[test]
fn check_and_release_after_release_time_completes_once() {
    let mut c = ready_ledger();
    let id = create(&mut c, 1000, 20, 5, 0);
    let transfers_before = c.transfers.len();
    assert_eq!(c.check_and_release(id, 5 * DAY), Ok(()));
    assert_eq!(c.get_transaction(id).unwrap().status, TransactionStatus::Completed);
    assert_eq!(c.transfers.len(), transfers_before + 1);
    assert_eq!(
        c.transfers.last(),
        Some(&Transfer::Pay { to: SELLER, token: TOKEN, amount: 200 })
    );
}

#[test]
fn check_and_release_on_missing_transaction_fails() {
    let mut c = ready_ledger();
    assert_eq!(c.check_and_release(9, 0), Err(Error::TransactionNotFound));
}

#[test]
fn dispute_sets_status_and_moves_no_funds() {
    let mut c = ready_ledger();
    let id = create(&mut c, 1000, 20, 5, 0);
    let transfers_before = c.transfers.len();
    assert_eq!(c.initiate_dispute(id, BUYER), Ok(()));
    assert_eq!(c.get_transaction(id).unwrap().status, TransactionStatus::Disputed);
    assert_eq!(c.transfers.len(), transfers_before);
    assert_eq!(
        c.events.last(),
        Some(&Event::DisputeInitiated { transaction_id: id, buyer: BUYER })
    );
}

#[test]
fn dispute_by_non_buyer_fails() {
    let mut c = ready_ledger();
    let id = create(&mut c, 1000, 20, 5, 0);
    assert_eq!(c.initiate_dispute(id, SELLER), Err(Error::Unauthorized));
}

#[test]
fn dispute_on_completed_transaction_fails() {
    let mut c = ready_ledger();
    let id = create(&mut c, 1000, 20, 5, 0);
    assert_eq!(c.approve_release(id, BUYER, 0), Ok(()));
    assert_eq!(c.initiate_dispute(id, BUYER), Err(Error::InvalidStatus));
}

#[test]
fn disputed_transaction_never_auto_releases() {
    let mut c = ready_ledger();
    let id = create(&mut c, 1000, 20, 5, 0);
    assert_eq!(c.initiate_dispute(id, BUYER), Ok(()));
    // even long after the release time the check refuses to move funds
    let transfers_before = c.transfers.len();
    assert_eq!(c.check_and_release(id, 100 * DAY), Err(Error::InvalidStatus));
    assert_eq!(c.get_transaction(id).unwrap().status, TransactionStatus::Disputed);
    assert_eq!(c.transfers.len(), transfers_before);
}

#[test]
fn disputed_transaction_blocks_buyer_approval() {
    let mut c = ready_ledger();
    let id = create(&mut c, 1000, 20, 5, 0);
    assert_eq!(c.initiate_dispute(id, BUYER), Ok(()));
    assert_eq!(c.approve_release(id, BUYER, 100 * DAY), Err(Error::InvalidStatus));
}

#[test]
fn resolve_dispute_by_non_admin_fails() {
    let mut c = ready_ledger();
    let id = create(&mut c, 1000, 20, 5, 0);
    assert_eq!(c.initiate_dispute(id, BUYER), Ok(()));
    assert_eq!(c.resolve_dispute(id, true, BUYER), Err(Error::Unauthorized));
}

#[test]
fn resolve_dispute_without_dispute_fails() {
    let mut c = ready_ledger();
    let id = create(&mut c, 1000, 20, 5, 0);
    assert_eq!(c.resolve_dispute(id, true, ADMIN), Err(Error::InvalidStatus));
}

#[test]
fn resolve_dispute_with_refund_cancels_and_refunds_buyer() {
    let mut c = ready_ledger();
    let id = create(&mut c, 1000, 20, 5, 0);
    assert_eq!(c.initiate_dispute(id, BUYER), Ok(()));
    assert_eq!(c.resolve_dispute(id, true, ADMIN), Ok(()));
    assert_eq!(c.get_transaction(id).unwrap().status, TransactionStatus::Cancelled);
    assert_eq!(
        c.transfers.last(),
        Some(&Transfer::Pay { to: BUYER, token: TOKEN, amount: 200 })
    );
    assert_eq!(
        c.events.last(),
        Some(&Event::HoldbackRefunded { transaction_id: id, buyer: BUYER, amount: 200 })
    );
}

#[test]
fn resolve_dispute_without_refund_completes_and_pays_seller() {
    let mut c = ready_ledger();
    let id = create(&mut c, 1000, 20, 5, 0);
    assert_eq!(c.initiate_dispute(id, BUYER), Ok(()));
    assert_eq!(c.resolve_dispute(id, false, ADMIN), Ok(()));
    assert_eq!(c.get_transaction(id).unwrap().status, TransactionStatus::Completed);
    assert_eq!(
        c.transfers.last(),
        Some(&Transfer::Pay { to: SELLER, token: TOKEN, amount: 200 })
    );
    assert_eq!(
        c.events.last(),
        Some(&Event::HoldbackReleased { transaction_id: id, seller: SELLER, amount: 200 })
    );
}

#[test]
fn resolve_dispute_twice_fails_on_either_outcome() {
    for refund in [true, false] {
        let mut c = ready_ledger();
        let id = create(&mut c, 1000, 20, 5, 0);
        assert_eq!(c.initiate_dispute(id, BUYER), Ok(()));
        assert_eq!(c.resolve_dispute(id, refund, ADMIN), Ok(()));
        let transfers_before = c.transfers.len();
        assert_eq!(c.resolve_dispute(id, true, ADMIN), Err(Error::InvalidStatus));
        assert_eq!(c.resolve_dispute(id, false, ADMIN), Err(Error::InvalidStatus));
        assert_eq!(c.transfers.len(), transfers_before);
    }
}

#[test]
fn repeated_checks_on_completed_transaction_move_no_funds() {
    let mut c = ready_ledger();
    let id = create(&mut c, 1000, 20, 5, 0);
    assert_eq!(c.check_and_release(id, 5 * DAY), Ok(()));
    let transfers_after_release = c.transfers.len();
    let events_after_release = c.events.len();
    for i in 0..5u64 {
        assert_eq!(c.check_and_release(id, 5 * DAY + i), Ok(()));
    }
    assert_eq!(c.transfers.len(), transfers_after_release);
    assert_eq!(c.events.len(), events_after_release);
    assert_eq!(c.get_transaction(id).unwrap().status, TransactionStatus::Completed);
}

#[test]
fn get_transaction_on_missing_id_fails() {
    let mut c = ready_ledger();
    assert_eq!(c.get_transaction(1), Err(Error::TransactionNotFound));
    assert_eq!(c.get_transaction(0), Err(Error::TransactionNotFound));
    create(&mut c, 1000, 20, 5, 0);
    assert_eq!(c.get_transaction(2), Err(Error::TransactionNotFound));
    assert!(c.get_transaction(1).is_ok());
}

#[test]
fn end_to_end_holdback_lifecycle() {
    let mut c = ready_ledger();
    let now: u64 = 100;
    let id = c
        .create_payment(BUYER, SELLER, 1000, TOKEN, 20, 5, now, 1000, 1000)
        .unwrap();
    // the first transaction id is 1, and the seller receives 800 immediately
    assert_eq!(id, 1);
    assert_eq!(
        c.transfers,
        vec![
            Transfer::Pull { from: BUYER, token: TOKEN, amount: 1000 },
            Transfer::Pay { to: SELLER, token: TOKEN, amount: 800 },
        ]
    );
    let t: Transaction = c.get_transaction(id).unwrap();
    assert_eq!(t.status, TransactionStatus::Held);
    let release_time = now + 5 * DAY;
    assert_eq!(t.release_time, release_time);
    // at the release time, one check moves the remaining 200 to the seller
    assert_eq!(c.check_and_release(id, release_time), Ok(()));
    assert_eq!(c.get_transaction(id).unwrap().status, TransactionStatus::Completed);
    assert_eq!(
        c.transfers,
        vec![
            Transfer::Pull { from: BUYER, token: TOKEN, amount: 1000 },
            Transfer::Pay { to: SELLER, token: TOKEN, amount: 800 },
            Transfer::Pay { to: SELLER, token: TOKEN, amount: 200 },
        ]
    );
}
