use autowds::account::create_user_at;
use autowds::account::CreateUserReq;
use autowds::credit::AccountStore;
use autowds::enums::ProductEdition;
use autowds::pay::{
    check_pending_order, handle_notification, settle_order, NotifyAck, OrderBook, OrderStatus,
    PayError, PayFrom, SettleOutcome, TradeState,
};

const NOW: i64 = 1_700_000_000;

fn accounts() -> AccountStore {
    let mut store = AccountStore::new();
    let req = CreateUserReq {
        username: "payer".to_string(),
        email: "payer@example.com".to_string(),
        password: "secret1".to_string(),
    };
    create_user_at(&mut store, req, 0, 0, vec![7u8; 16]).unwrap();
    store
}

fn book_with_orders(n: i64, created: i64) -> OrderBook {
    let mut book = OrderBook::new();
    for k in 1..=n {
        let id = book.create_order(1, ProductEdition::L2, PayFrom::Wechat, created).unwrap();
        assert_eq!(id, k);
    }
    book
}

fn order(book: &OrderBook, id: i64) -> autowds::pay::PayOrder {
    book.orders[book.find_order(id).unwrap()]
}

#[test]
fn webhook_confirms_order_once() {
    let mut book = book_with_orders(42, NOW - 60);
    let mut store = accounts();
    let ack = handle_notification(&mut book, &mut store, true, 42, TradeState::Paid, NOW);
    assert_eq!(ack, NotifyAck::Success);
    let o = order(&book, 42);
    assert_eq!(o.status, OrderStatus::Confirmed);
    assert_eq!(o.confirm, Some(NOW));
    assert_eq!(store.users[0].edition, ProductEdition::L2);
    let logs = store.logs.len();

    let again = handle_notification(&mut book, &mut store, true, 42, TradeState::Paid, NOW + 10);
    assert_eq!(again, NotifyAck::Success);
    let o = order(&book, 42);
    assert_eq!(o.status, OrderStatus::Confirmed);
    assert_eq!(o.confirm, Some(NOW));
    assert_eq!(store.users[0].edition, ProductEdition::L2);
    assert_eq!(store.logs.len(), logs);
}

#[test]
fn repeated_settlement_reports_no_new_confirmation() {
    let mut book = book_with_orders(1, NOW);
    let mut store = accounts();
    let first = settle_order(&mut book, &mut store, 1, TradeState::Paid, NOW);
    assert_eq!(first, Ok(SettleOutcome::Confirmed { user_id: 1, level: ProductEdition::L2 }));
    let second = settle_order(&mut book, &mut store, 1, TradeState::Paid, NOW + 1);
    assert_eq!(second, Ok(SettleOutcome::AlreadyConfirmed));
}

#[test]
fn bad_signature_changes_nothing() {
    let mut book = book_with_orders(3, NOW);
    let mut store = accounts();
    let ack = handle_notification(&mut book, &mut store, false, 2, TradeState::Paid, NOW);
    assert_eq!(ack, NotifyAck::Fail);
    assert_eq!(order(&book, 2).status, OrderStatus::Created);
    assert_eq!(store.users[0].edition, ProductEdition::L0);
}

#[test]
fn unknown_order_is_refused() {
    let mut book = book_with_orders(1, NOW);
    let mut store = accounts();
    assert_eq!(handle_notification(&mut book, &mut store, true, 99, TradeState::Paid, NOW), NotifyAck::Fail);
    assert_eq!(settle_order(&mut book, &mut store, 99, TradeState::Paid, NOW), Err(PayError::OrderNotFound));
}

#[test]
fn sweep_confirms_old_open_order() {
    let mut book = book_with_orders(42, NOW);
    book.create_order(1, ProductEdition::L3, PayFrom::Alipay, NOW - 40 * 60).unwrap();
    let mut store = accounts();
    let due = book.due_for_check(NOW, 30 * 60);
    assert_eq!(due, vec![43]);
    let r = check_pending_order(&mut book, &mut store, 43, Some(TradeState::Paid), NOW);
    assert_eq!(r, Ok(SettleOutcome::Confirmed { user_id: 1, level: ProductEdition::L3 }));
    let o = order(&book, 43);
    assert_eq!(o.status, OrderStatus::Confirmed);
    assert_eq!(o.confirm, Some(NOW));
    assert_eq!(store.users[0].edition, ProductEdition::L3);
    assert!(book.due_for_check(NOW, 30 * 60).is_empty());
}

#[test]
fn sweep_keeps_order_when_provider_unreachable() {
    let mut book = book_with_orders(1, NOW - 3600);
    let mut store = accounts();
    let r = check_pending_order(&mut book, &mut store, 1, None, NOW);
    assert_eq!(r, Err(PayError::ProviderQueryFailed));
    assert_eq!(order(&book, 1).status, OrderStatus::Created);
    assert_eq!(book.due_for_check(NOW, 1800), vec![1]);
}

#[test]
fn unpaid_reports_leave_orders_for_next_sweep() {
    let mut book = book_with_orders(2, NOW - 3600);
    let mut store = accounts();
    let before = order(&book, 1);
    assert_eq!(settle_order(&mut book, &mut store, 1, TradeState::Waiting, NOW), Ok(SettleOutcome::Unpaid));
    assert_eq!(order(&book, 1), before);
    assert_eq!(check_pending_order(&mut book, &mut store, 2, Some(TradeState::Closed), NOW), Ok(SettleOutcome::Unpaid));
    assert_eq!(order(&book, 2).status, OrderStatus::Created);
    assert_eq!(book.due_for_check(NOW, 1800), vec![1, 2]);
    assert_eq!(store.users[0].edition, ProductEdition::L0);
    assert_eq!(settle_order(&mut book, &mut store, 2, TradeState::Paid, NOW), Ok(SettleOutcome::Confirmed { user_id: 1, level: ProductEdition::L2 }));
    assert_eq!(book.due_for_check(NOW, 1800), vec![1]);
}

#[test]
fn payment_confirms_a_failed_order() {
    let mut book = book_with_orders(1, NOW);
    book.orders[0].status = OrderStatus::Failed;
    let mut store = accounts();
    assert_eq!(handle_notification(&mut book, &mut store, true, 1, TradeState::Paid, NOW), NotifyAck::Success);
    assert_eq!(order(&book, 1).status, OrderStatus::Confirmed);
    assert_eq!(order(&book, 1).confirm, Some(NOW));
    assert_eq!(store.users[0].edition, ProductEdition::L2);
}

#[test]
fn young_orders_are_not_due() {
    let book = book_with_orders(1, NOW - 10 * 60);
    assert!(book.due_for_check(NOW, 30 * 60).is_empty());
}

#[test]
fn order_status_only_for_owner() {
    let book = book_with_orders(2, NOW);
    assert_eq!(book.find_order_status(2, 1), Some(OrderStatus::Created));
    assert_eq!(book.find_order_status(2, 5), None);
    assert_eq!(book.find_order_status(3, 1), None);
}

#[test]
fn confirmation_for_missing_account_still_confirms_order() {
    let mut book = OrderBook::new();
    book.create_order(77, ProductEdition::L1, PayFrom::Alipay, NOW).unwrap();
    let mut store = accounts();
    let ack = handle_notification(&mut book, &mut store, true, 1, TradeState::Paid, NOW);
    assert_eq!(ack, NotifyAck::Success);
    assert_eq!(order(&book, 1).status, OrderStatus::Confirmed);
    assert_eq!(store.users[0].edition, ProductEdition::L0);
}
