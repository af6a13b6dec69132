use alduin::adhoc::{
    adhoc_reply, cancel_comment, check_target, request_is_valid, settle_adjustment, AdhocError,
    Adjustment,
};
use alduin::resolution::{
    check_transaction, plan_settlement, resolution_result, should_give_items, AlduinNotify,
    ResolveError, TxRecord,
};
use alduin::status::TxStatus;

fn record(status_id: i32, action_id: i32, amount: i32) -> TxRecord {
    TxRecord::from_columns(Some(4), Some(status_id), Some(action_id), Some(amount), Some("Rin".to_string()))
}

#[test]
fn record_defaults_missing_columns() {
    let r = TxRecord::from_columns(None, None, None, None, None);
    assert_eq!((r.character_id, r.status_id, r.action_id, r.amount), (0, 0, 0, 0));
    assert_eq!(r.character_name, "");
}

#[test]
fn check_refuses_each_bad_transaction() {
    assert_eq!(check_transaction(5, None, 491).unwrap_err(), ResolveError::NotFound { tx_id: 5 });
    assert_eq!(
        check_transaction(5, Some(record(1, 0, 10)), 491).unwrap_err(),
        ResolveError::NotPending { tx_id: 5, status: TxStatus::Approved }
    );
    assert_eq!(
        check_transaction(5, Some(record(7, 0, 10)), 491).unwrap_err(),
        ResolveError::NotPending { tx_id: 5, status: TxStatus::Unrecognized(7) }
    );
    let mut no_char = record(0, 0, 10);
    no_char.character_id = 0;
    assert_eq!(check_transaction(5, Some(no_char), 491).unwrap_err(), ResolveError::InvalidData { tx_id: 5 });
    assert_eq!(check_transaction(5, Some(record(0, 0, 0)), 491).unwrap_err(), ResolveError::InvalidData { tx_id: 5 });
    assert_eq!(check_transaction(5, Some(record(0, 0, 10)), 0).unwrap_err(), ResolveError::ItemNotConfigured);
    let ok = check_transaction(5, Some(record(0, 1, 10)), 491).unwrap();
    assert_eq!((ok.character_id, ok.action_id, ok.amount), (4, 1, 10));
}

#[test]
fn resolve_error_messages() {
    assert_eq!(ResolveError::NotFound { tx_id: 5 }.message(), "Transaction 5 not found");
    assert_eq!(
        ResolveError::NotPending { tx_id: 5, status: TxStatus::Cancelled }.message(),
        "Transaction 5 is not pending (status: Cancelled)"
    );
    assert_eq!(
        ResolveError::NotPending { tx_id: 6, status: TxStatus::Unrecognized(9) }.message(),
        "Transaction 6 is not pending (status: Unrecognized(9))"
    );
    assert_eq!(ResolveError::InvalidData { tx_id: 8 }.message(), "Invalid transaction data for tx 8");
    assert_eq!(ResolveError::ItemNotConfigured.message(), "alduin_item_id is not configured");
}

#[test]
fn which_resolutions_give_items() {
    assert!(should_give_items(0, TxStatus::Approved));
    assert!(!should_give_items(0, TxStatus::Cancelled));
    assert!(should_give_items(1, TxStatus::Cancelled));
    assert!(!should_give_items(1, TxStatus::Approved));
    assert!(!should_give_items(2, TxStatus::Approved));
}

#[test]
fn approved_deposit_online_is_capped_and_notified() {
    let s = plan_settlement(9, &record(0, 0, 100), TxStatus::Approved, true, 950, 1000);
    assert_eq!(s.grant, Some(50));
    assert_eq!(
        s.notify,
        Some(AlduinNotify { transaction_id: 9, status: TxStatus::Approved, transaction_amount: 100, total_alduin: 1050 })
    );
    assert_eq!(s.status_id, 1);
    assert!(s.mark_notified);
}

#[test]
fn cancelled_withdrawal_offline_returns_items() {
    let s = plan_settlement(9, &record(0, 1, 30), TxStatus::Cancelled, false, 10, 1000);
    assert_eq!(s.grant, Some(30));
    assert_eq!(s.notify, None);
    assert_eq!(s.status_id, 2);
    assert!(!s.mark_notified);
}

#[test]
fn full_character_gets_nothing() {
    let s = plan_settlement(9, &record(0, 0, 30), TxStatus::Approved, false, 1000, 1000);
    assert_eq!(s.grant, None);
    let over = plan_settlement(9, &record(0, 0, 30), TxStatus::Approved, false, 1200, 1000);
    assert_eq!(over.grant, None);
}

#[test]
fn approved_withdrawal_online_only_notifies() {
    let s = plan_settlement(3, &record(0, 1, 30), TxStatus::Approved, true, 70, 1000);
    assert_eq!(s.grant, None);
    assert_eq!(s.notify.unwrap().total_alduin, 70);
    assert_eq!(s.status_id, 1);
}

#[test]
fn resolved_transaction_is_refused_next_time() {
    let r = record(0, 0, 30);
    let s = plan_settlement(3, &r, TxStatus::Approved, false, 0, 1000);
    let mut stored = r.clone();
    stored.status_id = s.status_id;
    assert_eq!(
        check_transaction(3, Some(stored), 491).unwrap_err(),
        ResolveError::NotPending { tx_id: 3, status: TxStatus::Approved }
    );
}

#[test]
fn resolution_report() {
    let r = resolution_result(3, record(0, 1, 30), TxStatus::Cancelled, true);
    assert_eq!(r.tx_id, 3);
    assert_eq!(r.character_id, 4);
    assert_eq!(r.character_name, "Rin");
    assert_eq!(r.action, 1);
    assert_eq!(r.amount, 30);
    assert_eq!(r.old_status, TxStatus::Pending);
    assert_eq!(r.new_status, TxStatus::Cancelled);
    assert!(r.was_online);
    assert!(r.items_modified);
}

#[test]
fn adhoc_requests_are_checked() {
    assert!(request_is_valid("Rin", 5));
    assert!(!request_is_valid("", 5));
    assert!(!request_is_valid("Rin", 0));
    assert_eq!(check_target(None, 491), Err(AdhocError::NameNotFound));
    assert_eq!(check_target(Some(0), 491), Err(AdhocError::CharacterNotFound));
    assert_eq!(check_target(Some(4), 0), Err(AdhocError::ItemNotConfigured));
    assert_eq!(check_target(Some(4), 491), Ok(4));
    assert_eq!(AdhocError::InvalidInput.message("Rin"), "Invalid name or amount.");
    assert_eq!(AdhocError::NameNotFound.message("Rin"), "Character 'Rin' not found.");
    assert_eq!(AdhocError::CharacterNotFound.message("Rin"), "Character not found.");
    assert_eq!(AdhocError::ItemNotConfigured.message("Rin"), "Alduin item ID not configured.");
}

#[test]
fn give_is_capped_at_max_item() {
    let s = settle_adjustment(Adjustment::Give, 100, Some(950), true, 1000);
    assert_eq!(s.settled, 50);
    assert_eq!(s.moved, Some(50));
    let n = s.notify.unwrap();
    assert_eq!((n.transaction_id, n.status, n.transaction_amount, n.total_alduin), (0, TxStatus::Approved, 100, 1000));
    let full = settle_adjustment(Adjustment::Give, 100, Some(1000), false, 1000);
    assert_eq!(full.settled, 0);
    assert_eq!(full.moved, None);
    assert_eq!(full.notify, None);
}

#[test]
fn take_never_overdraws() {
    let s = settle_adjustment(Adjustment::Take, 100, Some(40), true, 1000);
    assert_eq!(s.settled, 40);
    assert_eq!(s.moved, Some(40));
    assert_eq!(s.notify.unwrap().total_alduin, 0);
    let some = settle_adjustment(Adjustment::Take, 10, Some(40), true, 1000);
    assert_eq!(some.settled, 10);
    assert_eq!(some.notify.unwrap().total_alduin, 30);
}

#[test]
fn unreadable_character_settles_full_amount() {
    let s = settle_adjustment(Adjustment::Take, 25, None, true, 1000);
    assert_eq!((s.settled, s.moved, s.notify), (25, None, None));
}

#[test]
fn take_undoes_uncapped_give() {
    let g = settle_adjustment(Adjustment::Give, 30, Some(100), false, 1000);
    let t = settle_adjustment(Adjustment::Take, 30, Some(100 + g.settled), false, 1000);
    assert_eq!(100 + g.settled - t.settled, 100);
}

#[test]
fn adhoc_texts() {
    assert_eq!(Adjustment::Give.action_id(), 0);
    assert_eq!(Adjustment::Take.action_id(), 1);
    assert_eq!(cancel_comment(Adjustment::Give, "bonus"), "Auto-cancelled for adhoc deposit: bonus");
    assert_eq!(cancel_comment(Adjustment::Take, "fix"), "Auto-cancelled for adhoc withdrawal: fix");
    assert_eq!(adhoc_reply(Adjustment::Give, 100, "Rin", 50, "bonus"), "Gave 100 Alduin to Rin (settled 50). Comment: bonus");
    assert_eq!(adhoc_reply(Adjustment::Take, 10, "Rin", 10, ""), "Took 10 Alduin from Rin (settled 10). Comment: ");
}
