use alduin::ids::{
    button_id, modal_id, modal_title, parse_button_id, parse_modal_id, Verdict,
};
use alduin::status::{
    format_action, format_tx_status, status_debug_string, status_filter_id, TxAction, TxStatus,
};
use alduin::text::{i64_text, join_lines, parse_i32, parse_u64, same_text};

#[test]
fn decimal_text_matches_display() {
    assert_eq!(i64_text(0), "0");
    assert_eq!(i64_text(7), "7");
    assert_eq!(i64_text(-42), "-42");
    assert_eq!(i64_text(1234567890), "1234567890");
    assert_eq!(i64_text(i64::MIN), i64::MIN.to_string());
    assert_eq!(i64_text(i64::MAX), i64::MAX.to_string());
}

#[test]
fn parse_i32_follows_from_str() {
    for s in ["0", "+5", "-0", "-2147483648", "2147483647", "007", "2147483648", "-2147483649", "", "-", "+", "12a", " 1", "1_2", "99999999999999999999"] {
        assert_eq!(parse_i32(s), s.parse::<i32>().ok(), "input {:?}", s);
    }
}

#[test]
fn parse_u64_follows_from_str() {
    for s in ["0", "+7", "-0", "-1", "18446744073709551615", "18446744073709551616", "", "+", "1x", "123456789012345678"] {
        assert_eq!(parse_u64(s), s.parse::<u64>().ok(), "input {:?}", s);
    }
}

#[test]
fn text_equality_and_joining() {
    assert!(same_text("pending", "pending"));
    assert!(!same_text("pending", "Pending"));
    assert!(!same_text("pend", "pending"));
    assert_eq!(join_lines(&vec![]), "");
    assert_eq!(join_lines(&vec!["a".to_string()]), "a");
    assert_eq!(join_lines(&vec!["a".to_string(), "b".to_string(), "c".to_string()]), "a\nb\nc");
}

#[test]
fn status_ids_round_trip() {
    assert_eq!(TxStatus::from(0), TxStatus::Pending);
    assert_eq!(TxStatus::from(1), TxStatus::Approved);
    assert_eq!(TxStatus::from(2), TxStatus::Cancelled);
    assert_eq!(TxStatus::from(9), TxStatus::Unrecognized(9));
    for id in [-3, 0, 1, 2, 3, 1000] {
        assert_eq!(i32::from(TxStatus::from(id)), id);
    }
    assert_eq!(TxAction::from(0), TxAction::Deposit);
    assert_eq!(TxAction::from(1), TxAction::Withdraw);
    assert_eq!(TxAction::from(4), TxAction::Unrecognized(4));
}

#[test]
fn status_and_action_words() {
    assert_eq!(format_tx_status(0), "Pending");
    assert_eq!(format_tx_status(1), "Approved");
    assert_eq!(format_tx_status(2), "Cancelled");
    assert_eq!(format_tx_status(3), "Unknown");
    assert_eq!(format_tx_status(-1), "Unknown");
    assert_eq!(format_action(0), "Deposit");
    assert_eq!(format_action(1), "Withdraw");
    assert_eq!(format_action(5), "Withdraw");
    assert_eq!(status_debug_string(TxStatus::Approved), format!("{:?}", TxStatus::Approved));
    assert_eq!(status_debug_string(TxStatus::Unrecognized(-4)), "Unrecognized(-4)");
    assert_eq!(status_filter_id("pending"), 0);
    assert_eq!(status_filter_id("approved"), 1);
    assert_eq!(status_filter_id("cancelled"), 2);
    assert_eq!(status_filter_id("other"), 0);
}

#[test]
fn button_and_dialog_ids() {
    assert_eq!(button_id(Verdict::Approve, 12), "approve_12");
    assert_eq!(button_id(Verdict::Decline, 7), "decline_7");
    assert_eq!(modal_id(Verdict::Approve, 12), "modal_approve_12");
    assert_eq!(modal_id(Verdict::Decline, 3), "modal_decline_3");
    assert_eq!(modal_title(Verdict::Approve, 5), "approve Transaction #5");
    assert_eq!(modal_title(Verdict::Decline, 5), "decline Transaction #5");
    assert_eq!(Verdict::Approve.status(), TxStatus::Approved);
    assert_eq!(Verdict::Decline.status(), TxStatus::Cancelled);
}

#[test]
fn parse_pressed_buttons() {
    assert_eq!(parse_button_id("approve_12"), Some((Verdict::Approve, 12)));
    assert_eq!(parse_button_id("decline_7"), Some((Verdict::Decline, 7)));
    assert_eq!(parse_button_id("decline_7_extra"), Some((Verdict::Decline, 7)));
    assert_eq!(parse_button_id("approve_+9"), Some((Verdict::Approve, 9)));
    assert_eq!(parse_button_id("approve_"), None);
    assert_eq!(parse_button_id("approve_0"), None);
    assert_eq!(parse_button_id("approve_-3"), None);
    assert_eq!(parse_button_id("approve_x"), None);
    assert_eq!(parse_button_id("approve_99999999999"), None);
    assert_eq!(parse_button_id("approve"), None);
    assert_eq!(parse_button_id("modal_approve_1"), None);
    assert_eq!(parse_button_id(""), None);
}

#[test]
fn parse_submitted_dialogs() {
    assert_eq!(parse_modal_id("modal_approve_12"), Some((Verdict::Approve, 12)));
    assert_eq!(parse_modal_id("modal_decline_42"), Some((Verdict::Decline, 42)));
    assert_eq!(parse_modal_id("modal_decline_42_more"), Some((Verdict::Decline, 42)));
    assert_eq!(parse_modal_id("modal_approve_"), None);
    assert_eq!(parse_modal_id("modal_approve_0"), None);
    assert_eq!(parse_modal_id("modal_other_5"), None);
    assert_eq!(parse_modal_id("approve_5"), None);
}

#[test]
fn ids_read_back_as_made() {
    for id in [1, 9, 10, 12345, i32::MAX] {
        for v in [Verdict::Approve, Verdict::Decline] {
            assert_eq!(parse_button_id(&button_id(v, id)), Some((v, id)));
            assert_eq!(parse_modal_id(&modal_id(v, id)), Some((v, id)));
        }
    }
}
