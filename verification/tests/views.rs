use alduin::commands::{
    command_definitions, OptionKind,
    get_option_i64, get_option_string, has_allowed_role, interaction_allowed, option_as_i32,
    permission_denied_reply, slash_command, text_or_empty, unknown_command_reply, CommandOption,
    OptionValue, SlashCommand,
};
use alduin::discord::{
    bot_enabled, cancelled_post, message_id_text, on_notice, posts_transactions,
    registers_commands, BotAction, DiscordCommand,
};
use alduin::embed::{cancelled_embed, pending_post, utc_stamp, utc_time, ButtonStyle, Embed};
use alduin::listing::{
    detail_id_is_valid, detail_reply, invalid_id_notice, list_query, list_reply, pending_reply,
    DetailReply, ListQuery, ListRow, PendingRow, TxDetails,
};
use alduin::ids::dialog_for_button;
use alduin::moderation::{command_reply, decision_notice, dialog_reason, error_reply};
use alduin::paging::{
    alduin_dispatch, leaderboard_reply, leaderboard_window, wallet_entry, wallet_page,
    AlduinDispatch,
};
use alduin::resolution::{resolution_result, TxRecord};
use alduin::status::{TxAction, TxStatus};
use alduin::webhook::{cancel_message, deposit_message, withdraw_message, WebhookMessage};

fn fields(e: &Embed) -> Vec<(String, String, bool)> {
    e.fields.iter().map(|f| (f.name.clone(), f.value.clone(), f.inline)).collect()
}

fn hook_fields(m: &WebhookMessage) -> Vec<(String, String)> {
    m.fields.iter().map(|f| (f.name.clone(), f.value.clone())).collect()
}

fn s(x: &str) -> String {
    x.to_string()
}

#[test]
fn times_are_formatted_by_chrono() {
    assert_eq!(utc_stamp(1431648000), "2015-05-15 00:00:00 UTC");
    assert_eq!(utc_time(0), "1970-01-01 00:00:00");
    assert_eq!(utc_stamp(i64::MAX), "");
}

#[test]
fn wallet_pages() {
    let w = wallet_page(1, 10, 0);
    assert_eq!((w.per_page, w.page, w.total_pages, w.offset), (10, 1, 1, 0));
    let w = wallet_page(2, 10, 25);
    assert_eq!((w.page, w.total_pages, w.offset), (2, 3, 10));
    let w = wallet_page(9, 10, 25);
    assert_eq!((w.page, w.total_pages, w.offset), (3, 3, 20));
    let w = wallet_page(-4, 10, 30);
    assert_eq!((w.page, w.total_pages, w.offset), (1, 3, 0));
    let w = wallet_page(3, 0, 3);
    assert_eq!((w.per_page, w.page, w.total_pages, w.offset), (1, 3, 3, 2));
    let w = wallet_page(i32::MAX, 7, i32::MAX);
    assert_eq!(w.total_pages, ((i32::MAX as f64) / 7.0).ceil() as i32);
    assert_eq!(w.offset, (w.total_pages - 1) * 7);
}

#[test]
fn wallet_entries_and_dispatch() {
    let e = wallet_entry(Some(3), None, Some(1), Some(40), None, Some(2));
    assert_eq!((e.id, e.timestamp, e.action, e.amount, e.status), (3, 0, TxAction::Withdraw, 40, TxStatus::Cancelled));
    assert_eq!(e.wallet_address, "");
    assert_eq!(alduin_dispatch(true, true), AlduinDispatch::Ignore);
    assert_eq!(alduin_dispatch(false, true), AlduinDispatch::Request);
    assert_eq!(alduin_dispatch(false, false), AlduinDispatch::Unhandled);
}

#[test]
fn leaderboard_pages() {
    assert_eq!(leaderboard_window(None), (1, 0));
    assert_eq!(leaderboard_window(Some(3)), (3, 20));
    assert_eq!(leaderboard_window(Some(-5)), (1, 0));
    assert_eq!(leaderboard_window(Some((1i64 << 32) + 2)), (2, 10));
    assert_eq!(leaderboard_reply(1, 0, 0, &vec![], &vec![]), "No entries found on this page.");
    assert_eq!(
        leaderboard_reply(2, 0, 10, &vec![s("Rin"), s("Ada")], &vec![500, 20]),
        "**Alduin Leaderboard — Page 2** (1970-01-01 00:00:00 UTC):\n11. Rin — 500\n12. Ada — 20"
    );
}

#[test]
fn pending_posts_and_cancellations() {
    let p = pending_post(12, "Rin", 0, 100, "0xabc", 1431648000);
    assert_eq!(p.embed.title, "Pending Transaction #12");
    assert_eq!(p.embed.color, 0xf1c40f);
    assert_eq!(
        fields(&p.embed),
        vec![
            (s("Character"), s("Rin"), true),
            (s("Action"), s("Deposit"), true),
            (s("Amount"), s("100"), true),
            (s("Wallet"), s("0xabc"), false),
            (s("Created"), s("2015-05-15 00:00:00 UTC"), false),
        ]
    );
    assert_eq!(p.approve.custom_id, "approve_12");
    assert_eq!(p.approve.label, "Approve");
    assert_eq!(p.approve.style, ButtonStyle::Success);
    assert_eq!(p.decline.custom_id, "decline_12");
    assert_eq!(p.decline.label, "Decline");
    assert_eq!(p.decline.style, ButtonStyle::Danger);
    let c = cancelled_embed(12);
    assert_eq!(c.title, "Transaction #12 — Cancelled");
    assert_eq!(c.color, 0xff0000);
    assert_eq!(fields(&c), vec![(s("Note"), s("Self-cancelled by the player."), false)]);
}

fn details(resolved_at: Option<i32>, by: &str, comment: &str) -> TxDetails {
    TxDetails {
        id: 5,
        name: s("Rin"),
        action_id: 1,
        amount: 40,
        wallet: s("w1"),
        status_id: 1,
        created_at: 0,
        resolved_at,
        resolved_by: s(by),
        comment: s(comment),
    }
}

#[test]
fn transaction_details() {
    assert!(!detail_id_is_valid(0));
    assert!(detail_id_is_valid(3));
    assert_eq!(invalid_id_notice(), "Invalid transaction ID.");
    match detail_reply(9, None) {
        DetailReply::Notice(n) => assert_eq!(n, "Transaction #9 not found."),
        DetailReply::Show(_) => panic!("expected a notice"),
    }
    match detail_reply(5, Some(details(Some(86400), "mod", "ok"))) {
        DetailReply::Show(e) => {
            assert_eq!(e.title, "Transaction #5 — Approved");
            assert_eq!(e.color, 0x00ff00);
            assert_eq!(
                fields(&e),
                vec![
                    (s("Character"), s("Rin"), true),
                    (s("Action"), s("Withdraw"), true),
                    (s("Amount"), s("40"), true),
                    (s("Wallet"), s("w1"), false),
                    (s("Created"), s("1970-01-01 00:00:00 UTC"), false),
                    (s("Resolved At"), s("1970-01-02 00:00:00 UTC"), true),
                    (s("Resolved By"), s("mod"), true),
                    (s("Comment"), s("ok"), true),
                ]
            );
        }
        DetailReply::Notice(_) => panic!("expected an embed"),
    }
    match detail_reply(5, Some(details(None, "", ""))) {
        DetailReply::Show(e) => assert_eq!(e.fields.len(), 5),
        DetailReply::Notice(_) => panic!("expected an embed"),
    }
}

#[test]
fn transaction_lists() {
    assert!(matches!(list_query(None, None), ListQuery::All));
    assert!(matches!(list_query(Some("approved"), None), ListQuery::Status(1)));
    match list_query(None, Some("in")) {
        ListQuery::Name(p) => assert_eq!(p, "%in%"),
        _ => panic!("expected a name query"),
    }
    match list_query(Some("bogus"), Some("in")) {
        ListQuery::StatusAndName(0, p) => assert_eq!(p, "%in%"),
        _ => panic!("expected a combined query"),
    }
    assert_eq!(list_reply(&vec![]), "No transactions found.");
    let rows = vec![
        ListRow { id: 3, name: s("Rin"), action_id: 0, amount: 10, status_id: 0 },
        ListRow { id: 2, name: s("Ada"), action_id: 1, amount: 5, status_id: 2 },
    ];
    assert_eq!(list_reply(&rows), "**Transactions:**\n#3 | Rin | Deposit | 10 | Pending\n#2 | Ada | Withdraw | 5 | Cancelled");
}

#[test]
fn pending_lists() {
    assert_eq!(pending_reply(1, 2, &vec![]), "No pending transactions.");
    let rows = vec![
        PendingRow { id: 3, name: s("Rin"), action_id: 0, amount: 10, created_at: 0, message_id: s("77") },
        PendingRow { id: 4, name: s("Ada"), action_id: 1, amount: 5, created_at: 60, message_id: s("") },
    ];
    assert_eq!(
        pending_reply(1, 2, &rows),
        "**Pending Transactions:**\n#3 | Rin | Deposit | 10 | 1970-01-01 00:00:00 | https://discord.com/channels/1/2/77\n#4 | Ada | Withdraw | 5 | 1970-01-01 00:01:00"
    );
    assert_eq!(
        pending_reply(0, 2, &rows[..1].to_vec()),
        "**Pending Transactions:**\n#3 | Rin | Deposit | 10 | 1970-01-01 00:00:00"
    );
    let many: Vec<PendingRow> = (0..60)
        .map(|i| PendingRow { id: i, name: s("Character"), action_id: 0, amount: 10, created_at: 0, message_id: s("1") })
        .collect();
    assert_eq!(
        pending_reply(1, 2, &many),
        "**60 pending transactions** (content too long, use /transactions status:pending)"
    );
}

#[test]
fn slash_commands_and_options() {
    assert_eq!(slash_command("approve"), SlashCommand::Approve);
    assert_eq!(slash_command("decline"), SlashCommand::Decline);
    assert_eq!(slash_command("transaction"), SlashCommand::Transaction);
    assert_eq!(slash_command("transactions"), SlashCommand::Transactions);
    assert_eq!(slash_command("give"), SlashCommand::Give);
    assert_eq!(slash_command("take"), SlashCommand::Take);
    assert_eq!(slash_command("leaderboard"), SlashCommand::Leaderboard);
    assert_eq!(slash_command("pending"), SlashCommand::Pending);
    assert_eq!(slash_command("Approve"), SlashCommand::Unknown);
    assert_eq!(unknown_command_reply(), "Unknown command");
    let opts = vec![
        CommandOption { name: s("id"), value: OptionValue::Integer(12) },
        CommandOption { name: s("reason"), value: OptionValue::Text(s("late")) },
        CommandOption { name: s("id"), value: OptionValue::Integer(99) },
        CommandOption { name: s("name"), value: OptionValue::Integer(1) },
        CommandOption { name: s("flag"), value: OptionValue::Other },
    ];
    assert_eq!(get_option_i64(&opts, "id"), Some(12));
    assert_eq!(get_option_i64(&opts, "reason"), None);
    assert_eq!(get_option_i64(&opts, "missing"), None);
    assert_eq!(get_option_string(&opts, "reason"), Some(s("late")));
    assert_eq!(get_option_string(&opts, "name"), None);
    assert_eq!(get_option_string(&opts, "flag"), None);
    assert_eq!(option_as_i32(None), 0);
    assert_eq!(option_as_i32(Some(7)), 7);
    assert_eq!(option_as_i32(Some((1i64 << 32) + 5)), 5);
    assert_eq!(text_or_empty(None), "");
    assert_eq!(text_or_empty(Some(s("x"))), "x");
}

#[test]
fn roles_gate_interactions() {
    assert!(has_allowed_role(&[1, 2], &[]));
    assert!(has_allowed_role(&[1, 2], &[3, 2]));
    assert!(!has_allowed_role(&[1, 2], &[3]));
    assert!(!has_allowed_role(&[], &[3]));
    assert!(interaction_allowed(None, &[3]));
    assert!(!interaction_allowed(Some(&[1]), &[3]));
    assert_eq!(permission_denied_reply(true), "You do not have permission to use this command.");
    assert_eq!(permission_denied_reply(false), "You do not have permission to use this action.");
}

fn result(new_status: TxStatus, online: bool) -> alduin::resolution::ResolutionResult {
    let r = TxRecord::from_columns(Some(4), Some(0), Some(0), Some(100), Some(s("Rin")));
    resolution_result(12, r, new_status, online)
}

#[test]
fn moderator_replies() {
    assert_eq!(
        command_reply(12, &result(TxStatus::Approved, true)),
        "Transaction #12 approved successfully.\nCharacter: Rin\nAction: Deposit\nAmount: 100\nOnline: Yes"
    );
    assert_eq!(
        command_reply(12, &result(TxStatus::Cancelled, false)),
        "Transaction #12 cancelled successfully.\nCharacter: Rin\nAction: Deposit\nAmount: 100\nOnline: No"
    );
    assert_eq!(error_reply("Transaction 5 not found"), "Error: Transaction 5 not found");
    assert_eq!(dialog_reason(Some(s(""))), None);
    assert_eq!(dialog_reason(None), None);
    assert_eq!(dialog_reason(Some(s("late"))), Some(s("late")));
    let n = decision_notice(12, &result(TxStatus::Cancelled, false), "mod", &None);
    assert_eq!(n.embed.title, "Transaction #12 — Declined");
    assert_eq!(n.embed.color, 0xff0000);
    assert_eq!(
        fields(&n.embed),
        vec![
            (s("Character"), s("Rin"), true),
            (s("Action"), s("Deposit"), true),
            (s("Amount"), s("100"), true),
            (s("Resolved By"), s("mod"), true),
            (s("Comment"), s("None"), true),
        ]
    );
    assert_eq!(n.reply, "Transaction #12 declined successfully!");
    let a = decision_notice(12, &result(TxStatus::Approved, false), "mod", &Some(s("ok")));
    assert_eq!(a.embed.title, "Transaction #12 — Approved");
    assert_eq!(a.embed.color, 0x00ff00);
    assert_eq!(a.embed.fields[4].value, "ok");
    assert_eq!(a.reply, "Transaction #12 approved successfully!");
}

#[test]
fn bot_notices() {
    assert!(bot_enabled(true, "t"));
    assert!(!bot_enabled(true, ""));
    assert!(!bot_enabled(false, "t"));
    assert!(!registers_commands(0));
    assert!(registers_commands(5));
    assert!(!posts_transactions(0));
    let new = DiscordCommand::NewTransaction {
        tx_id: 12,
        character_name: s("Rin"),
        action: 1,
        amount: 40,
        wallet_address: s("w"),
    };
    assert!(matches!(on_notice(0, new.clone(), 0), BotAction::Skip));
    match on_notice(9, new, 0) {
        BotAction::Post { tx_id, post } => {
            assert_eq!(tx_id, 12);
            assert_eq!(post.embed.title, "Pending Transaction #12");
            assert_eq!(post.embed.fields[1].value, "Withdraw");
            assert_eq!(post.embed.fields[4].value, "1970-01-01 00:00:00 UTC");
            assert_eq!(post.approve.label, "Approve");
            assert_eq!(post.decline.style, ButtonStyle::Danger);
        }
        _ => panic!("expected a post"),
    }
    assert!(matches!(on_notice(0, DiscordCommand::TransactionCancelled { tx_id: 3 }, 0), BotAction::FindPost { tx_id: 3 }));
    assert_eq!(message_id_text(1234567890123), "1234567890123");
    let (id, e) = cancelled_post(3, Some(message_id_text(1234567890123))).unwrap();
    assert_eq!(id, 1234567890123);
    assert_eq!(e.title, "Transaction #3 — Cancelled");
    assert!(cancelled_post(3, None).is_none());
    assert!(cancelled_post(3, Some(s("abc"))).is_none());
    assert!(cancelled_post(3, Some(s("-1"))).is_none());
}

#[test]
fn webhook_messages() {
    let w = withdraw_message("@here", "Rin", 4, "0xabc", 100, 77);
    assert_eq!(w.content, "@here 💸 **Alduin Withdrawal Request**");
    assert_eq!(w.title, "Rin requests withdrawal of 100 Alduin");
    assert_eq!(
        hook_fields(&w),
        vec![
            (s("Character"), s("Rin (ID: 4)")),
            (s("Wallet"), s("0xabc")),
            (s("Amount"), s("100")),
            (s("Type"), s("Withdraw")),
            (s("Transaction ID"), s("77")),
        ]
    );
    assert_eq!(w.color, 16744192);
    let d = deposit_message("", "Ada", 5, "w", 3, 78);
    assert_eq!(d.content, " 🏦 **Alduin Deposit Request**");
    assert_eq!(d.title, "Ada requests deposit of 3 Alduin");
    assert_eq!(d.fields[3].value, "Deposit");
    assert_eq!(d.color, 5814783);
    let c = cancel_message("@mods", "Rin", 4, 100, "deposit", 79);
    assert_eq!(c.content, "@mods 🔕 **Alduin Transaction Cancelled**");
    assert_eq!(c.title, "Player cancelled their own pending transaction");
    assert_eq!(
        hook_fields(&c),
        vec![
            (s("Character"), s("Rin (ID: 4)")),
            (s("Amount"), s("100")),
            (s("Type"), s("Deposit")),
            (s("Transaction ID"), s("79")),
        ]
    );
    assert_eq!(c.color, 16744192);
    assert_eq!(cancel_message("", "Rin", 4, 1, "withdraw", 1).fields[2].value, "Withdraw");
}

#[test]
fn pending_limit_counts_bytes() {
    let row = |name: &str| PendingRow { id: 1, name: s(name), action_id: 0, amount: 1, created_at: 0, message_id: s("") };
    // 1990 bytes of name: the list is 2050 bytes although it has far fewer characters.
    let wide = "é".repeat(995);
    assert_eq!(
        pending_reply(0, 0, &vec![row(&wide)]),
        "**1 pending transactions** (content too long, use /transactions status:pending)"
    );
    let narrow = "e".repeat(1900);
    assert!(pending_reply(0, 0, &vec![row(&narrow)]).starts_with("**Pending Transactions:**\n#1 | "));
}

#[test]
fn command_table_matches_registration() {
    let defs = command_definitions();
    let names: Vec<&str> = defs.iter().map(|c| c.name.as_str()).collect();
    assert_eq!(names, vec!["approve", "decline", "transaction", "transactions", "give", "take", "leaderboard", "pending"]);
    assert_eq!(defs[0].description, "Approve a pending Alduin transaction");
    assert_eq!(defs[0].options.len(), 2);
    assert_eq!(defs[0].options[0].kind, OptionKind::Integer);
    assert_eq!(defs[0].options[0].name, "id");
    assert!(defs[0].options[0].required);
    assert_eq!(defs[0].options[1].name, "reason");
    assert!(!defs[0].options[1].required);
    let status = &defs[3].options[0];
    let choices: Vec<(&str, &str)> = status.choices.iter().map(|c| (c.label.as_str(), c.value.as_str())).collect();
    assert_eq!(choices, vec![("Pending", "pending"), ("Approved", "approved"), ("Cancelled", "cancelled")]);
    assert_eq!(defs[5].description, "Ad-hoc withdrawal of Alduin from a character");
    assert_eq!(defs[5].options[1].name, "amount");
    assert_eq!(defs[6].options[0].description, "Page number (default 1)");
    assert!(defs[7].options.is_empty());
}

#[test]
fn buttons_open_the_reason_dialog() {
    let d = dialog_for_button("decline_42").unwrap();
    assert_eq!(d.custom_id, "modal_decline_42");
    assert_eq!(d.title, "decline Transaction #42");
    assert_eq!(d.input_id, "reason");
    assert_eq!(d.label, "Reason (optional)");
    assert_eq!(d.placeholder, "Optional reason...");
    assert!(d.short);
    assert!(!d.required);
    assert_eq!(d.max_length, 200);
    assert!(dialog_for_button("approve_0").is_none());
    assert!(dialog_for_button("other_3").is_none());
}
