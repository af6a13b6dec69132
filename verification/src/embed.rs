//! Discord embeds as plain values, the time stamps they show, and the embeds posted for
//! pending and self-cancelled transactions.
use vstd::prelude::*;

use crate::ids::{button_id, button_text, Verdict};
use crate::status::{action_word, format_action};
use crate::text::{int_text, push_i64};

verus! {

/// One field of an embed.
#[derive(Debug, Clone)]
pub struct EmbedField {
    pub name: String,
    pub value: String,
    pub inline: bool,
}

/// An embed: a title, a colour and its fields in order.
#[derive(Debug, Clone)]
pub struct Embed {
    pub title: String,
    pub color: u32,
    pub fields: Vec<EmbedField>,
}

/// The name, value and inline flag of each field.
pub open spec fn field_texts(fields: Seq<EmbedField>) -> Seq<(Seq<char>, Seq<char>, bool)> {
    fields.map_values(|f: EmbedField| (f.name@, f.value@, f.inline))
}

/// A field with the given name, value and inline flag.
pub fn field(name: &str, value: &str, inline: bool) -> (f: EmbedField)
    ensures
        f.name@ == name@,
        f.value@ == value@,
        f.inline == inline,
{
    EmbedField { name: String::from_str(name), value: String::from_str(value), inline }
}

/// Appends a field to a list of fields.
pub fn push_field(fields: &mut Vec<EmbedField>, name: &str, value: &str, inline: bool)
    ensures
        field_texts(final(fields)@) == field_texts(old(fields)@).push((name@, value@, inline)),
{
    let f = field(name, value, inline);
    fields.push(f);
    assert(field_texts(final(fields)@) =~= field_texts(old(fields)@).push((name@, value@, inline)));
}

/// The UTC date and time at `seconds` after the Unix epoch as chrono writes it with the pattern
/// `%Y-%m-%d %H:%M:%S`, or `None` when chrono cannot represent that time.
pub uninterp spec fn utc_time_text(seconds: i64) -> Option<Seq<char>>;

/// Calls `chrono::DateTime::from_timestamp(seconds, 0)` and formats the time it gives with
/// `%Y-%m-%d %H:%M:%S`. The text is named by `utc_time_text`; what is stated besides is that
/// chrono represents every time within the `i32` range of seconds (its dates reach past year
/// 262000 both ways). The date arithmetic and the digits of the text are not stated.
#[verifier::external_body]
fn format_utc_seconds(seconds: i64) -> (r: Option<String>)
    ensures
        r is Some <==> utc_time_text(seconds) is Some,
        r matches Some(s) ==> utc_time_text(seconds) == Some(s@),
        i32::MIN <= seconds <= i32::MAX ==> r is Some,
{
    match chrono::DateTime::from_timestamp(seconds, 0) {
        Some(d) => Some(d.format("%Y-%m-%d %H:%M:%S").to_string()),
        None => None,
    }
}

/// The time at `seconds`, or the empty text when chrono cannot represent it.
pub open spec fn time_or_empty(seconds: i64) -> Seq<char> {
    match utc_time_text(seconds) {
        Some(t) => t,
        None => Seq::empty(),
    }
}

/// The time at `seconds` followed by ` UTC`, or the empty text when chrono cannot represent it.
pub open spec fn stamp_or_empty(seconds: i64) -> Seq<char> {
    match utc_time_text(seconds) {
        Some(t) => t + " UTC"@,
        None => Seq::empty(),
    }
}

/// The time at `seconds`, without a zone, or the empty text.
pub fn utc_time(seconds: i64) -> (s: String)
    ensures
        s@ == time_or_empty(seconds),
{
    match format_utc_seconds(seconds) {
        Some(t) => t,
        None => String::new(),
    }
}

/// The time at `seconds` followed by ` UTC`, or the empty text.
pub fn utc_stamp(seconds: i64) -> (s: String)
    ensures
        s@ == stamp_or_empty(seconds),
{
    match format_utc_seconds(seconds) {
        Some(t) => {
            let mut t = t;
            t.append(" UTC");
            t
        },
        None => String::new(),
    }
}

/// The time at `seconds` followed by ` UTC`, when chrono can represent it.
pub fn utc_stamp_opt(seconds: i64) -> (s: Option<String>)
    ensures
        s matches Some(t) ==> utc_time_text(seconds) matches Some(u) && t@ == u + " UTC"@,
        s is None <==> utc_time_text(seconds) is None,
{
    match format_utc_seconds(seconds) {
        Some(t) => {
            let mut t = t;
            t.append(" UTC");
            Some(t)
        },
        None => None,
    }
}

/// The colour of pending transactions.
pub const PENDING_COLOR: u32 = 0xf1c40f;

/// The colour of approved transactions.
pub const APPROVED_COLOR: u32 = 0x00ff00;

/// The colour of declined and cancelled transactions.
pub const DECLINED_COLOR: u32 = 0xff0000;

/// How a button is drawn.
#[derive(Debug, Clone, Copy, PartialEq, Eq, Structural)]
pub enum ButtonStyle {
    /// Green: the button that approves.
    Success,
    /// Red: the button that declines.
    Danger,
}

/// A button under a post: its id, its label and its style.
#[derive(Debug, Clone)]
pub struct PostButton {
    pub custom_id: String,
    pub label: String,
    pub style: ButtonStyle,
}

/// A pending transaction as it is posted for moderators: its embed and its two buttons.
#[derive(Debug, Clone)]
pub struct PendingPost {
    pub embed: Embed,
    pub approve: PostButton,
    pub decline: PostButton,
}

/// The buttons of the post of transaction `tx_id`: a green `Approve` with the approve id and a
/// red `Decline` with the decline id.
pub open spec fn pending_buttons(p: PendingPost, tx_id: i32) -> bool {
    &&& p.approve.custom_id@ == button_text(Verdict::Approve, tx_id)
    &&& p.approve.label@ == "Approve"@
    &&& p.approve.style == ButtonStyle::Success
    &&& p.decline.custom_id@ == button_text(Verdict::Decline, tx_id)
    &&& p.decline.label@ == "Decline"@
    &&& p.decline.style == ButtonStyle::Danger
}

/// The fields of the embed of a pending transaction.
pub open spec fn pending_fields(
    name: Seq<char>,
    action_id: i32,
    amount: i32,
    wallet: Seq<char>,
    created: Seq<char>,
) -> Seq<(Seq<char>, Seq<char>, bool)> {
    seq![
        ("Character"@, name, true),
        ("Action"@, action_word(action_id), true),
        ("Amount"@, int_text(amount as int), true),
        ("Wallet"@, wallet, false),
        ("Created"@, created, false),
    ]
}

/// The post for pending transaction `tx_id` of character `name`, created at `created_at`
/// seconds after the Unix epoch.
pub fn pending_post(
    tx_id: i32,
    name: &str,
    action_id: i32,
    amount: i32,
    wallet: &str,
    created_at: i64,
) -> (p: PendingPost)
    ensures
        p.embed.title@ == "Pending Transaction #"@ + int_text(tx_id as int),
        p.embed.color == PENDING_COLOR,
        field_texts(p.embed.fields@) == pending_fields(
            name@,
            action_id,
            amount,
            wallet@,
            stamp_or_empty(created_at),
        ),
        pending_buttons(p, tx_id),
{
    let mut title = String::from_str("Pending Transaction #");
    push_i64(&mut title, tx_id as i64);
    let mut amount_text = String::new();
    push_i64(&mut amount_text, amount as i64);
    let mut fields: Vec<EmbedField> = Vec::new();
    push_field(&mut fields, "Character", name, true);
    push_field(&mut fields, "Action", format_action(action_id), true);
    push_field(&mut fields, "Amount", amount_text.as_str(), true);
    push_field(&mut fields, "Wallet", wallet, false);
    let created = utc_stamp(created_at);
    push_field(&mut fields, "Created", created.as_str(), false);
    assert(field_texts(fields@) =~= pending_fields(
        name@,
        action_id,
        amount,
        wallet@,
        stamp_or_empty(created_at),
    ));
    PendingPost {
        embed: Embed { title, color: PENDING_COLOR, fields },
        approve: PostButton {
            custom_id: button_id(Verdict::Approve, tx_id),
            label: String::from_str("Approve"),
            style: ButtonStyle::Success,
        },
        decline: PostButton {
            custom_id: button_id(Verdict::Decline, tx_id),
            label: String::from_str("Decline"),
            style: ButtonStyle::Danger,
        },
    }
}

/// The embed that replaces the post of a transaction that its player cancelled.
pub fn cancelled_embed(tx_id: i32) -> (e: Embed)
    ensures
        e.title@ == "Transaction #"@ + int_text(tx_id as int) + " — Cancelled"@,
        e.color == DECLINED_COLOR,
        field_texts(e.fields@) == seq![("Note"@, "Self-cancelled by the player."@, false)],
{
    let mut title = String::from_str("Transaction #");
    push_i64(&mut title, tx_id as i64);
    title.append(" — Cancelled");
    let mut fields: Vec<EmbedField> = Vec::new();
    push_field(&mut fields, "Note", "Self-cancelled by the player.", false);
    assert(field_texts(fields@) =~= seq![("Note"@, "Self-cancelled by the player."@, false)]);
    Embed { title, color: DECLINED_COLOR, fields }
}

} // verus!
