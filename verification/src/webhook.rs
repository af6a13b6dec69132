//! The webhook messages that announce a player's deposit, withdrawal or cancellation.
use vstd::prelude::*;

use crate::text::{int_text, push_i64, same_text};

verus! {

/// One field of a webhook message.
#[derive(Debug, Clone)]
pub struct WebhookField {
    pub name: String,
    pub value: String,
}

/// A webhook message: its content line and one embed with a title, fields and a colour.
#[derive(Debug, Clone)]
pub struct WebhookMessage {
    pub content: String,
    pub title: String,
    pub fields: Vec<WebhookField>,
    pub color: u32,
}

/// The name and value of each field.
pub open spec fn webhook_field_texts(fields: Seq<WebhookField>) -> Seq<(Seq<char>, Seq<char>)> {
    fields.map_values(|f: WebhookField| (f.name@, f.value@))
}

fn push_webhook_field(fields: &mut Vec<WebhookField>, name: &str, value: &str)
    ensures
        webhook_field_texts(final(fields)@) == webhook_field_texts(old(fields)@).push(
            (name@, value@),
        ),
{
    fields.push(WebhookField { name: String::from_str(name), value: String::from_str(value) });
    assert(webhook_field_texts(final(fields)@) =~= webhook_field_texts(old(fields)@).push(
        (name@, value@),
    ));
}

/// The colour of withdrawal and cancellation messages.
pub const WITHDRAW_COLOR: u32 = 16744192;

/// The colour of deposit messages.
pub const DEPOSIT_COLOR: u32 = 5814783;

/// Which request a player made.
#[derive(Debug, Clone, Copy, PartialEq, Eq, Structural)]
pub enum RequestKind {
    Deposit,
    Withdraw,
}

/// The character as the messages name it: `name (ID: id)`.
pub open spec fn character_text(name: Seq<char>, character_id: i32) -> Seq<char> {
    name + " (ID: "@ + int_text(character_id as int) + ")"@
}

fn character_label(name: &str, character_id: i32) -> (s: String)
    ensures
        s@ == character_text(name@, character_id),
{
    let mut s = String::from_str(name);
    s.append(" (ID: ");
    push_i64(&mut s, character_id as i64);
    s.append(")");
    s
}

fn number_text(n: i64) -> (s: String)
    ensures
        s@ == int_text(n as int),
{
    let mut s = String::new();
    push_i64(&mut s, n);
    s
}

/// The fields of a request message.
pub open spec fn request_fields(
    kind: RequestKind,
    name: Seq<char>,
    character_id: i32,
    wallet: Seq<char>,
    amount: i32,
    transaction_id: i64,
) -> Seq<(Seq<char>, Seq<char>)> {
    seq![
        ("Character"@, character_text(name, character_id)),
        ("Wallet"@, wallet),
        ("Amount"@, int_text(amount as int)),
        ("Type"@, match kind { RequestKind::Deposit => "Deposit"@, RequestKind::Withdraw => "Withdraw"@ }),
        ("Transaction ID"@, int_text(transaction_id as int)),
    ]
}

/// The message that announces a deposit or withdrawal request, addressed to `mention`.
pub fn request_message(
    kind: RequestKind,
    mention: &str,
    character_name: &str,
    character_id: i32,
    wallet_address: &str,
    amount: i32,
    transaction_id: i64,
) -> (m: WebhookMessage)
    ensures
        m.content@ == mention@ + (match kind {
            RequestKind::Deposit => " 🏦 **Alduin Deposit Request**"@,
            RequestKind::Withdraw => " 💸 **Alduin Withdrawal Request**"@,
        }),
        m.title@ == character_name@ + (match kind {
            RequestKind::Deposit => " requests deposit of "@,
            RequestKind::Withdraw => " requests withdrawal of "@,
        }) + int_text(amount as int) + " Alduin"@,
        webhook_field_texts(m.fields@) == request_fields(
            kind,
            character_name@,
            character_id,
            wallet_address@,
            amount,
            transaction_id,
        ),
        m.color == (match kind {
            RequestKind::Deposit => DEPOSIT_COLOR,
            RequestKind::Withdraw => WITHDRAW_COLOR,
        }),
{
    let mut content = String::from_str(mention);
    let mut title = String::from_str(character_name);
    match kind {
        RequestKind::Deposit => {
            content.append(" 🏦 **Alduin Deposit Request**");
            title.append(" requests deposit of ");
        },
        RequestKind::Withdraw => {
            content.append(" 💸 **Alduin Withdrawal Request**");
            title.append(" requests withdrawal of ");
        },
    }
    push_i64(&mut title, amount as i64);
    title.append(" Alduin");
    let character = character_label(character_name, character_id);
    let amount_text = number_text(amount as i64);
    let id_text = number_text(transaction_id);
    let mut fields: Vec<WebhookField> = Vec::new();
    push_webhook_field(&mut fields, "Character", character.as_str());
    push_webhook_field(&mut fields, "Wallet", wallet_address);
    push_webhook_field(&mut fields, "Amount", amount_text.as_str());
    push_webhook_field(
        &mut fields,
        "Type",
        match kind {
            RequestKind::Deposit => "Deposit",
            RequestKind::Withdraw => "Withdraw",
        },
    );
    push_webhook_field(&mut fields, "Transaction ID", id_text.as_str());
    assert(webhook_field_texts(fields@) =~= request_fields(
        kind,
        character_name@,
        character_id,
        wallet_address@,
        amount,
        transaction_id,
    ));
    let color: u32 = match kind {
        RequestKind::Deposit => DEPOSIT_COLOR,
        RequestKind::Withdraw => WITHDRAW_COLOR,
    };
    WebhookMessage { content, title, fields, color }
}

/// The message that announces a withdrawal request.
pub fn withdraw_message(
    mention: &str,
    character_name: &str,
    character_id: i32,
    wallet_address: &str,
    amount: i32,
    transaction_id: i64,
) -> (m: WebhookMessage)
    ensures
        m.content@ == mention@ + " 💸 **Alduin Withdrawal Request**"@,
        m.title@ == character_name@ + " requests withdrawal of "@ + int_text(amount as int)
            + " Alduin"@,
        webhook_field_texts(m.fields@) == request_fields(
            RequestKind::Withdraw,
            character_name@,
            character_id,
            wallet_address@,
            amount,
            transaction_id,
        ),
        m.color == WITHDRAW_COLOR,
{
    request_message(
        RequestKind::Withdraw,
        mention,
        character_name,
        character_id,
        wallet_address,
        amount,
        transaction_id,
    )
}

/// The message that announces a deposit request.
pub fn deposit_message(
    mention: &str,
    character_name: &str,
    character_id: i32,
    wallet_address: &str,
    amount: i32,
    transaction_id: i64,
) -> (m: WebhookMessage)
    ensures
        m.content@ == mention@ + " 🏦 **Alduin Deposit Request**"@,
        m.title@ == character_name@ + " requests deposit of "@ + int_text(amount as int)
            + " Alduin"@,
        webhook_field_texts(m.fields@) == request_fields(
            RequestKind::Deposit,
            character_name@,
            character_id,
            wallet_address@,
            amount,
            transaction_id,
        ),
        m.color == DEPOSIT_COLOR,
{
    request_message(
        RequestKind::Deposit,
        mention,
        character_name,
        character_id,
        wallet_address,
        amount,
        transaction_id,
    )
}

/// How a cancellation message names the action: `deposit` is a deposit, anything else a
/// withdrawal.
pub open spec fn action_label(action: Seq<char>) -> Seq<char> {
    if action == "deposit"@ {
        "Deposit"@
    } else {
        "Withdraw"@
    }
}

/// The fields of a cancellation message.
pub open spec fn cancel_fields(
    name: Seq<char>,
    character_id: i32,
    amount: i32,
    action: Seq<char>,
    transaction_id: i64,
) -> Seq<(Seq<char>, Seq<char>)> {
    seq![
        ("Character"@, character_text(name, character_id)),
        ("Amount"@, int_text(amount as int)),
        ("Type"@, action_label(action)),
        ("Transaction ID"@, int_text(transaction_id as int)),
    ]
}

/// The message that announces that a player cancelled their own pending transaction.
pub fn cancel_message(
    mention: &str,
    character_name: &str,
    character_id: i32,
    amount: i32,
    action: &str,
    transaction_id: i64,
) -> (m: WebhookMessage)
    ensures
        m.content@ == mention@ + " 🔕 **Alduin Transaction Cancelled**"@,
        m.title@ == "Player cancelled their own pending transaction"@,
        webhook_field_texts(m.fields@) == cancel_fields(
            character_name@,
            character_id,
            amount,
            action@,
            transaction_id,
        ),
        m.color == WITHDRAW_COLOR,
{
    let label: &str = if same_text(action, "deposit") { "Deposit" } else { "Withdraw" };
    let mut content = String::from_str(mention);
    content.append(" 🔕 **Alduin Transaction Cancelled**");
    let title = String::from_str("Player cancelled their own pending transaction");
    let character = character_label(character_name, character_id);
    let amount_text = number_text(amount as i64);
    let id_text = number_text(transaction_id);
    let mut fields: Vec<WebhookField> = Vec::new();
    push_webhook_field(&mut fields, "Character", character.as_str());
    push_webhook_field(&mut fields, "Amount", amount_text.as_str());
    push_webhook_field(&mut fields, "Type", label);
    push_webhook_field(&mut fields, "Transaction ID", id_text.as_str());
    assert(webhook_field_texts(fields@) =~= cancel_fields(
        character_name@,
        character_id,
        amount,
        action@,
        transaction_id,
    ));
    WebhookMessage { content, title, fields, color: WITHDRAW_COLOR }
}

} // verus!
