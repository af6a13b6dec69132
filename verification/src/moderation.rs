//! What moderators are told when they approve or decline a transaction, by command or by
//! button and reason dialog.
use vstd::prelude::*;

use crate::embed::{field_texts, push_field, Embed, EmbedField, APPROVED_COLOR, DECLINED_COLOR};
use crate::resolution::ResolutionResult;
use crate::status::{action_word, format_action, TxStatus};
use crate::text::{int_text, push_i64};

verus! {

/// How the reply to a command names the new status.
pub open spec fn command_status_word(s: TxStatus) -> Seq<char> {
    match s {
        TxStatus::Approved => "approved"@,
        TxStatus::Cancelled => "cancelled"@,
        _ => "resolved"@,
    }
}

/// The reply to an approve or decline command that succeeded.
pub open spec fn command_reply_text(tx_id: i32, r: ResolutionResult) -> Seq<char> {
    "Transaction #"@ + int_text(tx_id as int) + " "@ + command_status_word(r.new_status)
        + " successfully.\nCharacter: "@ + r.character_name@ + "\nAction: "@ + action_word(r.action)
        + "\nAmount: "@ + int_text(r.amount as int) + "\nOnline: "@ + (if r.was_online {
        "Yes"@
    } else {
        "No"@
    })
}

/// The reply to an approve or decline command that succeeded.
pub fn command_reply(tx_id: i32, r: &ResolutionResult) -> (s: String)
    ensures
        s@ == command_reply_text(tx_id, *r),
{
    let mut s = String::from_str("Transaction #");
    push_i64(&mut s, tx_id as i64);
    s.append(" ");
    s.append(
        match r.new_status {
            TxStatus::Approved => "approved",
            TxStatus::Cancelled => "cancelled",
            _ => "resolved",
        },
    );
    s.append(" successfully.\nCharacter: ");
    s.append(r.character_name.as_str());
    s.append("\nAction: ");
    s.append(format_action(r.action));
    s.append("\nAmount: ");
    push_i64(&mut s, r.amount as i64);
    s.append("\nOnline: ");
    s.append(if r.was_online { "Yes" } else { "No" });
    s
}

/// The reply when resolving failed with `message`.
pub fn error_reply(message: &str) -> (s: String)
    ensures
        s@ == "Error: "@ + message@,
{
    let mut s = String::from_str("Error: ");
    s.append(message);
    s
}

/// The reason typed into the dialog, when it is not empty.
pub fn dialog_reason(value: Option<String>) -> (r: Option<String>)
    ensures
        r matches Some(t) ==> value matches Some(v) && v@ == t@ && t@.len() > 0,
        r is None ==> (value is None || value->0@.len() == 0),
{
    match value {
        Some(v) => if v.as_str().is_empty() {
            None
        } else {
            Some(v)
        },
        None => None,
    }
}

/// How the channel post and the dialog's reply name the new status.
pub open spec fn dialog_status_word(s: TxStatus) -> Seq<char> {
    match s {
        TxStatus::Approved => "Approved"@,
        TxStatus::Cancelled => "Declined"@,
        _ => "Resolved"@,
    }
}

/// The same word in lower case.
pub open spec fn dialog_status_lower(s: TxStatus) -> Seq<char> {
    match s {
        TxStatus::Approved => "approved"@,
        TxStatus::Cancelled => "declined"@,
        _ => "resolved"@,
    }
}

/// The fields of the post that records a decision taken through the dialog.
pub open spec fn decision_fields(
    r: ResolutionResult,
    moderator: Seq<char>,
    reason: Option<Seq<char>>,
) -> Seq<(Seq<char>, Seq<char>, bool)> {
    seq![
        ("Character"@, r.character_name@, true),
        ("Action"@, action_word(r.action), true),
        ("Amount"@, int_text(r.amount as int), true),
        ("Resolved By"@, moderator, true),
        ("Comment"@, match reason { Some(t) => t, None => "None"@ }, true),
    ]
}

/// What the dialog leads to: the post for the channel and the reply to the moderator.
#[derive(Debug, Clone)]
pub struct DecisionNotice {
    pub embed: Embed,
    pub reply: String,
}

/// The post and reply once transaction `tx_id` was resolved through the dialog by
/// `moderator`, with the optional `reason`.
pub fn decision_notice(
    tx_id: i32,
    r: &ResolutionResult,
    moderator: &str,
    reason: &Option<String>,
) -> (n: DecisionNotice)
    ensures
        n.embed.title@ == "Transaction #"@ + int_text(tx_id as int) + " — "@ + dialog_status_word(
            r.new_status,
        ),
        n.embed.color == (if r.new_status == TxStatus::Approved {
            APPROVED_COLOR
        } else {
            DECLINED_COLOR
        }),
        field_texts(n.embed.fields@) == decision_fields(
            *r,
            moderator@,
            match reason {
                Some(t) => Some(t@),
                None => None,
            },
        ),
        n.reply@ == "Transaction #"@ + int_text(tx_id as int) + " "@ + dialog_status_lower(
            r.new_status,
        ) + " successfully!"@,
{
    let (word, lower): (&str, &str) = match r.new_status {
        TxStatus::Approved => ("Approved", "approved"),
        TxStatus::Cancelled => ("Declined", "declined"),
        _ => ("Resolved", "resolved"),
    };
    let color: u32 = match r.new_status {
        TxStatus::Approved => APPROVED_COLOR,
        _ => DECLINED_COLOR,
    };
    let mut title = String::from_str("Transaction #");
    push_i64(&mut title, tx_id as i64);
    title.append(" — ");
    title.append(word);
    let mut amount_text = String::new();
    push_i64(&mut amount_text, r.amount as i64);
    let mut fields: Vec<EmbedField> = Vec::new();
    push_field(&mut fields, "Character", r.character_name.as_str(), true);
    push_field(&mut fields, "Action", format_action(r.action), true);
    push_field(&mut fields, "Amount", amount_text.as_str(), true);
    push_field(&mut fields, "Resolved By", moderator, true);
    match reason {
        Some(t) => push_field(&mut fields, "Comment", t.as_str(), true),
        None => push_field(&mut fields, "Comment", "None", true),
    }
    let mut reply = String::from_str("Transaction #");
    push_i64(&mut reply, tx_id as i64);
    reply.append(" ");
    reply.append(lower);
    reply.append(" successfully!");
    DecisionNotice { embed: Embed { title, color, fields }, reply }
}

} // verus!
