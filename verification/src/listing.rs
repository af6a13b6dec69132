//! The moderators' views of transactions: one transaction in detail, a filtered list, and the
//! pending ones with links to their posts.
use vstd::prelude::*;
use vstd::utf8::encode_utf8;

use crate::embed::{
    field_texts, push_field, stamp_or_empty, time_or_empty, utc_stamp, utc_stamp_opt, utc_time,
    utc_time_text, Embed, EmbedField, APPROVED_COLOR, DECLINED_COLOR, PENDING_COLOR,
};
use crate::status::{action_word, format_action, format_tx_status, status_filter_id, filter_status_id, status_word};
use crate::text::{int_text, join_lines, joined, push_i64, texts, utf8_len_exceeds};

verus! {

/// A transaction as the detail view reads it, each missing column replaced by its default.
#[derive(Debug, Clone)]
pub struct TxDetails {
    pub id: i32,
    pub name: String,
    pub action_id: i32,
    pub amount: i32,
    pub wallet: String,
    pub status_id: i32,
    pub created_at: i32,
    pub resolved_at: Option<i32>,
    pub resolved_by: String,
    pub comment: String,
}

/// The colour that shows a status: yellow while pending, green once approved, red otherwise.
pub open spec fn status_color(status_id: i32) -> u32 {
    if status_id == 0 {
        PENDING_COLOR
    } else if status_id == 1 {
        APPROVED_COLOR
    } else {
        DECLINED_COLOR
    }
}

/// The fields of the detail view: the fixed ones, then the resolution time when there is one
/// that chrono can show, the moderator and the comment when they are not empty.
pub open spec fn detail_fields(d: TxDetails) -> Seq<(Seq<char>, Seq<char>, bool)> {
    let base = seq![
        ("Character"@, d.name@, true),
        ("Action"@, action_word(d.action_id), true),
        ("Amount"@, int_text(d.amount as int), true),
        ("Wallet"@, d.wallet@, false),
        ("Created"@, stamp_or_empty(d.created_at as i64), false),
    ];
    let with_time = match d.resolved_at {
        Some(ts) => match utc_time_text(ts as i64) {
            Some(t) => base.push(("Resolved At"@, t + " UTC"@, true)),
            None => base,
        },
        None => base,
    };
    let with_by = if d.resolved_by@.len() > 0 {
        with_time.push(("Resolved By"@, d.resolved_by@, true))
    } else {
        with_time
    };
    if d.comment@.len() > 0 {
        with_by.push(("Comment"@, d.comment@, true))
    } else {
        with_by
    }
}

/// The embed that shows one transaction.
pub fn transaction_embed(d: &TxDetails) -> (e: Embed)
    ensures
        e.title@ == "Transaction #"@ + int_text(d.id as int) + " — "@ + status_word(d.status_id),
        e.color == status_color(d.status_id),
        field_texts(e.fields@) == detail_fields(*d),
{
    let mut title = String::from_str("Transaction #");
    push_i64(&mut title, d.id as i64);
    title.append(" — ");
    title.append(format_tx_status(d.status_id));
    let color: u32 = if d.status_id == 0 {
        PENDING_COLOR
    } else if d.status_id == 1 {
        APPROVED_COLOR
    } else {
        DECLINED_COLOR
    };
    let mut amount_text = String::new();
    push_i64(&mut amount_text, d.amount as i64);
    let created = utc_stamp(d.created_at as i64);
    let mut fields: Vec<EmbedField> = Vec::new();
    push_field(&mut fields, "Character", d.name.as_str(), true);
    push_field(&mut fields, "Action", format_action(d.action_id), true);
    push_field(&mut fields, "Amount", amount_text.as_str(), true);
    push_field(&mut fields, "Wallet", d.wallet.as_str(), false);
    push_field(&mut fields, "Created", created.as_str(), false);
    match d.resolved_at {
        Some(ts) => match utc_stamp_opt(ts as i64) {
            Some(rs) => push_field(&mut fields, "Resolved At", rs.as_str(), true),
            None => {},
        },
        None => {},
    }
    if !d.resolved_by.as_str().is_empty() {
        push_field(&mut fields, "Resolved By", d.resolved_by.as_str(), true);
    }
    if !d.comment.as_str().is_empty() {
        push_field(&mut fields, "Comment", d.comment.as_str(), true);
    }
    Embed { title, color, fields }
}

/// The detail view shows the fixed fields first, then the resolution time when there is one that
/// chrono can show, then the moderator exactly when one is recorded, then the comment exactly
/// when there is one; each optional field is independent of the others.
pub proof fn lemma_detail_fields_shown(d: TxDetails)
    ensures
        ({
            let f = detail_fields(d);
            let time_shown = d.resolved_at matches Some(ts) && utc_time_text(ts as i64) is Some;
            let t: int = if time_shown { 1 } else { 0 };
            let b: int = if d.resolved_by@.len() > 0 { 1 } else { 0 };
            let c: int = if d.comment@.len() > 0 { 1 } else { 0 };
            &&& f.len() == 5 + t + b + c
            &&& f[0] == ("Character"@, d.name@, true)
            &&& f[1] == ("Action"@, action_word(d.action_id), true)
            &&& f[2] == ("Amount"@, int_text(d.amount as int), true)
            &&& f[3] == ("Wallet"@, d.wallet@, false)
            &&& f[4] == ("Created"@, stamp_or_empty(d.created_at as i64), false)
            &&& time_shown ==> f[5] == ("Resolved At"@, utc_time_text(
                d.resolved_at->0 as i64,
            )->0 + " UTC"@, true)
            &&& b == 1 ==> f[5 + t] == ("Resolved By"@, d.resolved_by@, true)
            &&& c == 1 ==> f[5 + t + b] == ("Comment"@, d.comment@, true)
            &&& f.contains(("Resolved By"@, d.resolved_by@, true)) <==> d.resolved_by@.len() > 0
            &&& f.contains(("Comment"@, d.comment@, true)) <==> d.comment@.len() > 0
        }),
{
    reveal_strlit("Character");
    reveal_strlit("Action");
    reveal_strlit("Amount");
    reveal_strlit("Wallet");
    reveal_strlit("Created");
    reveal_strlit("Resolved At");
    reveal_strlit("Resolved By");
    reveal_strlit("Comment");
    assert("Character"@.len() != "Resolved By"@.len());
    assert("Action"@.len() != "Resolved By"@.len());
    assert("Amount"@.len() != "Resolved By"@.len());
    assert("Wallet"@.len() != "Resolved By"@.len());
    assert("Created"@.len() != "Resolved By"@.len());
    assert("Comment"@.len() != "Resolved By"@.len());
    assert("Resolved At"@[9] != "Resolved By"@[9]);
    assert("Character"@.len() != "Comment"@.len());
    assert("Action"@.len() != "Comment"@.len());
    assert("Amount"@.len() != "Comment"@.len());
    assert("Wallet"@.len() != "Comment"@.len());
    assert("Created"@[1] != "Comment"@[1]);
    assert("Resolved At"@.len() != "Comment"@.len());
    let f = detail_fields(d);
    let time_shown = d.resolved_at matches Some(ts) && utc_time_text(ts as i64) is Some;
    let t: int = if time_shown { 1 } else { 0 };
    let b: int = if d.resolved_by@.len() > 0 { 1 } else { 0 };
    if b == 1 {
        assert(f[5 + t] == ("Resolved By"@, d.resolved_by@, true));
    } else {
        assert forall|i: int| 0 <= i < f.len() implies f[i] != ("Resolved By"@, d.resolved_by@, true) by {
            assert(f[i].0 != "Resolved By"@);
        }
    }
    if d.comment@.len() > 0 {
        assert(f[5 + t + b] == ("Comment"@, d.comment@, true));
    } else {
        assert forall|i: int| 0 <= i < f.len() implies f[i] != ("Comment"@, d.comment@, true) by {
            assert(f[i].0 != "Comment"@);
        }
    }
}

/// What the detail view answers for `tx_id`: an embed, or a notice.
#[derive(Debug, Clone)]
pub enum DetailReply {
    Notice(String),
    Show(Embed),
}

/// Whether the detail view may look `tx_id` up; otherwise it answers that the id is invalid.
pub fn detail_id_is_valid(tx_id: i32) -> (b: bool)
    ensures
        b == (tx_id > 0),
{
    tx_id > 0
}

/// The notice for an id that is not a transaction id.
pub fn invalid_id_notice() -> (s: String)
    ensures
        s@ == "Invalid transaction ID."@,
{
    String::from_str("Invalid transaction ID.")
}

/// The answer of the detail view for `tx_id`, given what the lookup found.
pub fn detail_reply(tx_id: i32, found: Option<TxDetails>) -> (r: DetailReply)
    ensures
        (match (found, r) {
            (None, DetailReply::Notice(s)) => s@ == "Transaction #"@ + int_text(tx_id as int)
                + " not found."@,
            (Some(d), DetailReply::Show(e)) => {
                &&& e.title@ == "Transaction #"@ + int_text(d.id as int) + " — "@ + status_word(
                    d.status_id,
                )
                &&& e.color == status_color(d.status_id)
                &&& field_texts(e.fields@) == detail_fields(d)
            },
            _ => false,
        }),
{
    match found {
        Some(d) => DetailReply::Show(transaction_embed(&d)),
        None => {
            let mut s = String::from_str("Transaction #");
            push_i64(&mut s, tx_id as i64);
            s.append(" not found.");
            DetailReply::Notice(s)
        },
    }
}

/// The query behind the transaction list, by its filters.
#[derive(Debug, Clone)]
pub enum ListQuery {
    /// The latest transactions.
    All,
    /// The latest transactions with a status id.
    Status(i32),
    /// The latest transactions of characters whose name matches a `LIKE` pattern.
    Name(String),
    /// Both filters at once.
    StatusAndName(i32, String),
}

/// The `LIKE` pattern that finds names containing `name`.
pub open spec fn like_pattern(name: Seq<char>) -> Seq<char> {
    "%"@ + name + "%"@
}

fn like_pattern_of(name: &str) -> (p: String)
    ensures
        p@ == like_pattern(name@),
{
    let mut p = String::from_str("%");
    p.append(name);
    p.append("%");
    p
}

/// The query for the optional `status` word and the optional `character` name filter.
pub fn list_query(status: Option<&str>, character: Option<&str>) -> (q: ListQuery)
    ensures
        (match (status, character, q) {
            (None, None, ListQuery::All) => true,
            (Some(w), None, ListQuery::Status(id)) => id == filter_status_id(w@),
            (None, Some(n), ListQuery::Name(p)) => p@ == like_pattern(n@),
            (Some(w), Some(n), ListQuery::StatusAndName(id, p)) => id == filter_status_id(w@)
                && p@ == like_pattern(n@),
            _ => false,
        }),
{
    match (status, character) {
        (Some(s), Some(n)) => ListQuery::StatusAndName(status_filter_id(s), like_pattern_of(n)),
        (Some(s), None) => ListQuery::Status(status_filter_id(s)),
        (None, Some(n)) => ListQuery::Name(like_pattern_of(n)),
        (None, None) => ListQuery::All,
    }
}

/// One transaction of the list, each missing column replaced by its default.
#[derive(Debug, Clone)]
pub struct ListRow {
    pub id: i32,
    pub name: String,
    pub action_id: i32,
    pub amount: i32,
    pub status_id: i32,
}

/// The line of a listed transaction.
pub open spec fn list_line(r: ListRow) -> Seq<char> {
    "#"@ + int_text(r.id as int) + " | "@ + r.name@ + " | "@ + action_word(r.action_id) + " | "@
        + int_text(r.amount as int) + " | "@ + status_word(r.status_id)
}

/// The reply of the transaction list.
pub open spec fn list_text(rows: Seq<ListRow>) -> Seq<char> {
    if rows.len() == 0 {
        "No transactions found."@
    } else {
        "**Transactions:**\n"@ + joined(rows.map_values(|r: ListRow| list_line(r)), "\n"@)
    }
}

fn list_line_of(r: &ListRow) -> (s: String)
    ensures
        s@ == list_line(*r),
{
    let mut s = String::from_str("#");
    push_i64(&mut s, r.id as i64);
    s.append(" | ");
    s.append(r.name.as_str());
    s.append(" | ");
    s.append(format_action(r.action_id));
    s.append(" | ");
    push_i64(&mut s, r.amount as i64);
    s.append(" | ");
    s.append(format_tx_status(r.status_id));
    s
}

/// The reply of the transaction list for the rows found.
pub fn list_reply(rows: &Vec<ListRow>) -> (s: String)
    ensures
        s@ == list_text(rows@),
{
    if rows.len() == 0 {
        return String::from_str("No transactions found.");
    }
    let ghost want = rows@.map_values(|r: ListRow| list_line(r));
    let mut lines: Vec<String> = Vec::new();
    let mut i: usize = 0;
    while i < rows.len()
        invariant
            i <= rows.len(),
            want == rows@.map_values(|r: ListRow| list_line(r)),
            texts(lines@) =~= want.take(i as int),
        decreases rows.len() - i,
    {
        let line = list_line_of(&rows[i]);
        let ghost before = lines@;
        lines.push(line);
        proof {
            assert(texts(lines@) =~= texts(before).push(line@));
            assert(want.take(i + 1) =~= want.take(i as int).push(want[i as int]));
        }
        i = i + 1;
    }
    assert(want.take(rows.len() as int) =~= want);
    let mut s = String::from_str("**Transactions:**\n");
    let body = join_lines(&lines);
    s.append(body.as_str());
    s
}

/// One pending transaction, each missing column replaced by its default.
#[derive(Debug, Clone)]
pub struct PendingRow {
    pub id: i32,
    pub name: String,
    pub action_id: i32,
    pub amount: i32,
    pub created_at: i32,
    pub message_id: String,
}

/// The link to the post of a pending transaction, when the server and channel are configured
/// and the post is known; else empty.
pub open spec fn post_link(guild_id: u64, channel_id: u64, message_id: Seq<char>) -> Seq<char> {
    if guild_id != 0 && channel_id != 0 && message_id.len() > 0 {
        "https://discord.com/channels/"@ + int_text(guild_id as int) + "/"@ + int_text(
            channel_id as int,
        ) + "/"@ + message_id
    } else {
        Seq::empty()
    }
}

/// The line of a pending transaction: the link is added when there is one.
pub open spec fn pending_line(guild_id: u64, channel_id: u64, r: PendingRow) -> Seq<char> {
    let head = "#"@ + int_text(r.id as int) + " | "@ + r.name@ + " | "@ + action_word(r.action_id)
        + " | "@ + int_text(r.amount as int) + " | "@ + time_or_empty(r.created_at as i64);
    let link = post_link(guild_id, channel_id, r.message_id@);
    if link.len() == 0 {
        head
    } else {
        head + " | "@ + link
    }
}

/// The longest reply, in bytes, that is sent as a list.
pub const PENDING_REPLY_LIMIT: usize = 2000;

/// The reply of the pending view: the list, or a count when the list is longer than
/// 2000 bytes.
pub open spec fn pending_text(guild_id: u64, channel_id: u64, rows: Seq<PendingRow>) -> Seq<char> {
    let full = "**Pending Transactions:**\n"@ + joined(
        rows.map_values(|r: PendingRow| pending_line(guild_id, channel_id, r)),
        "\n"@,
    );
    if rows.len() == 0 {
        "No pending transactions."@
    } else if encode_utf8(full).len() > 2000 {
        "**"@ + int_text(rows.len() as int)
            + " pending transactions** (content too long, use /transactions status:pending)"@
    } else {
        full
    }
}

/// The pending transactions are sent as a list exactly when the list fits in 2000 bytes;
/// otherwise only their number is sent.
pub proof fn lemma_pending_reply_respects_limit(guild_id: u64, channel_id: u64, rows: Seq<PendingRow>)
    requires
        rows.len() > 0,
    ensures
        ({
            let list = "**Pending Transactions:**\n"@ + joined(
                rows.map_values(|r: PendingRow| pending_line(guild_id, channel_id, r)),
                "\n"@,
            );
            let count = "**"@ + int_text(rows.len() as int)
                + " pending transactions** (content too long, use /transactions status:pending)"@;
            &&& (pending_text(guild_id, channel_id, rows) == list) <==> encode_utf8(list).len() <= 2000
            &&& pending_text(guild_id, channel_id, rows) != list ==> pending_text(
                guild_id,
                channel_id,
                rows,
            ) == count
        }),
{
    reveal_strlit("**Pending Transactions:**\n");
    reveal_strlit("**");
    let list = "**Pending Transactions:**\n"@ + joined(
        rows.map_values(|r: PendingRow| pending_line(guild_id, channel_id, r)),
        "\n"@,
    );
    let count = "**"@ + int_text(rows.len() as int)
        + " pending transactions** (content too long, use /transactions status:pending)"@;
    crate::text::lemma_nat_digits_read_back(rows.len());
    assert(crate::text::is_digit(int_text(rows.len() as int)[0]));
    assert(count[2] == int_text(rows.len() as int)[0]);
    assert(list[2] == 'P');
    assert(list != count);
}

fn push_u64(s: &mut String, n: u64)
    ensures
        final(s)@ == old(s)@ + int_text(n as int),
{
    crate::text::push_nat(s, n);
}

fn pending_line_of(guild_id: u64, channel_id: u64, r: &PendingRow) -> (s: String)
    ensures
        s@ == pending_line(guild_id, channel_id, *r),
{
    let mut s = String::from_str("#");
    push_i64(&mut s, r.id as i64);
    s.append(" | ");
    s.append(r.name.as_str());
    s.append(" | ");
    s.append(format_action(r.action_id));
    s.append(" | ");
    push_i64(&mut s, r.amount as i64);
    s.append(" | ");
    let created = utc_time(r.created_at as i64);
    s.append(created.as_str());
    if guild_id != 0 && channel_id != 0 && !r.message_id.as_str().is_empty() {
        s.append(" | ");
        s.append("https://discord.com/channels/");
        push_u64(&mut s, guild_id);
        s.append("/");
        push_u64(&mut s, channel_id);
        s.append("/");
        s.append(r.message_id.as_str());
        proof {
            reveal_strlit("https://discord.com/channels/");
        }
    }
    s
}

/// The reply of the pending view for the rows found, with links into channel `channel_id` of
/// server `guild_id`.
pub fn pending_reply(guild_id: u64, channel_id: u64, rows: &Vec<PendingRow>) -> (s: String)
    ensures
        s@ == pending_text(guild_id, channel_id, rows@),
{
    if rows.len() == 0 {
        return String::from_str("No pending transactions.");
    }
    let ghost want = rows@.map_values(|r: PendingRow| pending_line(guild_id, channel_id, r));
    let mut lines: Vec<String> = Vec::new();
    let mut i: usize = 0;
    while i < rows.len()
        invariant
            i <= rows.len(),
            want == rows@.map_values(|r: PendingRow| pending_line(guild_id, channel_id, r)),
            texts(lines@) =~= want.take(i as int),
        decreases rows.len() - i,
    {
        let line = pending_line_of(guild_id, channel_id, &rows[i]);
        let ghost before = lines@;
        lines.push(line);
        proof {
            assert(texts(lines@) =~= texts(before).push(line@));
            assert(want.take(i + 1) =~= want.take(i as int).push(want[i as int]));
        }
        i = i + 1;
    }
    assert(want.take(rows.len() as int) =~= want);
    let mut full = String::from_str("**Pending Transactions:**\n");
    let body = join_lines(&lines);
    full.append(body.as_str());
    if utf8_len_exceeds(full.as_str(), PENDING_REPLY_LIMIT) {
        let mut s = String::from_str("**");
        crate::text::push_nat(&mut s, rows.len() as u64);
        s.append(" pending transactions** (content too long, use /transactions status:pending)");
        s
    } else {
        full
    }
}

} // verus!
