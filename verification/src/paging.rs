//! The in-game wallet page and the leaderboard: page numbers, offsets and lines.
use vstd::prelude::*;
use vstd::arithmetic::div_mod::{lemma_fundamental_div_mod, lemma_fundamental_div_mod_converse};

use crate::embed::{stamp_or_empty, utc_stamp};
use crate::status::{TxAction, TxStatus};
use crate::text::{int_text, join_lines, joined, push_i64, texts};

verus! {

/// The smallest integer not below `a / b`, for `b > 0`.
pub open spec fn ceil_div(a: int, b: int) -> int {
    -((-a) / b)
}

/// Which page of a player's transactions the wallet shows.
#[derive(Debug, Clone, Copy, PartialEq, Eq, Structural)]
pub struct WalletPage {
    /// Transactions on one page.
    pub per_page: i32,
    /// The page shown, from 1.
    pub page: i32,
    /// The number of pages, at least 1.
    pub total_pages: i32,
    /// How many transactions come before the page.
    pub offset: i32,
}

/// The wallet page for a request of page `requested`, with `configured_per_page` transactions
/// per page (at least 1 is used) and `total` transactions in all.
pub open spec fn wallet_page_of(requested: i32, configured_per_page: i32, total: i32) -> WalletPage {
    let per_page = if configured_per_page < 1 { 1 } else { configured_per_page };
    let pages = ceil_div(total as int, per_page as int);
    let total_pages = if pages < 1 { 1 } else { pages };
    let wanted = if requested < 1 { 1 } else { requested };
    let page = if wanted < total_pages { wanted as int } else { total_pages };
    WalletPage {
        per_page,
        page: page as i32,
        total_pages: total_pages as i32,
        offset: ((page - 1) * per_page) as i32,
    }
}

proof fn lemma_ceil_div_positive(t: int, p: int)
    requires
        t > 0,
        p > 0,
    ensures
        ceil_div(t, p) == (t - 1) / p + 1,
        ((t - 1) / p) * p <= t - 1,
        ((t - 1) / p + 1) * p >= t,
        (t - 1) / p >= 0,
        (t - 1) / p + 1 <= t,
{
    lemma_fundamental_div_mod(t - 1, p);
    let q = (t - 1) / p;
    let r = (t - 1) % p;
    assert(0 <= r < p) by {
        vstd::arithmetic::div_mod::lemma_mod_pos_bound(t - 1, p);
    }
    assert(-t == (-(q + 1)) * p + (p - 1 - r)) by (nonlinear_arith)
        requires
            t - 1 == p * q + r,
    ;
    lemma_fundamental_div_mod_converse(-t, p, -(q + 1), p - 1 - r);
    assert(q * p <= t - 1) by (nonlinear_arith)
        requires
            t - 1 == p * q + r,
            0 <= r,
    ;
    assert(q >= 0) by (nonlinear_arith)
        requires
            t - 1 == p * q + r,
            r < p,
            t >= 1,
            p > 0,
    ;
    assert((q + 1) * p >= t) by (nonlinear_arith)
        requires
            t - 1 == p * q + r,
            r < p,
    ;
    assert(q + 1 <= t) by (nonlinear_arith)
        requires
            q * p <= t - 1,
            q >= 0,
            p >= 1,
    ;
}

proof fn lemma_ceil_div_nonpositive(t: int, p: int)
    requires
        t <= 0,
        p > 0,
    ensures
        ceil_div(t, p) <= 0,
{
    assert((-t) / p >= 0) by {
        vstd::arithmetic::div_mod::lemma_div_pos_is_pos(-t, p);
    }
}

/// The wallet page a player sees when asking for page `requested`.
pub fn wallet_page(requested: i32, configured_per_page: i32, total: i32) -> (w: WalletPage)
    ensures
        w == wallet_page_of(requested, configured_per_page, total),
        1 <= w.page <= w.total_pages,
        w.per_page >= 1,
        w.offset >= 0,
        total > 0 ==> w.offset < total,
{
    let per_page: i32 = if configured_per_page < 1 { 1 } else { configured_per_page };
    let total_pages: i32 = if total <= 0 {
        proof {
            lemma_ceil_div_nonpositive(total as int, per_page as int);
        }
        1
    } else {
        proof {
            lemma_ceil_div_positive(total as int, per_page as int);
        }
        (total - 1) / per_page + 1
    };
    let wanted: i32 = if requested < 1 { 1 } else { requested };
    let page: i32 = if wanted < total_pages { wanted } else { total_pages };
    proof {
        if total > 0 {
            lemma_ceil_div_positive(total as int, per_page as int);
            assert((page - 1) * per_page <= total - 1) by (nonlinear_arith)
                requires
                    page - 1 <= (total as int - 1) / (per_page as int),
                    ((total as int - 1) / (per_page as int)) * per_page <= total - 1,
                    per_page > 0,
                    page >= 1,
            ;
            assert((page - 1) * per_page >= 0) by (nonlinear_arith)
                requires
                    page >= 1,
                    per_page > 0,
            ;
            assert(0 <= (page - 1) * per_page <= i32::MAX);
        } else {
            assert(page == 1);
            assert((page - 1) * per_page == 0) by (nonlinear_arith)
                requires
                    page == 1,
            ;
        }
    }
    let offset: i32 = (page - 1) * per_page;
    WalletPage { per_page, page, total_pages, offset }
}

/// The wallet page uses the configured number of transactions per page (at least one), has just
/// enough pages to hold every transaction (and at least one), shows the asked page clamped to
/// those pages, and starts after all transactions of the pages before it.
pub proof fn lemma_wallet_page_holds_history(requested: i32, configured_per_page: i32, total: i32)
    ensures
        ({
            let w = wallet_page_of(requested, configured_per_page, total);
            &&& w.per_page == (if configured_per_page >= 1 { configured_per_page } else { 1 })
            &&& w.total_pages >= 1
            &&& w.total_pages * w.per_page >= total
            &&& (w.total_pages == 1 || (w.total_pages - 1) * w.per_page < total)
            &&& w.page == (if requested < 1 {
                1
            } else if requested > w.total_pages {
                w.total_pages
            } else {
                requested
            })
            &&& w.offset == (w.page - 1) * w.per_page
        }),
{
    let p: int = if configured_per_page < 1 { 1 } else { configured_per_page as int };
    let w = wallet_page_of(requested, configured_per_page, total);
    if total > 0 {
        lemma_ceil_div_positive(total as int, p);
        let q = (total as int - 1) / p;
        assert(w.total_pages == q + 1);
        let page = w.page as int;
        assert(1 <= page <= q + 1);
        assert((page - 1) * p <= q * p) by (nonlinear_arith)
            requires
                1 <= page <= q + 1,
                p >= 1,
        ;
        assert((page - 1) * p >= 0) by (nonlinear_arith)
            requires
                page >= 1,
                p >= 1,
        ;
        assert(w.per_page == p);
        assert(w.total_pages * w.per_page >= total);
        assert(w.total_pages == 1 || (w.total_pages - 1) * w.per_page < total);
        assert(w.offset == (w.page - 1) * w.per_page);
    } else {
        lemma_ceil_div_nonpositive(total as int, p);
        assert(w.total_pages == 1);
        assert(w.page == 1);
        assert(w.per_page == p);
        assert(w.total_pages * w.per_page >= total);
        assert(w.offset == 0);
    }
}

/// One line of a player's transaction history, each missing column replaced by its default.
#[derive(Debug, Clone)]
pub struct WalletEntry {
    pub id: i32,
    pub timestamp: i32,
    pub action: TxAction,
    pub amount: i32,
    pub wallet_address: String,
    pub status: TxStatus,
}

/// Builds a history line from the columns of its row.
pub fn wallet_entry(
    id: Option<i32>,
    timestamp: Option<i32>,
    action_id: Option<i32>,
    amount: Option<i32>,
    wallet_address: Option<String>,
    status_id: Option<i32>,
) -> (e: WalletEntry)
    ensures
        e.id == (match id { Some(v) => v, None => 0i32 }),
        e.timestamp == (match timestamp { Some(v) => v, None => 0i32 }),
        e.action == TxAction::spec_of_id(match action_id { Some(v) => v, None => 0i32 }),
        e.amount == (match amount { Some(v) => v, None => 0i32 }),
        e.wallet_address@ == (match wallet_address { Some(s) => s@, None => Seq::<char>::empty() }),
        e.status == TxStatus::spec_of_id(match status_id { Some(v) => v, None => 0i32 }),
{
    WalletEntry {
        id: match id { Some(v) => v, None => 0 },
        timestamp: match timestamp { Some(v) => v, None => 0 },
        action: TxAction::from(match action_id { Some(v) => v, None => 0 }),
        amount: match amount { Some(v) => v, None => 0 },
        wallet_address: match wallet_address { Some(s) => s, None => String::new() },
        status: TxStatus::from(match status_id { Some(v) => v, None => 0 }),
    }
}

/// What the server does with an Alduin packet from a player.
#[derive(Debug, Clone, Copy, PartialEq, Eq, Structural)]
pub enum AlduinDispatch {
    /// The player is trading: the packet is dropped.
    Ignore,
    /// A wallet request: the wallet page is sent back.
    Request,
    /// Any other action: it is reported as unhandled.
    Unhandled,
}

/// How an Alduin packet is handled, given whether the player is trading and whether the
/// packet's action is a request.
pub fn alduin_dispatch(trading: bool, is_request: bool) -> (d: AlduinDispatch)
    ensures
        d == (if trading {
            AlduinDispatch::Ignore
        } else if is_request {
            AlduinDispatch::Request
        } else {
            AlduinDispatch::Unhandled
        }),
{
    if trading {
        AlduinDispatch::Ignore
    } else if is_request {
        AlduinDispatch::Request
    } else {
        AlduinDispatch::Unhandled
    }
}

/// The leaderboard page asked for: the option's value cut to `i32`, and at least 1.
pub open spec fn leaderboard_page_of(option: Option<i64>) -> i32 {
    let v = match option { Some(v) => v as i32, None => 1i32 };
    if v < 1 { 1 } else { v }
}

/// Whether the leaderboard offset of a page stays within `i32`.
pub open spec fn leaderboard_page_fits(option: Option<i64>) -> bool {
    (leaderboard_page_of(option) - 1) * 10 <= i32::MAX
}

/// The leaderboard page asked for and how many entries come before it (10 per page).
pub fn leaderboard_window(option: Option<i64>) -> (r: (i32, i32))
    requires
        leaderboard_page_fits(option),
    ensures
        r.0 == leaderboard_page_of(option),
        r.1 == (r.0 - 1) * 10,
{
    let v: i32 = match option {
        Some(v) => v as i32,
        None => 1,
    };
    let page: i32 = if v < 1 { 1 } else { v };
    (page, (page - 1) * 10)
}

/// The line of the entry at `rank`.
pub open spec fn rank_line(rank: int, name: Seq<char>, total: i32) -> Seq<char> {
    int_text(rank) + ". "@ + name + " — "@ + int_text(total as int)
}

/// The lines of a leaderboard page: its heading, then one line per entry, ranked from
/// `offset + 1`.
pub open spec fn leaderboard_lines(
    page: i32,
    stamp: Seq<char>,
    offset: i32,
    names: Seq<Seq<char>>,
    totals: Seq<i32>,
) -> Seq<Seq<char>> {
    seq!["**Alduin Leaderboard — Page "@ + int_text(page as int) + "** ("@ + stamp + "):"@]
        + Seq::new(names.len(), |i: int| rank_line(offset + 1 + i, names[i], totals[i]))
}

/// A leaderboard page lists one line per entry after its heading, in the order given, the
/// entry at position `i` ranked `offset + i + 1`.
pub proof fn lemma_leaderboard_ranks(
    page: i32,
    stamp: Seq<char>,
    offset: i32,
    names: Seq<Seq<char>>,
    totals: Seq<i32>,
)
    requires
        names.len() == totals.len(),
    ensures
        ({
            let lines = leaderboard_lines(page, stamp, offset, names, totals);
            &&& lines.len() == names.len() + 1
            &&& forall|i: int|
                0 <= i < names.len() ==> #[trigger] lines[i + 1] == int_text(offset + i + 1) + ". "@
                    + names[i] + " — "@ + int_text(totals[i] as int)
        }),
{
}

/// The leaderboard shows the asked page when it is at least 1 (after cutting it to `i32`), page
/// 1 otherwise, and skips 10 entries per page before it.
pub proof fn lemma_leaderboard_page(option: Option<i64>)
    ensures
        leaderboard_page_of(option) >= 1,
        (match option {
            Some(v) => (v as i32) >= 1 ==> leaderboard_page_of(option) == v as i32,
            None => leaderboard_page_of(option) == 1,
        }),
        (match option {
            Some(v) => (v as i32) < 1 ==> leaderboard_page_of(option) == 1,
            None => true,
        }),
{
}

/// The reply to a leaderboard request: a notice when the page is empty, else its lines.
pub open spec fn leaderboard_text(
    page: i32,
    stamp: Seq<char>,
    offset: i32,
    names: Seq<Seq<char>>,
    totals: Seq<i32>,
) -> Seq<char> {
    if names.len() == 0 {
        "No entries found on this page."@
    } else {
        joined(leaderboard_lines(page, stamp, offset, names, totals), "\n"@)
    }
}

/// The reply to a leaderboard request, for the entries `names`/`totals` of page `page`,
/// stamped with the time `now` (seconds after the Unix epoch).
pub fn leaderboard_reply(
    page: i32,
    now: i64,
    offset: i32,
    names: &Vec<String>,
    totals: &Vec<i32>,
) -> (r: String)
    requires
        names.len() == totals.len(),
        offset >= 0,
        offset + names.len() <= i32::MAX,
    ensures
        r@ == leaderboard_text(page, stamp_or_empty(now), offset, texts(names@), totals@),
{
    let stamp = utc_stamp(now);
    if names.len() == 0 {
        return String::from_str("No entries found on this page.");
    }
    let mut lines: Vec<String> = Vec::new();
    let mut head = String::from_str("**Alduin Leaderboard — Page ");
    push_i64(&mut head, page as i64);
    head.append("** (");
    head.append(stamp.as_str());
    head.append("):");
    lines.push(head);
    let ghost want = leaderboard_lines(page, stamp@, offset, texts(names@), totals@);
    assert(stamp@ == stamp_or_empty(now));
    let mut i: usize = 0;
    while i < names.len()
        invariant
            i <= names.len() == totals.len(),
            offset >= 0,
            offset + names.len() <= i32::MAX,
            want == leaderboard_lines(page, stamp@, offset, texts(names@), totals@),
            texts(lines@) =~= want.take(i + 1),
        decreases names.len() - i,
    {
        let mut line = String::new();
        push_i64(&mut line, (offset as i64) + 1 + (i as i64));
        line.append(". ");
        line.append(names[i].as_str());
        line.append(" — ");
        push_i64(&mut line, totals[i] as i64);
        let ghost before = lines@;
        proof {
            assert(line@ == rank_line(offset + 1 + i, texts(names@)[i as int], totals@[i as int]));
            assert(want[i + 1] == line@);
        }
        lines.push(line);
        proof {
            assert(texts(lines@) =~= texts(before).push(line@));
            assert(want.take(i + 2) =~= want.take(i + 1).push(want[i + 1]));
        }
        i = i + 1;
    }
    assert(want.take(names.len() + 1) =~= want);
    join_lines(&lines)
}

} // verus!
