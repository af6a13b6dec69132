//! The ids of the Approve/Decline buttons and of the reason dialog that they open.
use vstd::prelude::*;

use crate::status::TxStatus;
use crate::text::{
    all_digits, chars_of, find_field_end, first_field, has_prefix, int_text, is_digit,
    is_first_separator, lemma_i32_text_parses_back, lemma_nat_digits_read_back, parse_i32_in,
    parsed_i32, push_i64, starts_with,
};

verus! {

/// The decision a moderator takes on a pending transaction.
#[derive(Debug, Clone, Copy, PartialEq, Eq, Structural)]
pub enum Verdict {
    Approve,
    Decline,
}

impl Verdict {
    /// The word for the decision inside ids and dialog titles.
    pub open spec fn word(self) -> Seq<char> {
        match self {
            Verdict::Approve => "approve"@,
            Verdict::Decline => "decline"@,
        }
    }

    /// The status that the decision gives a transaction.
    pub open spec fn spec_status(self) -> TxStatus {
        match self {
            Verdict::Approve => TxStatus::Approved,
            Verdict::Decline => TxStatus::Cancelled,
        }
    }

    /// The status that the decision gives a transaction.
    pub fn status(self) -> (s: TxStatus)
        ensures
            s == self.spec_status(),
    {
        match self {
            Verdict::Approve => TxStatus::Approved,
            Verdict::Decline => TxStatus::Cancelled,
        }
    }

    fn word_str(self) -> (w: &'static str)
        ensures
            w@ == self.word(),
    {
        match self {
            Verdict::Approve => "approve",
            Verdict::Decline => "decline",
        }
    }
}

/// The id of a button: `approve_<id>` or `decline_<id>`.
pub open spec fn button_text(v: Verdict, tx_id: i32) -> Seq<char> {
    v.word() + "_"@ + int_text(tx_id as int)
}

/// The id of the reason dialog: `modal_approve_<id>` or `modal_decline_<id>`.
pub open spec fn modal_text(v: Verdict, tx_id: i32) -> Seq<char> {
    "modal_"@ + v.word() + "_"@ + int_text(tx_id as int)
}

/// The title of the reason dialog: `approve Transaction #<id>`.
pub open spec fn modal_title_text(v: Verdict, tx_id: i32) -> Seq<char> {
    v.word() + " Transaction #"@ + int_text(tx_id as int)
}

/// The number a text parses to, or 0 when it does not parse.
pub open spec fn id_or_zero(t: Seq<char>) -> i32 {
    match parsed_i32(t) {
        Some(v) => v,
        None => 0,
    }
}

/// What a pressed button asks for: the decision and the transaction, when the id is a button id
/// whose number (the text after the first `_`, up to the next one) is positive.
pub open spec fn button_press(s: Seq<char>) -> Option<(Verdict, i32)> {
    if has_prefix(s, "approve_"@) || has_prefix(s, "decline_"@) {
        let id = id_or_zero(first_field(s.skip(8)));
        let v = if has_prefix(s, "approve_"@) { Verdict::Approve } else { Verdict::Decline };
        if id > 0 { Some((v, id)) } else { None }
    } else {
        None
    }
}

/// What a submitted dialog asks for: the decision and the transaction, when the id is a dialog id
/// whose number (the third `_`-separated field) is positive.
pub open spec fn modal_submission(s: Seq<char>) -> Option<(Verdict, i32)> {
    if has_prefix(s, "modal_approve_"@) || has_prefix(s, "modal_decline_"@) {
        let id = id_or_zero(first_field(s.skip(14)));
        let v = if has_prefix(s, "modal_approve_"@) { Verdict::Approve } else { Verdict::Decline };
        if id > 0 { Some((v, id)) } else { None }
    } else {
        None
    }
}

/// The id of the button that takes `v` on transaction `tx_id`.
pub fn button_id(v: Verdict, tx_id: i32) -> (s: String)
    ensures
        s@ == button_text(v, tx_id),
{
    let mut s = String::from_str(v.word_str());
    s.append("_");
    push_i64(&mut s, tx_id as i64);
    s
}

/// The id of the reason dialog for `v` on transaction `tx_id`.
pub fn modal_id(v: Verdict, tx_id: i32) -> (s: String)
    ensures
        s@ == modal_text(v, tx_id),
{
    let mut s = String::from_str("modal_");
    s.append(v.word_str());
    s.append("_");
    push_i64(&mut s, tx_id as i64);
    s
}

/// The title of the reason dialog for `v` on transaction `tx_id`.
pub fn modal_title(v: Verdict, tx_id: i32) -> (s: String)
    ensures
        s@ == modal_title_text(v, tx_id),
{
    let mut s = String::from_str(v.word_str());
    s.append(" Transaction #");
    push_i64(&mut s, tx_id as i64);
    s
}

/// Reads the number in the field of `cs` that starts at `start`, or 0.
fn field_number(cs: &Vec<char>, start: usize) -> (n: i32)
    requires
        start <= cs.len(),
    ensures
        n == id_or_zero(first_field(cs@.skip(start as int))),
{
    let end = find_field_end(cs, start);
    proof {
        let t = cs@.skip(start as int);
        assert(t =~= cs@.subrange(start as int, cs.len() as int));
        assert(first_field(t) =~= cs@.subrange(start as int, end as int));
    }
    match parse_i32_in(cs, start, end) {
        Some(v) => v,
        None => 0,
    }
}

/// The decision and transaction that a pressed button asks for, if its id is one of ours.
pub fn parse_button_id(custom_id: &str) -> (r: Option<(Verdict, i32)>)
    ensures
        r == button_press(custom_id@),
{
    let cs = chars_of(custom_id);
    let approve = starts_with(&cs, "approve_");
    let decline = starts_with(&cs, "decline_");
    if !approve && !decline {
        return None;
    }
    proof {
        reveal_strlit("approve_");
        reveal_strlit("decline_");
    }
    let id = field_number(&cs, 8);
    if id <= 0 {
        return None;
    }
    let v = if approve { Verdict::Approve } else { Verdict::Decline };
    Some((v, id))
}

/// The decision and transaction that a submitted reason dialog asks for, if its id is one of ours.
pub fn parse_modal_id(custom_id: &str) -> (r: Option<(Verdict, i32)>)
    ensures
        r == modal_submission(custom_id@),
{
    let cs = chars_of(custom_id);
    let approve = starts_with(&cs, "modal_approve_");
    let decline = starts_with(&cs, "modal_decline_");
    if !approve && !decline {
        return None;
    }
    proof {
        reveal_strlit("modal_approve_");
        reveal_strlit("modal_decline_");
    }
    let id = field_number(&cs, 14);
    if id <= 0 {
        return None;
    }
    let v = if approve { Verdict::Approve } else { Verdict::Decline };
    Some((v, id))
}

/// The dialog that a decision button opens: it asks for an optional reason in one short line.
#[derive(Debug, Clone)]
pub struct ReasonDialog {
    pub custom_id: String,
    pub title: String,
    pub input_id: String,
    pub label: String,
    pub placeholder: String,
    /// Whether the input is a single short line.
    pub short: bool,
    pub required: bool,
    pub max_length: u16,
}

/// `d` is the reason dialog for `v` on transaction `tx_id`.
pub open spec fn is_reason_dialog(d: ReasonDialog, v: Verdict, tx_id: i32) -> bool {
    &&& d.custom_id@ == modal_text(v, tx_id)
    &&& d.title@ == modal_title_text(v, tx_id)
    &&& d.input_id@ == "reason"@
    &&& d.label@ == "Reason (optional)"@
    &&& d.placeholder@ == "Optional reason..."@
    &&& d.short
    &&& !d.required
    &&& d.max_length == 200
}

/// The reason dialog for `v` on transaction `tx_id`.
pub fn reason_dialog(v: Verdict, tx_id: i32) -> (d: ReasonDialog)
    ensures
        is_reason_dialog(d, v, tx_id),
{
    ReasonDialog {
        custom_id: modal_id(v, tx_id),
        title: modal_title(v, tx_id),
        input_id: String::from_str("reason"),
        label: String::from_str("Reason (optional)"),
        placeholder: String::from_str("Optional reason..."),
        short: true,
        required: false,
        max_length: 200,
    }
}

/// The dialog that a pressed button opens, if its id is one of ours; otherwise nothing is
/// answered.
pub fn dialog_for_button(custom_id: &str) -> (r: Option<ReasonDialog>)
    ensures
        (match button_press(custom_id@) {
            None => r is None,
            Some((v, tx_id)) => r matches Some(d) && is_reason_dialog(d, v, tx_id),
        }),
{
    match parse_button_id(custom_id) {
        None => None,
        Some((v, tx_id)) => Some(reason_dialog(v, tx_id)),
    }
}

/// A pressed button is accepted only with a positive transaction id, and the decision it asks
/// for is the one its id begins with; an id that begins with neither decision is refused.
pub proof fn lemma_button_press_accepts_own_ids(s: Seq<char>)
    ensures
        (match button_press(s) {
            Some((v, tx_id)) => tx_id > 0 && has_prefix(s, v.word() + "_"@),
            None => true,
        }),
        !has_prefix(s, "approve_"@) && !has_prefix(s, "decline_"@) ==> button_press(s) is None,
{
    reveal_strlit("approve_");
    reveal_strlit("decline_");
    reveal_strlit("approve");
    reveal_strlit("decline");
    reveal_strlit("_");
    assert("approve"@ + "_"@ =~= "approve_"@);
    assert("decline"@ + "_"@ =~= "decline_"@);
}

/// A submitted dialog is accepted only with a positive transaction id, and the decision it asks
/// for is the one its id names after `modal_`; any other id is refused.
pub proof fn lemma_modal_submission_accepts_own_ids(s: Seq<char>)
    ensures
        (match modal_submission(s) {
            Some((v, tx_id)) => tx_id > 0 && has_prefix(s, "modal_"@ + v.word() + "_"@),
            None => true,
        }),
        !has_prefix(s, "modal_approve_"@) && !has_prefix(s, "modal_decline_"@)
            ==> modal_submission(s) is None,
{
    reveal_strlit("modal_approve_");
    reveal_strlit("modal_decline_");
    reveal_strlit("modal_");
    reveal_strlit("approve");
    reveal_strlit("decline");
    reveal_strlit("_");
    assert("modal_"@ + "approve"@ + "_"@ =~= "modal_approve_"@);
    assert("modal_"@ + "decline"@ + "_"@ =~= "modal_decline_"@);
}

proof fn lemma_digits_are_one_field(t: Seq<char>)
    requires
        all_digits(t),
    ensures
        first_field(t) == t,
{
    assert forall|i: int| !is_first_separator(t, i) by {
        if 0 <= i < t.len() {
            assert(is_digit(t[i]));
        }
    }
    assert(t.take(t.len() as int) =~= t);
}

proof fn lemma_positive_text_reads_back(tx_id: i32)
    requires
        tx_id > 0,
    ensures
        all_digits(int_text(tx_id as int)),
        id_or_zero(first_field(int_text(tx_id as int))) == tx_id,
{
    lemma_nat_digits_read_back(tx_id as nat);
    lemma_digits_are_one_field(int_text(tx_id as int));
    lemma_i32_text_parses_back(tx_id);
}

/// Pressing the button made for a decision on a transaction asks for that decision on that
/// transaction.
pub proof fn lemma_button_id_round_trip(v: Verdict, tx_id: i32)
    requires
        tx_id > 0,
    ensures
        button_press(button_text(v, tx_id)) == Some((v, tx_id)),
{
    reveal_strlit("approve_");
    reveal_strlit("decline_");
    reveal_strlit("approve");
    reveal_strlit("decline");
    reveal_strlit("_");
    let s = button_text(v, tx_id);
    lemma_positive_text_reads_back(tx_id);
    assert(s.skip(8) =~= int_text(tx_id as int));
    match v {
        Verdict::Approve => {
            assert(s.take(8) =~= "approve_"@);
        },
        Verdict::Decline => {
            assert(s.take(8) =~= "decline_"@);
            assert(s.take(8) != "approve_"@) by {
                assert(s.take(8)[0] != "approve_"@[0]);
            }
        },
    }
}

/// Submitting the dialog made for a decision on a transaction asks for that decision on that
/// transaction.
pub proof fn lemma_modal_id_round_trip(v: Verdict, tx_id: i32)
    requires
        tx_id > 0,
    ensures
        modal_submission(modal_text(v, tx_id)) == Some((v, tx_id)),
{
    reveal_strlit("modal_approve_");
    reveal_strlit("modal_decline_");
    reveal_strlit("modal_");
    reveal_strlit("approve");
    reveal_strlit("decline");
    reveal_strlit("_");
    let s = modal_text(v, tx_id);
    lemma_positive_text_reads_back(tx_id);
    assert(s.skip(14) =~= int_text(tx_id as int));
    match v {
        Verdict::Approve => {
            assert(s.take(14) =~= "modal_approve_"@);
        },
        Verdict::Decline => {
            assert(s.take(14) =~= "modal_decline_"@);
            assert(s.take(14) != "modal_approve_"@) by {
                assert(s.take(14)[6] != "modal_approve_"@[6]);
            }
        },
    }
}

} // verus!
