//! Transaction statuses and actions, their numeric ids and the words shown for them.
use vstd::prelude::*;

use crate::text::{int_text, push_i64, same_text};

verus! {

/// The state of a transaction, stored as a numeric id: 0 pending, 1 approved, 2 cancelled.
/// Any other id is kept as it was read.
#[derive(Debug, Clone, Copy, PartialEq, Eq, Structural)]
pub enum TxStatus {
    Pending,
    Approved,
    Cancelled,
    Unrecognized(i32),
}

/// The direction of a transaction, stored as a numeric id: 0 deposit, 1 withdraw.
#[derive(Debug, Clone, Copy, PartialEq, Eq, Structural)]
pub enum TxAction {
    Deposit,
    Withdraw,
    Unrecognized(i32),
}

impl TxStatus {
    /// The status that a stored id stands for.
    pub open spec fn spec_of_id(id: i32) -> TxStatus {
        if id == 0 {
            TxStatus::Pending
        } else if id == 1 {
            TxStatus::Approved
        } else if id == 2 {
            TxStatus::Cancelled
        } else {
            TxStatus::Unrecognized(id)
        }
    }

    /// The id that is stored for a status.
    pub open spec fn spec_id(self) -> i32 {
        match self {
            TxStatus::Pending => 0,
            TxStatus::Approved => 1,
            TxStatus::Cancelled => 2,
            TxStatus::Unrecognized(v) => v,
        }
    }
}

impl From<i32> for TxStatus {
    fn from(id: i32) -> (s: TxStatus) {
        if id == 0 {
            TxStatus::Pending
        } else if id == 1 {
            TxStatus::Approved
        } else if id == 2 {
            TxStatus::Cancelled
        } else {
            TxStatus::Unrecognized(id)
        }
    }
}

impl vstd::std_specs::convert::FromSpecImpl<i32> for TxStatus {
    open spec fn obeys_from_spec() -> bool {
        true
    }

    open spec fn from_spec(id: i32) -> TxStatus {
        TxStatus::spec_of_id(id)
    }
}

impl From<TxStatus> for i32 {
    fn from(s: TxStatus) -> (id: i32) {
        match s {
            TxStatus::Pending => 0,
            TxStatus::Approved => 1,
            TxStatus::Cancelled => 2,
            TxStatus::Unrecognized(v) => v,
        }
    }
}

impl vstd::std_specs::convert::FromSpecImpl<TxStatus> for i32 {
    open spec fn obeys_from_spec() -> bool {
        true
    }

    open spec fn from_spec(s: TxStatus) -> i32 {
        s.spec_id()
    }
}

impl TxAction {
    /// The action that a stored id stands for.
    pub open spec fn spec_of_id(id: i32) -> TxAction {
        if id == 0 {
            TxAction::Deposit
        } else if id == 1 {
            TxAction::Withdraw
        } else {
            TxAction::Unrecognized(id)
        }
    }
}

impl From<i32> for TxAction {
    fn from(id: i32) -> (a: TxAction) {
        if id == 0 {
            TxAction::Deposit
        } else if id == 1 {
            TxAction::Withdraw
        } else {
            TxAction::Unrecognized(id)
        }
    }
}

impl vstd::std_specs::convert::FromSpecImpl<i32> for TxAction {
    open spec fn obeys_from_spec() -> bool {
        true
    }

    open spec fn from_spec(id: i32) -> TxAction {
        TxAction::spec_of_id(id)
    }
}

/// Reading a stored status id and storing the status again gives the same id back.
pub proof fn lemma_status_id_round_trip(id: i32)
    ensures
        TxStatus::spec_of_id(id).spec_id() == id,
{
}

/// A status that is not an unrecognized copy of a known id survives being stored and read back.
pub proof fn lemma_status_survives_storage(s: TxStatus)
    requires
        !(s matches TxStatus::Unrecognized(v) && 0 <= v <= 2),
    ensures
        TxStatus::spec_of_id(s.spec_id()) == s,
{
}

/// The word shown for a stored status id.
pub open spec fn status_word(status_id: i32) -> Seq<char> {
    if status_id == 0 {
        "Pending"@
    } else if status_id == 1 {
        "Approved"@
    } else if status_id == 2 {
        "Cancelled"@
    } else {
        "Unknown"@
    }
}

/// The word shown for a stored action id: 0 is a deposit, anything else a withdrawal.
pub open spec fn action_word(action_id: i32) -> Seq<char> {
    if action_id == 0 {
        "Deposit"@
    } else {
        "Withdraw"@
    }
}

/// The word shown for a stored status id.
pub fn format_tx_status(status_id: i32) -> (r: &'static str)
    ensures
        r@ == status_word(status_id),
{
    if status_id == 0 {
        "Pending"
    } else if status_id == 1 {
        "Approved"
    } else if status_id == 2 {
        "Cancelled"
    } else {
        "Unknown"
    }
}

/// The word shown for a stored action id.
pub fn format_action(action_id: i32) -> (r: &'static str)
    ensures
        r@ == action_word(action_id),
{
    if action_id == 0 {
        "Deposit"
    } else {
        "Withdraw"
    }
}

/// How a status is written by its `Debug` form, as error messages show it.
pub open spec fn status_debug_text(s: TxStatus) -> Seq<char> {
    match s {
        TxStatus::Pending => "Pending"@,
        TxStatus::Approved => "Approved"@,
        TxStatus::Cancelled => "Cancelled"@,
        TxStatus::Unrecognized(v) => "Unrecognized("@ + int_text(v as int) + ")"@,
    }
}

/// The `Debug` text of a status.
pub fn status_debug_string(s: TxStatus) -> (r: String)
    ensures
        r@ == status_debug_text(s),
{
    match s {
        TxStatus::Pending => String::from_str("Pending"),
        TxStatus::Approved => String::from_str("Approved"),
        TxStatus::Cancelled => String::from_str("Cancelled"),
        TxStatus::Unrecognized(v) => {
            let mut r = String::from_str("Unrecognized(");
            push_i64(&mut r, v as i64);
            r.append(")");
            r
        },
    }
}

/// The status id that a `status` filter word selects: unknown words select pending.
pub open spec fn filter_status_id(word: Seq<char>) -> i32 {
    if word == "pending"@ {
        0
    } else if word == "approved"@ {
        1
    } else if word == "cancelled"@ {
        2
    } else {
        0
    }
}

/// The status id that a `status` filter word selects.
pub fn status_filter_id(word: &str) -> (id: i32)
    ensures
        id == filter_status_id(word@),
{
    if same_text(word, "pending") {
        0
    } else if same_text(word, "approved") {
        1
    } else if same_text(word, "cancelled") {
        2
    } else {
        0
    }
}

} // verus!
