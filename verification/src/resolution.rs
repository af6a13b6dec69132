//! Settling a pending transaction: which transactions may be resolved, what the character
//! receives, what an online player is told and what is written back.
use vstd::prelude::*;

use crate::status::{status_debug_string, status_debug_text, TxStatus};
use crate::text::{int_text, push_i64};

verus! {

/// A transaction as it is read for resolution, each missing column replaced by its default
/// (0, or the empty name).
#[derive(Debug, Clone)]
pub struct TxRecord {
    pub character_id: i32,
    pub status_id: i32,
    pub action_id: i32,
    pub amount: i32,
    pub character_name: String,
}

impl TxRecord {
    /// Builds the record from the columns of the row, applying the defaults.
    pub fn from_columns(
        character_id: Option<i32>,
        status_id: Option<i32>,
        action_id: Option<i32>,
        amount: Option<i32>,
        character_name: Option<String>,
    ) -> (r: TxRecord)
        ensures
            r.character_id == (match character_id { Some(v) => v, None => 0i32 }),
            r.status_id == (match status_id { Some(v) => v, None => 0i32 }),
            r.action_id == (match action_id { Some(v) => v, None => 0i32 }),
            r.amount == (match amount { Some(v) => v, None => 0i32 }),
            r.character_name@ == (match character_name { Some(s) => s@, None => Seq::<char>::empty() }),
    {
        TxRecord {
            character_id: match character_id { Some(v) => v, None => 0 },
            status_id: match status_id { Some(v) => v, None => 0 },
            action_id: match action_id { Some(v) => v, None => 0 },
            amount: match amount { Some(v) => v, None => 0 },
            character_name: match character_name { Some(s) => s, None => String::new() },
        }
    }
}

/// Why a transaction cannot be resolved.
#[derive(Debug, Clone, Copy, PartialEq, Eq, Structural)]
pub enum ResolveError {
    /// No transaction has this id.
    NotFound { tx_id: i32 },
    /// The transaction was already resolved.
    NotPending { tx_id: i32, status: TxStatus },
    /// The transaction names no character or a non-positive amount.
    InvalidData { tx_id: i32 },
    /// The item that stands for Alduin is not configured.
    ItemNotConfigured,
}

impl ResolveError {
    /// The message reported for the error.
    pub open spec fn text(self) -> Seq<char> {
        match self {
            ResolveError::NotFound { tx_id } => "Transaction "@ + int_text(tx_id as int)
                + " not found"@,
            ResolveError::NotPending { tx_id, status } => "Transaction "@ + int_text(tx_id as int)
                + " is not pending (status: "@ + status_debug_text(status) + ")"@,
            ResolveError::InvalidData { tx_id } => "Invalid transaction data for tx "@ + int_text(
                tx_id as int,
            ),
            ResolveError::ItemNotConfigured => "alduin_item_id is not configured"@,
        }
    }

    /// The message reported for the error.
    pub fn message(&self) -> (m: String)
        ensures
            m@ == self.text(),
    {
        match self {
            ResolveError::NotFound { tx_id } => {
                let mut m = String::from_str("Transaction ");
                push_i64(&mut m, *tx_id as i64);
                m.append(" not found");
                m
            },
            ResolveError::NotPending { tx_id, status } => {
                let mut m = String::from_str("Transaction ");
                push_i64(&mut m, *tx_id as i64);
                m.append(" is not pending (status: ");
                let st = status_debug_string(*status);
                m.append(st.as_str());
                m.append(")");
                m
            },
            ResolveError::InvalidData { tx_id } => {
                let mut m = String::from_str("Invalid transaction data for tx ");
                push_i64(&mut m, *tx_id as i64);
                m
            },
            ResolveError::ItemNotConfigured => String::from_str("alduin_item_id is not configured"),
        }
    }
}

/// The outcome of checking a transaction before it is resolved, in the order the checks run.
pub open spec fn check_outcome(tx_id: i32, record: Option<TxRecord>, alduin_item_id: i32) -> Result<
    TxRecord,
    ResolveError,
> {
    match record {
        None => Err(ResolveError::NotFound { tx_id }),
        Some(r) => if TxStatus::spec_of_id(r.status_id) != TxStatus::Pending {
            Err(ResolveError::NotPending { tx_id, status: TxStatus::spec_of_id(r.status_id) })
        } else if r.character_id == 0 || r.amount <= 0 {
            Err(ResolveError::InvalidData { tx_id })
        } else if alduin_item_id <= 0 {
            Err(ResolveError::ItemNotConfigured)
        } else {
            Ok(r)
        },
    }
}

/// Checks that transaction `tx_id`, read as `record`, may be resolved: it exists, is still
/// pending, names a character and a positive amount, and the Alduin item is configured.
pub fn check_transaction(tx_id: i32, record: Option<TxRecord>, alduin_item_id: i32) -> (r: Result<
    TxRecord,
    ResolveError,
>)
    ensures
        r == check_outcome(tx_id, record, alduin_item_id),
        r is Ok ==> TxStatus::spec_of_id(r->Ok_0.status_id) == TxStatus::Pending
            && r->Ok_0.amount > 0,
{
    match record {
        None => Err(ResolveError::NotFound { tx_id }),
        Some(r) => {
            let status = TxStatus::from(r.status_id);
            if status != TxStatus::Pending {
                Err(ResolveError::NotPending { tx_id, status })
            } else if r.character_id == 0 || r.amount <= 0 {
                Err(ResolveError::InvalidData { tx_id })
            } else if alduin_item_id <= 0 {
                Err(ResolveError::ItemNotConfigured)
            } else {
                Ok(r)
            }
        },
    }
}

/// A transaction is accepted for resolution exactly when it exists, its stored status is
/// pending (id 0), it names a character, its amount is positive and the Alduin item is
/// configured; it is then accepted unchanged. A refusal names the first check that failed, in
/// that order.
pub proof fn lemma_check_accepts_exactly(tx_id: i32, record: Option<TxRecord>, alduin_item_id: i32)
    ensures
        ({
            let r = check_outcome(tx_id, record, alduin_item_id);
            &&& (r is Ok) == (record matches Some(t) && t.status_id == 0 && t.character_id != 0
                && t.amount > 0 && alduin_item_id > 0)
            &&& r matches Ok(t) ==> record == Some(t)
            &&& match record {
                None => r == Err::<TxRecord, ResolveError>(ResolveError::NotFound { tx_id }),
                Some(t) => {
                    &&& t.status_id != 0 ==> r == Err::<TxRecord, ResolveError>(
                        ResolveError::NotPending { tx_id, status: TxStatus::spec_of_id(t.status_id) },
                    )
                    &&& t.status_id == 0 && (t.character_id == 0 || t.amount <= 0) ==> r == Err::<
                        TxRecord,
                        ResolveError,
                    >(ResolveError::InvalidData { tx_id })
                    &&& t.status_id == 0 && t.character_id != 0 && t.amount > 0 && alduin_item_id
                        <= 0 ==> r == Err::<TxRecord, ResolveError>(ResolveError::ItemNotConfigured)
                },
            }
        }),
{
}

/// Whether resolving hands Alduin to the character: an approved deposit, or a cancelled
/// withdrawal whose amount goes back.
pub open spec fn gives_items(action_id: i32, new_status: TxStatus) -> bool {
    (action_id == 0 && new_status == TxStatus::Approved) || (action_id == 1 && new_status
        == TxStatus::Cancelled)
}

/// Whether resolving with `new_status` hands Alduin to the character.
pub fn should_give_items(action_id: i32, new_status: TxStatus) -> (b: bool)
    ensures
        b == gives_items(action_id, new_status),
{
    (action_id == 0 && new_status == TxStatus::Approved) || (action_id == 1 && new_status
        == TxStatus::Cancelled)
}

/// What an online player is told about their Alduin.
#[derive(Debug, Clone, Copy, PartialEq, Eq, Structural)]
pub struct AlduinNotify {
    pub transaction_id: i32,
    pub status: TxStatus,
    pub transaction_amount: i32,
    pub total_alduin: i32,
}

/// The effects of resolving a checked transaction.
#[derive(Debug, Clone, Copy, PartialEq, Eq, Structural)]
pub struct Settlement {
    /// The Alduin handed to the character, if any.
    pub grant: Option<i32>,
    /// The notice sent to the character's player, if they are online.
    pub notify: Option<AlduinNotify>,
    /// The status id written to the transaction.
    pub status_id: i32,
    /// Whether the transaction is marked as notified.
    pub mark_notified: bool,
}

/// How much of `amount` fits under the item cap `max_item` next to `current`.
pub open spec fn capped_amount(max_item: int, current: int, amount: int) -> int {
    if max_item - current < amount {
        max_item - current
    } else {
        amount
    }
}

/// Whether the arithmetic of a settlement stays within `i32`.
pub open spec fn settlement_fits(
    amount: i32,
    gives: bool,
    was_online: bool,
    current: i32,
    max_item: i32,
) -> bool {
    &&& gives ==> i32::MIN <= max_item - current <= i32::MAX
    &&& gives && was_online ==> i32::MIN <= current + amount <= i32::MAX
}

/// The settlement of a checked transaction.
pub open spec fn settlement_of(
    tx_id: i32,
    action_id: i32,
    amount: i32,
    new_status: TxStatus,
    was_online: bool,
    current: i32,
    max_item: i32,
) -> Settlement {
    let gives = gives_items(action_id, new_status);
    let capped = capped_amount(max_item as int, current as int, amount as int);
    Settlement {
        grant: if gives && capped > 0 { Some(capped as i32) } else { None },
        notify: if was_online {
            Some(
                AlduinNotify {
                    transaction_id: tx_id,
                    status: new_status,
                    transaction_amount: amount,
                    total_alduin: if gives { (current + amount) as i32 } else { current },
                },
            )
        } else {
            None
        },
        status_id: new_status.spec_id(),
        mark_notified: was_online,
    }
}

/// Plans the resolution of checked transaction `tx_id` to `new_status`.
///
/// `current` is the character's Alduin before resolution (read from the online character, or
/// from the stored character when offline and items are given); `max_item` is the item cap.
/// Items are capped so that the character does not exceed `max_item`; an online player is told
/// the transaction amount added to their previous balance.
pub fn plan_settlement(
    tx_id: i32,
    record: &TxRecord,
    new_status: TxStatus,
    was_online: bool,
    current: i32,
    max_item: i32,
) -> (s: Settlement)
    requires
        settlement_fits(
            record.amount,
            gives_items(record.action_id, new_status),
            was_online,
            current,
            max_item,
        ),
    ensures
        s == settlement_of(
            tx_id,
            record.action_id,
            record.amount,
            new_status,
            was_online,
            current,
            max_item,
        ),
{
    let gives = should_give_items(record.action_id, new_status);
    let amount = record.amount;
    let grant = if gives {
        let room = max_item - current;
        let capped = if room < amount { room } else { amount };
        if capped > 0 { Some(capped) } else { None }
    } else {
        None
    };
    let notify = if was_online {
        let total = if gives { current + amount } else { current };
        Some(
            AlduinNotify {
                transaction_id: tx_id,
                status: new_status,
                transaction_amount: amount,
                total_alduin: total,
            },
        )
    } else {
        None
    };
    Settlement { grant, notify, status_id: i32::from(new_status), mark_notified: was_online }
}

/// What resolving a transaction did, as it is reported back.
#[derive(Debug, Clone)]
pub struct ResolutionResult {
    pub tx_id: i32,
    pub character_id: i32,
    pub character_name: String,
    pub action: i32,
    pub amount: i32,
    pub old_status: TxStatus,
    pub new_status: TxStatus,
    pub was_online: bool,
    pub items_modified: bool,
}

/// The report of resolving transaction `tx_id`, read as `record`, to `new_status`.
pub fn resolution_result(tx_id: i32, record: TxRecord, new_status: TxStatus, was_online: bool) -> (r:
    ResolutionResult)
    ensures
        r.tx_id == tx_id,
        r.character_id == record.character_id,
        r.character_name == record.character_name,
        r.action == record.action_id,
        r.amount == record.amount,
        r.old_status == TxStatus::spec_of_id(record.status_id),
        r.new_status == new_status,
        r.was_online == was_online,
        r.items_modified == gives_items(record.action_id, new_status),
{
    let items_modified = should_give_items(record.action_id, new_status);
    ResolutionResult {
        tx_id,
        character_id: record.character_id,
        character_name: record.character_name,
        action: record.action_id,
        amount: record.amount,
        old_status: TxStatus::from(record.status_id),
        new_status,
        was_online,
        items_modified,
    }
}

/// Alduin is handed over only for an approved deposit or a cancelled withdrawal, never more
/// than the transaction amount, and never so much that the character passes the item cap.
pub proof fn lemma_grant_within_amount_and_cap(
    tx_id: i32,
    action_id: i32,
    amount: i32,
    new_status: TxStatus,
    was_online: bool,
    current: i32,
    max_item: i32,
)
    ensures
        ({
            let s = settlement_of(tx_id, action_id, amount, new_status, was_online, current, max_item);
            &&& s.grant is Some ==> gives_items(action_id, new_status)
            &&& s.grant matches Some(g) ==> 0 < g <= amount && current + g <= max_item
            &&& gives_items(action_id, new_status) && current + amount <= max_item && amount > 0
                ==> s.grant == Some(amount)
        }),
{
}

/// What resolving hands over and what the player is told, stated directly: an approved deposit
/// or a cancelled withdrawal (and nothing else) hands over the amount, or the room left under
/// the item cap when the amount would pass it, and nothing when that is not positive; an online
/// player is told the transaction, its new status, its amount, and their previous total plus the
/// amount when items are handed over, or their previous total otherwise.
pub proof fn lemma_settlement_hands_over_and_reports(
    tx_id: i32,
    action_id: i32,
    amount: i32,
    new_status: TxStatus,
    was_online: bool,
    current: i32,
    max_item: i32,
)
    requires
        settlement_fits(
            amount,
            (action_id == 0 && new_status == TxStatus::Approved) || (action_id == 1 && new_status
                == TxStatus::Cancelled),
            was_online,
            current,
            max_item,
        ),
    ensures
        ({
            let s = settlement_of(tx_id, action_id, amount, new_status, was_online, current, max_item);
            let owed = (action_id == 0 && new_status == TxStatus::Approved) || (action_id == 1
                && new_status == TxStatus::Cancelled);
            let room = max_item - current;
            let handed = if amount <= room { amount as int } else { room };
            &&& !owed ==> s.grant is None
            &&& owed && handed > 0 ==> s.grant == Some(handed as i32)
            &&& owed && handed <= 0 ==> s.grant is None
            &&& (s.notify is Some) == was_online
            &&& s.mark_notified == was_online
            &&& s.status_id == (match new_status {
                TxStatus::Pending => 0,
                TxStatus::Approved => 1,
                TxStatus::Cancelled => 2,
                TxStatus::Unrecognized(v) => v,
            })
            &&& s.notify matches Some(n) ==> {
                &&& n.transaction_id == tx_id
                &&& n.status == new_status
                &&& n.transaction_amount == amount
                &&& owed ==> n.total_alduin == current + amount
                &&& !owed ==> n.total_alduin == current
            }
        }),
{
}

/// The player is told about a resolution exactly when they are online, and then the
/// transaction is marked as notified.
pub proof fn lemma_notified_iff_online(
    tx_id: i32,
    action_id: i32,
    amount: i32,
    new_status: TxStatus,
    was_online: bool,
    current: i32,
    max_item: i32,
)
    ensures
        ({
            let s = settlement_of(tx_id, action_id, amount, new_status, was_online, current, max_item);
            &&& (s.notify is Some) == was_online
            &&& s.mark_notified == was_online
            &&& s.notify matches Some(n) ==> n.transaction_id == tx_id && n.status == new_status
                && n.transaction_amount == amount
        }),
{
}

/// A transaction cannot be resolved a second time: once its new status is stored, checking it
/// again refuses it as not pending, for every new status whose stored id is not that of
/// pending (an approval or a cancellation in particular).
pub proof fn lemma_resolved_transaction_is_refused(
    tx_id: i32,
    record: TxRecord,
    new_status: TxStatus,
    was_online: bool,
    current: i32,
    max_item: i32,
    alduin_item_id: i32,
)
    requires
        new_status.spec_id() != 0,
    ensures
        ({
            let s = settlement_of(
                tx_id,
                record.action_id,
                record.amount,
                new_status,
                was_online,
                current,
                max_item,
            );
            let stored = TxRecord { status_id: s.status_id, ..record };
            check_outcome(tx_id, Some(stored), alduin_item_id) == Err::<TxRecord, ResolveError>(
                ResolveError::NotPending { tx_id, status: TxStatus::spec_of_id(new_status.spec_id()) },
            )
        }),
        new_status == TxStatus::Approved || new_status == TxStatus::Cancelled
            ==> TxStatus::spec_of_id(new_status.spec_id()) == new_status,
{
}

} // verus!
