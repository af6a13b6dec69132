//! Ad-hoc adjustments by a moderator: giving Alduin to a character or taking it away.
use vstd::prelude::*;

use crate::resolution::{capped_amount, AlduinNotify};
use crate::status::TxStatus;
use crate::text::{int_text, push_i64};

verus! {

/// The direction of an ad-hoc adjustment.
#[derive(Debug, Clone, Copy, PartialEq, Eq, Structural)]
pub enum Adjustment {
    /// An ad-hoc deposit: Alduin is given to the character.
    Give,
    /// An ad-hoc withdrawal: Alduin is taken from the character.
    Take,
}

impl Adjustment {
    /// The action id of the transactions that the adjustment records and cancels.
    pub open spec fn spec_action_id(self) -> i32 {
        match self {
            Adjustment::Give => 0,
            Adjustment::Take => 1,
        }
    }

    /// The action id of the transactions that the adjustment records and cancels.
    pub fn action_id(self) -> (id: i32)
        ensures
            id == self.spec_action_id(),
    {
        match self {
            Adjustment::Give => 0,
            Adjustment::Take => 1,
        }
    }
}

/// Why an ad-hoc adjustment is refused.
#[derive(Debug, Clone, Copy, PartialEq, Eq, Structural)]
pub enum AdhocError {
    /// The name is empty or the amount is not positive.
    InvalidInput,
    /// No character has the name.
    NameNotFound,
    /// The character's id is not positive.
    CharacterNotFound,
    /// The item that stands for Alduin is not configured.
    ItemNotConfigured,
}

impl AdhocError {
    /// The reply for the error, for a request about character `name`.
    pub open spec fn text(self, name: Seq<char>) -> Seq<char> {
        match self {
            AdhocError::InvalidInput => "Invalid name or amount."@,
            AdhocError::NameNotFound => "Character '"@ + name + "' not found."@,
            AdhocError::CharacterNotFound => "Character not found."@,
            AdhocError::ItemNotConfigured => "Alduin item ID not configured."@,
        }
    }

    /// The reply for the error, for a request about character `name`.
    pub fn message(self, name: &str) -> (m: String)
        ensures
            m@ == self.text(name@),
    {
        match self {
            AdhocError::InvalidInput => String::from_str("Invalid name or amount."),
            AdhocError::NameNotFound => {
                let mut m = String::from_str("Character '");
                m.append(name);
                m.append("' not found.");
                m
            },
            AdhocError::CharacterNotFound => String::from_str("Character not found."),
            AdhocError::ItemNotConfigured => String::from_str("Alduin item ID not configured."),
        }
    }
}

/// Whether a request names a character and a positive amount.
pub fn request_is_valid(name: &str, amount: i32) -> (b: bool)
    ensures
        b == (name@.len() > 0 && amount > 0),
{
    !name.is_empty() && amount > 0
}

/// The outcome of looking up the character of an adjustment.
pub open spec fn target_outcome(lookup: Option<i32>, alduin_item_id: i32) -> Result<i32, AdhocError> {
    match lookup {
        None => Err(AdhocError::NameNotFound),
        Some(id) => if id <= 0 {
            Err(AdhocError::CharacterNotFound)
        } else if alduin_item_id <= 0 {
            Err(AdhocError::ItemNotConfigured)
        } else {
            Ok(id)
        },
    }
}

/// Checks the character found for an adjustment (`None` when no character has the name, else
/// its id or 0) and the Alduin item; gives the character's id.
pub fn check_target(lookup: Option<i32>, alduin_item_id: i32) -> (r: Result<i32, AdhocError>)
    ensures
        r == target_outcome(lookup, alduin_item_id),
{
    match lookup {
        None => Err(AdhocError::NameNotFound),
        Some(id) => if id <= 0 {
            Err(AdhocError::CharacterNotFound)
        } else if alduin_item_id <= 0 {
            Err(AdhocError::ItemNotConfigured)
        } else {
            Ok(id)
        },
    }
}

/// What an adjustment does to the character.
#[derive(Debug, Clone, Copy, PartialEq, Eq, Structural)]
pub struct AdhocSettlement {
    /// The amount recorded as settled.
    pub settled: i32,
    /// The amount moved into or out of the character's items, if any.
    pub moved: Option<i32>,
    /// The notice for the character's player, when they are online.
    pub notify: Option<AlduinNotify>,
}

/// How much an ad-hoc withdrawal takes from `current`.
pub open spec fn taken_amount(current: int, amount: int) -> int {
    if amount < current {
        amount
    } else {
        current
    }
}

/// The settlement of an adjustment. `current` is the character's Alduin when the character
/// could be read (online, or from storage), `None` when it could not; `online` says which.
pub open spec fn adhoc_settlement_of(
    kind: Adjustment,
    amount: i32,
    current: Option<i32>,
    online: bool,
    max_item: i32,
) -> AdhocSettlement {
    match current {
        None => AdhocSettlement { settled: amount, moved: None, notify: None },
        Some(c) => {
            let settled = match kind {
                Adjustment::Give => capped_amount(max_item as int, c as int, amount as int),
                Adjustment::Take => taken_amount(c as int, amount as int),
            };
            let total = match kind {
                Adjustment::Give => c + settled,
                Adjustment::Take => if c - settled < 0 { 0 } else { c - settled },
            };
            AdhocSettlement {
                settled: settled as i32,
                moved: if settled > 0 { Some(settled as i32) } else { None },
                notify: if online {
                    Some(
                        AlduinNotify {
                            transaction_id: 0,
                            status: TxStatus::Approved,
                            transaction_amount: amount,
                            total_alduin: total as i32,
                        },
                    )
                } else {
                    None
                },
            }
        },
    }
}

/// Whether the arithmetic of an adjustment stays within `i32`.
pub open spec fn adhoc_fits(kind: Adjustment, current: Option<i32>, max_item: i32) -> bool {
    kind == Adjustment::Give && current is Some ==> i32::MIN <= max_item - current->0 <= i32::MAX
}

/// Plans an adjustment of `amount` Alduin: a deposit is capped so that the character stays
/// under `max_item`, a withdrawal takes no more than the character has.
pub fn settle_adjustment(
    kind: Adjustment,
    amount: i32,
    current: Option<i32>,
    online: bool,
    max_item: i32,
) -> (s: AdhocSettlement)
    requires
        amount > 0,
        adhoc_fits(kind, current, max_item),
    ensures
        s == adhoc_settlement_of(kind, amount, current, online, max_item),
{
    match current {
        None => AdhocSettlement { settled: amount, moved: None, notify: None },
        Some(c) => {
            let settled = match kind {
                Adjustment::Give => {
                    let room = max_item - c;
                    if room < amount { room } else { amount }
                },
                Adjustment::Take => if amount < c { amount } else { c },
            };
            let total = match kind {
                Adjustment::Give => c + settled,
                Adjustment::Take => {
                    let left = c - settled;
                    if left < 0 { 0 } else { left }
                },
            };
            let notify = if online {
                Some(
                    AlduinNotify {
                        transaction_id: 0,
                        status: TxStatus::Approved,
                        transaction_amount: amount,
                        total_alduin: total,
                    },
                )
            } else {
                None
            };
            AdhocSettlement {
                settled,
                moved: if settled > 0 { Some(settled) } else { None },
                notify,
            }
        },
    }
}

/// What an adjustment moves is exactly what it records as settled: a deposit moves the requested
/// amount or, when that would pass the item cap, the room left under it; a withdrawal moves the
/// requested amount or, when the character holds less, what it holds. Nothing moves when the
/// settled amount is not positive.
pub proof fn lemma_moved_is_settled(
    kind: Adjustment,
    amount: i32,
    current: i32,
    online: bool,
    max_item: i32,
)
    requires
        amount > 0,
        adhoc_fits(kind, Some(current), max_item),
    ensures
        ({
            let s = adhoc_settlement_of(kind, amount, Some(current), online, max_item);
            &&& s.settled > 0 ==> s.moved == Some(s.settled)
            &&& s.settled <= 0 ==> s.moved is None
            &&& s.settled <= amount
            &&& kind == Adjustment::Give ==> s.settled == (if current + amount <= max_item {
                amount as int
            } else {
                max_item - current
            })
            &&& kind == Adjustment::Give ==> current + s.settled == (if current + amount
                <= max_item {
                current + amount
            } else {
                max_item as int
            })
            &&& kind == Adjustment::Take ==> s.settled == (if amount <= current {
                amount
            } else {
                current
            })
            &&& kind == Adjustment::Take ==> s.settled <= current
        }),
{
}

/// An online player is told the requested amount and the total that the adjustment leaves them
/// with: the previous total plus what a deposit moved, or minus what a withdrawal moved (never
/// below zero). An offline character gets no notice.
pub proof fn lemma_adjustment_notice(
    kind: Adjustment,
    amount: i32,
    current: i32,
    online: bool,
    max_item: i32,
)
    requires
        amount > 0,
        adhoc_fits(kind, Some(current), max_item),
    ensures
        ({
            let s = adhoc_settlement_of(kind, amount, Some(current), online, max_item);
            &&& (s.notify is Some) == online
            &&& s.notify matches Some(n) ==> {
                &&& n.transaction_id == 0
                &&& n.status == TxStatus::Approved
                &&& n.transaction_amount == amount
                &&& kind == Adjustment::Give ==> n.total_alduin == current + s.settled
                &&& kind == Adjustment::Take ==> n.total_alduin == (if current - s.settled < 0 {
                    0
                } else {
                    current - s.settled
                })
            }
        }),
{
}

/// When the character could not be read, the adjustment records the full requested amount as
/// settled and moves nothing and tells no one.
pub proof fn lemma_unread_character_settles_request(
    kind: Adjustment,
    amount: i32,
    online: bool,
    max_item: i32,
)
    ensures
        ({
            let s = adhoc_settlement_of(kind, amount, None, online, max_item);
            s.settled == amount && s.moved is None && s.notify is None
        }),
{
}

/// The comment written on the pending transactions that an adjustment cancels.
pub open spec fn cancel_comment_text(kind: Adjustment, comment: Seq<char>) -> Seq<char> {
    match kind {
        Adjustment::Give => "Auto-cancelled for adhoc deposit: "@ + comment,
        Adjustment::Take => "Auto-cancelled for adhoc withdrawal: "@ + comment,
    }
}

/// The comment written on the pending transactions that an adjustment cancels.
pub fn cancel_comment(kind: Adjustment, comment: &str) -> (c: String)
    ensures
        c@ == cancel_comment_text(kind, comment@),
{
    let mut c = match kind {
        Adjustment::Give => String::from_str("Auto-cancelled for adhoc deposit: "),
        Adjustment::Take => String::from_str("Auto-cancelled for adhoc withdrawal: "),
    };
    c.append(comment);
    c
}

/// The reply once an adjustment is done.
pub open spec fn adhoc_reply_text(
    kind: Adjustment,
    amount: i32,
    name: Seq<char>,
    settled: i32,
    comment: Seq<char>,
) -> Seq<char> {
    match kind {
        Adjustment::Give => "Gave "@ + int_text(amount as int) + " Alduin to "@ + name
            + " (settled "@ + int_text(settled as int) + "). Comment: "@ + comment,
        Adjustment::Take => "Took "@ + int_text(amount as int) + " Alduin from "@ + name
            + " (settled "@ + int_text(settled as int) + "). Comment: "@ + comment,
    }
}

/// The reply once an adjustment is done.
pub fn adhoc_reply(kind: Adjustment, amount: i32, name: &str, settled: i32, comment: &str) -> (r:
    String)
    ensures
        r@ == adhoc_reply_text(kind, amount, name@, settled, comment@),
{
    let mut r = match kind {
        Adjustment::Give => String::from_str("Gave "),
        Adjustment::Take => String::from_str("Took "),
    };
    push_i64(&mut r, amount as i64);
    match kind {
        Adjustment::Give => r.append(" Alduin to "),
        Adjustment::Take => r.append(" Alduin from "),
    }
    r.append(name);
    r.append(" (settled ");
    push_i64(&mut r, settled as i64);
    r.append("). Comment: ");
    r.append(comment);
    r
}

/// A deposit moves at most the requested amount, and leaves the character at the requested
/// total or at the item cap, whichever is lower.
pub proof fn lemma_give_fills_up_to_cap(amount: i32, current: i32, online: bool, max_item: i32)
    requires
        amount > 0,
        adhoc_fits(Adjustment::Give, Some(current), max_item),
    ensures
        ({
            let s = adhoc_settlement_of(Adjustment::Give, amount, Some(current), online, max_item);
            &&& s.settled <= amount
            &&& current + s.settled == if current + amount <= max_item {
                current + amount
            } else {
                max_item as int
            }
        }),
{
}

/// A withdrawal takes at most the requested amount and never more than the character has.
pub proof fn lemma_take_never_overdraws(amount: i32, current: i32, online: bool, max_item: i32)
    requires
        amount > 0,
    ensures
        ({
            let s = adhoc_settlement_of(Adjustment::Take, amount, Some(current), online, max_item);
            &&& s.settled <= amount
            &&& s.settled <= current
            &&& current - s.settled >= 0
        }),
{
}

/// Taking back what a deposit gave, when the deposit was not capped, returns the character to
/// where it started.
pub proof fn lemma_take_undoes_give(amount: i32, current: i32, online: bool, max_item: i32)
    requires
        amount > 0,
        current >= 0,
        current + amount <= max_item,
    ensures
        ({
            let g = adhoc_settlement_of(Adjustment::Give, amount, Some(current), online, max_item);
            let t = adhoc_settlement_of(
                Adjustment::Take,
                amount,
                Some((current + g.settled) as i32),
                online,
                max_item,
            );
            &&& g.settled == amount
            &&& t.settled == amount
            &&& current + g.settled - t.settled == current
        }),
{
}

} // verus!
