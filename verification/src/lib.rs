//! Alduin: the rules behind a game server's Alduin deposits and withdrawals, and behind the
//! Discord moderation of them.
//!
//! - `resolution` decides whether a pending transaction may be approved or cancelled and what
//!   resolving it hands the character, tells the player and stores;
//! - `adhoc` settles the deposits and withdrawals that moderators make by hand;
//! - `paging` computes the in-game wallet page and the leaderboard;
//! - `ids`, `commands`, `moderation`, `listing`, `embed` and `discord` shape what the bot reads
//!   from moderators and what it posts and answers;
//! - `webhook` composes the messages that announce players' requests;
//! - `status` and `text` hold the stored ids and the decimal text all of these share.
use vstd::prelude::*;

pub mod adhoc;
pub mod commands;
pub mod discord;
pub mod embed;
pub mod ids;
pub mod listing;
pub mod moderation;
pub mod paging;
pub mod resolution;
pub mod status;
pub mod text;
pub mod webhook;

verus! {
}
