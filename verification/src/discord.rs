//! The bot's queue of notices from the game and what it does with each.
use vstd::prelude::*;

use crate::embed::{
    cancelled_embed, field_texts, pending_buttons, pending_fields, pending_post, stamp_or_empty,
    Embed, PendingPost, DECLINED_COLOR, PENDING_COLOR,
};
use crate::text::{
    int_text, lemma_u64_text_parses_back, parse_u64, parsed_u64, push_nat,
};

verus! {

/// A notice from the game for the bot.
#[derive(Debug, Clone)]
pub enum DiscordCommand {
    /// A player asked for a deposit or withdrawal.
    NewTransaction {
        tx_id: i32,
        character_name: String,
        action: i32,
        amount: i32,
        wallet_address: String,
    },
    /// A player cancelled their own pending transaction.
    TransactionCancelled { tx_id: i32 },
}

/// Whether the bot runs: it must be enabled and have a token.
pub fn bot_enabled(enabled: bool, token: &str) -> (b: bool)
    ensures
        b == (enabled && token@.len() > 0),
{
    enabled && !token.is_empty()
}

/// Whether the slash commands are registered: only with a configured server.
pub fn registers_commands(guild_id: u64) -> (b: bool)
    ensures
        b == (guild_id != 0),
{
    guild_id != 0
}

/// Whether transactions are posted: only with a configured channel.
pub fn posts_transactions(channel_id: u64) -> (b: bool)
    ensures
        b == (channel_id != 0),
{
    channel_id != 0
}

/// What the bot does with a notice.
#[derive(Debug, Clone)]
pub enum BotAction {
    /// Nothing: no channel is configured.
    Skip,
    /// Post a pending transaction.
    Post { tx_id: i32, post: PendingPost },
    /// Look up the post of a transaction to mark it cancelled.
    FindPost { tx_id: i32 },
}

/// What the bot does with notice `cmd` for channel `channel_id`, at `now` seconds after the
/// Unix epoch.
pub fn on_notice(channel_id: u64, cmd: DiscordCommand, now: i64) -> (a: BotAction)
    ensures
        (match cmd {
            DiscordCommand::NewTransaction { tx_id, character_name, action, amount, wallet_address } => {
                if channel_id == 0 {
                    a matches BotAction::Skip
                } else {
                    a matches BotAction::Post { tx_id: t, post } && t == tx_id
                        && post.embed.title@ == "Pending Transaction #"@ + int_text(tx_id as int)
                        && post.embed.color == PENDING_COLOR && field_texts(post.embed.fields@)
                        == pending_fields(
                        character_name@,
                        action,
                        amount,
                        wallet_address@,
                        stamp_or_empty(now),
                    ) && pending_buttons(post, tx_id)
                }
            },
            DiscordCommand::TransactionCancelled { tx_id } => a matches BotAction::FindPost {
                tx_id: t,
            } && t == tx_id,
        }),
{
    match cmd {
        DiscordCommand::NewTransaction { tx_id, character_name, action, amount, wallet_address } => {
            if channel_id == 0 {
                BotAction::Skip
            } else {
                let post = pending_post(
                    tx_id,
                    character_name.as_str(),
                    action,
                    amount,
                    wallet_address.as_str(),
                    now,
                );
                BotAction::Post { tx_id, post }
            }
        },
        DiscordCommand::TransactionCancelled { tx_id } => BotAction::FindPost { tx_id },
    }
}

/// The text under which the id of a post is stored with its transaction.
pub fn message_id_text(message_id: u64) -> (s: String)
    ensures
        s@ == int_text(message_id as int),
{
    let mut s = String::new();
    push_nat(&mut s, message_id);
    s
}

/// The post to edit when transaction `tx_id` was cancelled by its player, given the stored post
/// id (if any): the id must read as a `u64`.
pub fn cancelled_post(tx_id: i32, stored: Option<String>) -> (r: Option<(u64, Embed)>)
    ensures
        (match stored {
            None => r is None,
            Some(s) => match parsed_u64(s@) {
                None => r is None,
                Some(m) => r matches Some((id, e)) && id == m && e.title@ == "Transaction #"@
                    + int_text(tx_id as int) + " — Cancelled"@ && e.color == DECLINED_COLOR
                    && field_texts(e.fields@) == seq![("Note"@, "Self-cancelled by the player."@, false)],
            },
        }),
{
    match stored {
        None => None,
        Some(s) => match parse_u64(s.as_str()) {
            None => None,
            Some(m) => Some((m, cancelled_embed(tx_id))),
        },
    }
}

/// A post whose id was stored with its transaction is found again when the player cancels the
/// transaction.
pub proof fn lemma_stored_post_is_found(message_id: u64)
    ensures
        parsed_u64(int_text(message_id as int)) == Some(message_id),
{
    lemma_u64_text_parses_back(message_id);
}

} // verus!
