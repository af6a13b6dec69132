# alduin

The Alduin wallet of a game server: players ask to deposit or withdraw Alduin (an in-game
item), moderators approve or decline the requests from Discord, and the server settles them.

- `src/` is the verified library. It decides which transactions may be resolved, how much
  Alduin a character receives or loses (never past the item cap, never below zero), what an
  online player is told, and which wallet page is shown. It also gives, as plain values, what
  the bot shows: replies, embeds, the buttons under a pending transaction with their labels and
  styles, the reason dialog, the slash command definitions, and the webhook messages. Its
  contracts are proved by Verus.
- `app/` is the code around it: the SQL statements, the game world, the Discord client (which
  turns the library's values into serenity builders) and the HTTP webhooks. It reads, calls the
  library, and writes or sends what the library returns.
- `tests/` runs the library on concrete values.
