# Mr Roller

A dice game: players start with a starter dice, roll once per UTC day to earn
XP and coins, buy better dice in the shop, use reroll tokens, and race each
other for items that random events spawn. Admins grant items, adjust coins and
spawn events.

The game logic is a Verus library whose behaviour is stated in contracts and
proved:

- `src/game.rs` — the `Game`: its in-memory stores and settings, and
  `Game::execute`, which runs any `Command` and turns errors into responses.
- `src/command/` — one module per family of commands (`start`, `use_item`,
  `shop`, `listing`, `admin`, `events`), each with an exact `*_spec` of what it
  does, and `kinds` for the item names players and admins type.
- `src/store/` — players, inventories, the leaderboard, events and the record
  of item uses.
- `src/item.rs`, `src/event.rs`, `src/cooldown.rs`, `src/response.rs`,
  `src/config.rs` — the game's values and rules.
- `src/cli.rs`, `src/scheduler.rs`, `src/discord.rs`, `src/rows.rs` — what the
  frontends decide: reading command lines, when to announce spawned events,
  Discord button ids and setup answers, database column conversions.
- `src/render.rs` — the text lines a response is shown as.
- `src/local.rs` — a minimal state of players and one inventory in plain maps.
- `src/laws.rs` — properties that span several commands.
- `src/sources.rs`, `src/text.rs` — the clock, random draws, identifiers and
  text helpers.

Where a command reads the clock, draws a random number or makes a fresh id,
it also has an `execute_with` taking those values as arguments.

`app/` is the interactive command line: it loads settings with the `config`
crate, keeps the game behind a lock, runs the event scheduler's timer and
prints responses.
