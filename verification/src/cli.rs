//! The command language of the interactive frontend: reading a typed line
//! into a command, and running it.

use vstd::prelude::*;
use crate::command::admin::{
    AdminAdjustCoinsCommand, AdminGiveItemCommand, AdminHelpCommand, AdminSetAdminCommand,
};
use crate::command::events::{
    ClaimEventCommand, ListActiveEventsCommand, SpawnRandomItemEventCommand, TrashEventCommand,
};
use crate::command::kinds::{
    admin_kind_of, shop_kind_of, unknown_admin_item_message, unknown_shop_item_message,
    AdminItemKind, ShopItemKind,
};
use crate::command::listing::{InventoryCommand, LeaderboardCommand};
use crate::command::shop::{BuyItemCommand, ShopCommand};
use crate::command::start::StartCommand;
use crate::command::use_item::UseItemCommand;
use crate::command::Command;
use crate::game::{answers, Game};
use crate::player::PlayerId;
use crate::response::Response;
use crate::sources::{parse_uuid, uuid_parse};
use crate::text::{
    ascii_lower, ascii_lowercase, chars_eq_str, normalize_key_spec, owned, parse_i64, parse_i64_spec,
    parse_u64, parse_u64_spec, push_str, split_whitespace, str_eq, words,
};

verus! {

/// A command read from the command line.
#[derive(Debug, Clone, Copy, PartialEq, Eq, Structural)]
pub enum ParsedCommand {
    Start(PlayerId),
    UseItem(PlayerId, u128),
    Inventory(PlayerId),
    Shop,
    BuyItem(PlayerId, ShopItemKind),
    Leaderboard,
    Events,
    ClaimEvent(PlayerId, u128),
    TrashEvent(PlayerId, u128),
    AdminHelp(PlayerId),
    AdminGiveItem(PlayerId, PlayerId, AdminItemKind),
    AdminAdjustCoins(PlayerId, PlayerId, i64),
    AdminSpawnRandomItemEvent(PlayerId),
    AdminSetAdmin(PlayerId, PlayerId, bool),
}

/// The word at position `i`, if there is one.
pub open spec fn word_at(ws: Seq<Seq<char>>, i: int) -> Option<Seq<char>> {
    if 0 <= i < ws.len() {
        Some(ws[i])
    } else {
        None
    }
}

/// A player id argument: missing gives the usage text, anything `u64`
/// parsing refuses gives "Invalid player ID.".
pub open spec fn player_id_arg_spec(value: Option<Seq<char>>, usage: Seq<char>) -> Result<PlayerId, Seq<char>> {
    match value {
        None => Err(usage),
        Some(v) => match parse_u64_spec(v) {
            Some(n) => Ok(PlayerId(n)),
            None => Err("Invalid player ID."@),
        },
    }
}

/// A yes/no argument, case-insensitive: `true`, `yes`, `1`, `on` or
/// `false`, `no`, `0`, `off`.
pub open spec fn bool_arg_spec(value: Option<Seq<char>>, usage: Seq<char>) -> Result<bool, Seq<char>> {
    match value {
        None => Err(usage),
        Some(v) => {
            let l = v.map_values(|c: char| ascii_lower(c));
            if l == "true"@ || l == "yes"@ || l == "1"@ || l == "on"@ {
                Ok(true)
            } else if l == "false"@ || l == "no"@ || l == "0"@ || l == "off"@ {
                Ok(false)
            } else {
                Err("Expected true or false."@)
            }
        },
    }
}

pub open spec fn event_usage() -> Seq<char> {
    "Usage: /event claim <id> or /event trash <id>"@
}

/// `/event claim <id>` and `/event trash <id>`.
pub open spec fn event_command_spec(ws: Seq<Seq<char>>, pid: PlayerId) -> Result<ParsedCommand, Seq<char>> {
    match word_at(ws, 2) {
        None => Err(event_usage()),
        Some(raw) => match uuid_parse(raw) {
            None => Err("Invalid event ID format."@),
            Some(id) => if word_at(ws, 1) == Some("claim"@) {
                Ok(ParsedCommand::ClaimEvent(pid, id))
            } else if word_at(ws, 1) == Some("trash"@) {
                Ok(ParsedCommand::TrashEvent(pid, id))
            } else {
                Err(event_usage())
            },
        },
    }
}

pub open spec fn give_usage() -> Seq<char> {
    "Usage: /admin give <player-id> <item>"@
}

pub open spec fn coins_usage() -> Seq<char> {
    "Usage: /admin coins <player-id> <amount>"@
}

pub open spec fn set_admin_usage() -> Seq<char> {
    "Usage: /admin set-admin <player-id> <true|false>"@
}

/// The `/admin` family.
pub open spec fn admin_command_spec(ws: Seq<Seq<char>>, pid: PlayerId) -> Result<ParsedCommand, Seq<char>> {
    let sub = word_at(ws, 1);
    if sub is None || sub == Some("help"@) {
        Ok(ParsedCommand::AdminHelp(pid))
    } else if sub == Some("give"@) {
        match player_id_arg_spec(word_at(ws, 2), give_usage()) {
            Err(m) => Err(m),
            Ok(target) => match word_at(ws, 3) {
                None => Err(give_usage()),
                Some(raw) => match admin_kind_of(normalize_key_spec(raw)) {
                    Some(kind) => Ok(ParsedCommand::AdminGiveItem(pid, target, kind)),
                    None => Err(unknown_admin_item_message(normalize_key_spec(raw))),
                },
            },
        }
    } else if sub == Some("coins"@) {
        match player_id_arg_spec(word_at(ws, 2), coins_usage()) {
            Err(m) => Err(m),
            Ok(target) => match word_at(ws, 3) {
                None => Err(coins_usage()),
                Some(raw) => match parse_i64_spec(raw) {
                    Some(amount) => Ok(ParsedCommand::AdminAdjustCoins(pid, target, amount)),
                    None => Err("Invalid coin amount."@),
                },
            },
        }
    } else if sub == Some("event"@) {
        if word_at(ws, 2) == Some("spawn-random-item"@) || word_at(ws, 2) == Some("spawn"@) {
            Ok(ParsedCommand::AdminSpawnRandomItemEvent(pid))
        } else {
            Err("Usage: /admin event spawn-random-item"@)
        }
    } else if sub == Some("set-admin"@) || sub == Some("admin"@) {
        match player_id_arg_spec(word_at(ws, 2), set_admin_usage()) {
            Err(m) => Err(m),
            Ok(target) => match bool_arg_spec(word_at(ws, 3), set_admin_usage()) {
                Err(m) => Err(m),
                Ok(flag) => Ok(ParsedCommand::AdminSetAdmin(pid, target, flag)),
            },
        }
    } else {
        Err(
            "Unknown admin command: "@ + ws[1]
                + ". Try /admin, /admin give, /admin coins, /admin event, or /admin set-admin."@,
        )
    }
}

/// A whole command line, split into words.
pub open spec fn command_spec(ws: Seq<Seq<char>>, pid: PlayerId) -> Result<ParsedCommand, Seq<char>> {
    if ws.len() == 0 {
        Err("Empty command."@)
    } else {
        let cmd = ws[0];
        if cmd == "/start"@ {
            Ok(ParsedCommand::Start(pid))
        } else if cmd == "/use"@ {
            match word_at(ws, 1) {
                None => Err("Usage: /use <item-id>"@),
                Some(raw) => match uuid_parse(raw) {
                    Some(id) => Ok(ParsedCommand::UseItem(pid, id)),
                    None => Err("Invalid item ID format."@),
                },
            }
        } else if cmd == "/inventory"@ || cmd == "/inv"@ {
            Ok(ParsedCommand::Inventory(pid))
        } else if cmd == "/shop"@ {
            Ok(ParsedCommand::Shop)
        } else if cmd == "/buy"@ {
            match word_at(ws, 1) {
                None => Err("Usage: /buy <item>"@),
                Some(raw) => match shop_kind_of(normalize_key_spec(raw)) {
                    Some(kind) => Ok(ParsedCommand::BuyItem(pid, kind)),
                    None => Err(unknown_shop_item_message(normalize_key_spec(raw))),
                },
            }
        } else if cmd == "/leaderboard"@ || cmd == "/lb"@ {
            Ok(ParsedCommand::Leaderboard)
        } else if cmd == "/events"@ {
            Ok(ParsedCommand::Events)
        } else if cmd == "/event"@ {
            event_command_spec(ws, pid)
        } else if cmd == "/admin"@ {
            admin_command_spec(ws, pid)
        } else {
            Err(
                "Unknown command: "@ + cmd
                    + ". Try /start, /use, /inventory, /shop, /buy, /leaderboard, /events, /admin."@,
            )
        }
    }
}

/// Whether `r` is the exec form of the spec result `s`.
pub open spec fn parsed_as<T>(r: Result<T, String>, s: Result<T, Seq<char>>) -> bool {
    match r {
        Ok(v) => s == Ok::<T, Seq<char>>(v),
        Err(m) => s == Err::<T, Seq<char>>(m@),
    }
}

/// The words of `parts` as texts.
pub open spec fn word_views(parts: Seq<String>) -> Seq<Seq<char>> {
    parts.map_values(|w: String| w@)
}

fn word(parts: &Vec<String>, i: usize) -> (r: Option<&str>)
    ensures
        match r {
            Some(w) => word_at(word_views(parts@), i as int) == Some(w@),
            None => word_at(word_views(parts@), i as int) is None,
        },
{
    if i < parts.len() {
        Some(parts[i].as_str())
    } else {
        None
    }
}

fn word_is(value: Option<&str>, t: &str) -> (r: bool)
    ensures
        r == (match value {
            Some(w) => w@ == t@,
            None => false,
        }),
{
    match value {
        Some(w) => str_eq(w, t),
        None => false,
    }
}

/// Reads a player id argument.
pub fn parse_player_id_arg(value: Option<&str>, usage: &str) -> (r: Result<PlayerId, String>)
    ensures
        parsed_as(
            r,
            player_id_arg_spec(
                match value {
                    Some(v) => Some(v@),
                    None => None,
                },
                usage@,
            ),
        ),
{
    match value {
        None => Err(owned(usage)),
        Some(v) => match parse_u64(v) {
            Some(n) => Ok(PlayerId::new(n)),
            None => Err(owned("Invalid player ID.")),
        },
    }
}

/// Reads a yes/no argument.
pub fn parse_bool_arg(value: Option<&str>, usage: &str) -> (r: Result<bool, String>)
    ensures
        parsed_as(
            r,
            bool_arg_spec(
                match value {
                    Some(v) => Some(v@),
                    None => None,
                },
                usage@,
            ),
        ),
{
    match value {
        None => Err(owned(usage)),
        Some(v) => {
            let l = ascii_lowercase(v);
            if chars_eq_str(&l, "true") || chars_eq_str(&l, "yes") || chars_eq_str(&l, "1")
                || chars_eq_str(&l, "on") {
                Ok(true)
            } else if chars_eq_str(&l, "false") || chars_eq_str(&l, "no") || chars_eq_str(&l, "0")
                || chars_eq_str(&l, "off") {
                Ok(false)
            } else {
                Err(owned("Expected true or false."))
            }
        },
    }
}

/// Reads `/event claim <id>` or `/event trash <id>`.
pub fn parse_event_command(parts: &Vec<String>, pid: PlayerId) -> (r: Result<ParsedCommand, String>)
    ensures
        parsed_as(r, event_command_spec(word_views(parts@), pid)),
{
    let raw_id = match word(parts, 2) {
        Some(w) => w,
        None => return Err(owned("Usage: /event claim <id> or /event trash <id>")),
    };
    let event_id = match parse_uuid(raw_id) {
        Some(id) => id,
        None => return Err(owned("Invalid event ID format.")),
    };
    let action = word(parts, 1);
    if word_is(action, "claim") {
        Ok(ParsedCommand::ClaimEvent(pid, event_id))
    } else if word_is(action, "trash") {
        Ok(ParsedCommand::TrashEvent(pid, event_id))
    } else {
        Err(owned("Usage: /event claim <id> or /event trash <id>"))
    }
}

/// Reads the `/admin` family.
pub fn parse_admin_command(parts: &Vec<String>, pid: PlayerId) -> (r: Result<ParsedCommand, String>)
    ensures
        parsed_as(r, admin_command_spec(word_views(parts@), pid)),
{
    let sub = word(parts, 1);
    if sub.is_none() || word_is(sub, "help") {
        Ok(ParsedCommand::AdminHelp(pid))
    } else if word_is(sub, "give") {
        let usage = "Usage: /admin give <player-id> <item>";
        let target = match parse_player_id_arg(word(parts, 2), usage) {
            Ok(t) => t,
            Err(m) => return Err(m),
        };
        let raw = match word(parts, 3) {
            Some(w) => w,
            None => return Err(owned(usage)),
        };
        match AdminItemKind::parse(raw) {
            Ok(kind) => Ok(ParsedCommand::AdminGiveItem(pid, target, kind)),
            Err(m) => Err(m),
        }
    } else if word_is(sub, "coins") {
        let usage = "Usage: /admin coins <player-id> <amount>";
        let target = match parse_player_id_arg(word(parts, 2), usage) {
            Ok(t) => t,
            Err(m) => return Err(m),
        };
        let raw = match word(parts, 3) {
            Some(w) => w,
            None => return Err(owned(usage)),
        };
        match parse_i64(raw) {
            Some(amount) => Ok(ParsedCommand::AdminAdjustCoins(pid, target, amount)),
            None => Err(owned("Invalid coin amount.")),
        }
    } else if word_is(sub, "event") {
        let what = word(parts, 2);
        if word_is(what, "spawn-random-item") || word_is(what, "spawn") {
            Ok(ParsedCommand::AdminSpawnRandomItemEvent(pid))
        } else {
            Err(owned("Usage: /admin event spawn-random-item"))
        }
    } else if word_is(sub, "set-admin") || word_is(sub, "admin") {
        let usage = "Usage: /admin set-admin <player-id> <true|false>";
        let target = match parse_player_id_arg(word(parts, 2), usage) {
            Ok(t) => t,
            Err(m) => return Err(m),
        };
        let flag = match parse_bool_arg(word(parts, 3), usage) {
            Ok(b) => b,
            Err(m) => return Err(m),
        };
        Ok(ParsedCommand::AdminSetAdmin(pid, target, flag))
    } else {
        let mut message = owned("Unknown admin command: ");
        push_str(&mut message, parts[1].as_str());
        push_str(
            &mut message,
            ". Try /admin, /admin give, /admin coins, /admin event, or /admin set-admin.",
        );
        Err(message)
    }
}

/// Reads a command line typed by player `pid`.
pub fn parse_command(input: &str, pid: PlayerId) -> (r: Result<ParsedCommand, String>)
    ensures
        parsed_as(r, command_spec(words(input@), pid)),
{
    let parts = split_whitespace(input);
    let first = match word(&parts, 0) {
        Some(w) => w,
        None => return Err(owned("Empty command.")),
    };
    if str_eq(first, "/start") {
        Ok(ParsedCommand::Start(pid))
    } else if str_eq(first, "/use") {
        let raw_id = match word(&parts, 1) {
            Some(w) => w,
            None => return Err(owned("Usage: /use <item-id>")),
        };
        match parse_uuid(raw_id) {
            Some(id) => Ok(ParsedCommand::UseItem(pid, id)),
            None => Err(owned("Invalid item ID format.")),
        }
    } else if str_eq(first, "/inventory") || str_eq(first, "/inv") {
        Ok(ParsedCommand::Inventory(pid))
    } else if str_eq(first, "/shop") {
        Ok(ParsedCommand::Shop)
    } else if str_eq(first, "/buy") {
        let raw = match word(&parts, 1) {
            Some(w) => w,
            None => return Err(owned("Usage: /buy <item>")),
        };
        match ShopItemKind::parse(raw) {
            Ok(kind) => Ok(ParsedCommand::BuyItem(pid, kind)),
            Err(m) => Err(m),
        }
    } else if str_eq(first, "/leaderboard") || str_eq(first, "/lb") {
        Ok(ParsedCommand::Leaderboard)
    } else if str_eq(first, "/events") {
        Ok(ParsedCommand::Events)
    } else if str_eq(first, "/event") {
        parse_event_command(&parts, pid)
    } else if str_eq(first, "/admin") {
        parse_admin_command(&parts, pid)
    } else {
        let mut message = owned("Unknown command: ");
        push_str(&mut message, first);
        push_str(
            &mut message,
            ". Try /start, /use, /inventory, /shop, /buy, /leaderboard, /events, /admin.",
        );
        Err(message)
    }
}

/// The player id given as the first program argument, or player 1.
pub fn player_id_from_args(args: &Vec<String>) -> (id: PlayerId)
    ensures
        id == if args@.len() >= 2 && parse_u64_spec(args@[1]@) is Some {
            PlayerId(parse_u64_spec(args@[1]@)->0)
        } else {
            PlayerId(1)
        },
{
    if args.len() >= 2 {
        match parse_u64(args[1].as_str()) {
            Some(id) => return PlayerId::new(id),
            None => {},
        }
    }
    PlayerId::new(1)
}

impl ParsedCommand {
    /// Whether running the command on `game` is defined.
    pub open spec fn runnable(self, game: Game) -> bool {
        match self {
            ParsedCommand::UseItem(pid, item_id) => (UseItemCommand { player_id: pid, item_id }).runnable(
                game,
            ),
            ParsedCommand::AdminAdjustCoins(admin_id, target_player_id, amount) => (
            AdminAdjustCoinsCommand { admin_id, target_player_id, amount }).runnable(game),
            ParsedCommand::AdminSpawnRandomItemEvent(admin_id) => (SpawnRandomItemEventCommand {
                admin_id,
            }).runnable(game),
            _ => true,
        }
    }

    /// Whether `resp` and `post` are a possible answer and final game of
    /// running the command on `pre`.
    pub open spec fn outcome(self, pre: Game, post: Game, resp: Response) -> bool {
        exists|r: Result<Response, crate::errors::MrRollerError>|
            #[trigger] answers(r, resp) && match self {
                ParsedCommand::Start(pid) => (StartCommand { player_id: pid }).outcome(pre, post, r),
                ParsedCommand::UseItem(pid, item_id) => (UseItemCommand {
                    player_id: pid,
                    item_id,
                }).outcome(pre, post, r),
                ParsedCommand::Inventory(pid) => (InventoryCommand { player_id: pid }).outcome(
                    pre,
                    post,
                    r,
                ),
                ParsedCommand::Shop => ShopCommand.outcome(pre, post, r),
                ParsedCommand::BuyItem(pid, item) => (BuyItemCommand { player_id: pid, item }).outcome(
                    pre,
                    post,
                    r,
                ),
                ParsedCommand::Leaderboard => (LeaderboardCommand { limit: 10 }).outcome(pre, post, r),
                ParsedCommand::Events => ListActiveEventsCommand.outcome(pre, post, r),
                ParsedCommand::ClaimEvent(pid, event_id) => (ClaimEventCommand {
                    player_id: pid,
                    event_id,
                }).outcome(pre, post, r),
                ParsedCommand::TrashEvent(pid, event_id) => (TrashEventCommand {
                    player_id: pid,
                    event_id,
                }).outcome(pre, post, r),
                ParsedCommand::AdminHelp(pid) => (AdminHelpCommand { player_id: pid }).outcome(
                    pre,
                    post,
                    r,
                ),
                ParsedCommand::AdminGiveItem(admin_id, target_player_id, item) => (
                AdminGiveItemCommand { admin_id, target_player_id, item }).outcome(pre, post, r),
                ParsedCommand::AdminAdjustCoins(admin_id, target_player_id, amount) => (
                AdminAdjustCoinsCommand { admin_id, target_player_id, amount }).outcome(pre, post, r),
                ParsedCommand::AdminSpawnRandomItemEvent(admin_id) => (SpawnRandomItemEventCommand {
                    admin_id,
                }).outcome(pre, post, r),
                ParsedCommand::AdminSetAdmin(admin_id, target_player_id, is_admin) => (
                AdminSetAdminCommand { admin_id, target_player_id, is_admin }).outcome(pre, post, r),
            }
    }

    /// Whether the command can run on `game` (see `runnable`).
    pub fn is_runnable(&self, game: &Game) -> (b: bool)
        ensures
            b == self.runnable(*game),
    {
        match *self {
            ParsedCommand::UseItem(pid, item_id) => (UseItemCommand { player_id: pid, item_id })
                .is_runnable(game),
            ParsedCommand::AdminAdjustCoins(admin_id, target_player_id, amount) => (
            AdminAdjustCoinsCommand { admin_id, target_player_id, amount }).is_runnable(game),
            ParsedCommand::AdminSpawnRandomItemEvent(admin_id) => (SpawnRandomItemEventCommand {
                admin_id,
            }).is_runnable(game),
            _ => true,
        }
    }

    /// Runs the command on the game (the leaderboard shows the top ten).
    pub fn execute(self, game: &mut Game) -> (resp: Response)
        requires
            self.runnable(*old(game)),
        ensures
            self.outcome(*old(game), *final(game), resp),
    {
        match self {
            ParsedCommand::Start(pid) => game.execute(StartCommand { player_id: pid }),
            ParsedCommand::UseItem(pid, item_id) => game.execute(
                UseItemCommand { player_id: pid, item_id },
            ),
            ParsedCommand::Inventory(pid) => game.execute(InventoryCommand { player_id: pid }),
            ParsedCommand::Shop => game.execute(ShopCommand),
            ParsedCommand::BuyItem(pid, item) => game.execute(BuyItemCommand { player_id: pid, item }),
            ParsedCommand::Leaderboard => game.execute(LeaderboardCommand { limit: 10 }),
            ParsedCommand::Events => game.execute(ListActiveEventsCommand),
            ParsedCommand::ClaimEvent(pid, event_id) => game.execute(
                ClaimEventCommand { player_id: pid, event_id },
            ),
            ParsedCommand::TrashEvent(pid, event_id) => game.execute(
                TrashEventCommand { player_id: pid, event_id },
            ),
            ParsedCommand::AdminHelp(pid) => game.execute(AdminHelpCommand { player_id: pid }),
            ParsedCommand::AdminGiveItem(admin_id, target_player_id, item) => game.execute(
                AdminGiveItemCommand { admin_id, target_player_id, item },
            ),
            ParsedCommand::AdminAdjustCoins(admin_id, target_player_id, amount) => game.execute(
                AdminAdjustCoinsCommand { admin_id, target_player_id, amount },
            ),
            ParsedCommand::AdminSpawnRandomItemEvent(admin_id) => game.execute(
                SpawnRandomItemEventCommand { admin_id },
            ),
            ParsedCommand::AdminSetAdmin(admin_id, target_player_id, is_admin) => game.execute(
                AdminSetAdminCommand { admin_id, target_player_id, is_admin },
            ),
        }
    }
}

} // verus!
