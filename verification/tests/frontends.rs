use mr_roller::cli::{parse_bool_arg, parse_command, parse_player_id_arg, player_id_from_args, ParsedCommand};
use mr_roller::command::kinds::{AdminItemKind, ShopItemKind};
use mr_roller::config::Settings;
use mr_roller::discord::{
    autocomplete_keys, button_press, caller_can_setup, event_button_id, event_custom_id, event_id,
    mention_target, parse_event_custom_id, setup_message, setup_refusal, short_id,
    status_message, str_contains, ButtonReply, DiscordRuntimeConfig, EventButtonAction,
};
use mr_roller::render::response_lines;
use mr_roller::response::{EventSummary, InventoryEntry, LeaderboardEntry, ResponseData, ShopEntry};
use mr_roller::text::char_is_whitespace;
use mr_roller::command::kinds::ShopItemKind as Kind;
use mr_roller::game::Game;
use mr_roller::player::PlayerId;
use mr_roller::response::{Response, ResponseKind};
use mr_roller::rows::{
    i64_to_player_id, i64_to_u64, parse_snowflake, player_id_to_i64, player_id_to_text,
    text_to_player_id, u64_to_i64,
};
use mr_roller::scheduler::{is_spawned_event_response, EventScheduler};
use mr_roller::store::event::InMemoryEventStore;
use mr_roller::store::inventory::InMemoryInventoryStore;
use mr_roller::store::leaderboard::InMemoryLeaderboardStore;
use mr_roller::store::player::InMemoryPlayerStore;
use mr_roller::config::EventsConfig;
use mr_roller::text::split_whitespace;

const ID: &str = "67e55044-10b1-426f-9247-bb680e5fe0c8";

#[test]
fn parses_event_custom_ids() {
    let id = uuid::Uuid::new_v4();
    let text = format!("event:claim:{id}");
    assert_eq!(parse_event_custom_id(&text), Some((EventButtonAction::Claim, id.as_u128())));
    assert_eq!(parse_event_custom_id("event:boop:nope"), None);
}

#[test]
fn custom_ids_round_trip() {
    let text = event_custom_id(EventButtonAction::Trash, ID);
    assert_eq!(text, format!("event:trash:{ID}"));
    let expected = uuid::Uuid::parse_str(ID).unwrap().as_u128();
    assert_eq!(parse_event_custom_id(&text), Some((EventButtonAction::Trash, expected)));
    assert_eq!(parse_event_custom_id("event:claim"), None);
    assert_eq!(parse_event_custom_id("other:claim:x"), None);
}

#[test]
fn short_ids() {
    assert_eq!(short_id(ID), "67e55044");
    assert_eq!(short_id("abc"), "abc");
    // The eighth byte falls inside a character: the whole id is kept.
    assert_eq!(short_id("abcdefgé"), "abcdefgé");
}

#[test]
fn event_id_of_responses() {
    let plain = Response::success("done".to_string());
    assert_eq!(event_id(&plain), None);
}

#[test]
fn discord_runtime_config() {
    let mut settings = Settings::default();
    assert_eq!(
        DiscordRuntimeConfig::from_settings(&settings).err().unwrap(),
        "missing discord.token (or MR_ROLLER__DISCORD__TOKEN)"
    );
    settings.discord.token = Some("  ".to_string());
    assert!(DiscordRuntimeConfig::from_settings(&settings).is_err());
    settings.discord.token = Some("secret".to_string());
    settings.database.url = Some("sqlite:mr-roller.db".to_string());
    assert_eq!(
        DiscordRuntimeConfig::from_settings(&settings).err().unwrap(),
        "the public Discord server requires a PostgreSQL database.url"
    );
    settings.database.url = Some("postgres://localhost/mr".to_string());
    let c = DiscordRuntimeConfig::from_settings(&settings).ok().unwrap();
    assert_eq!(c.token, "secret");
    assert_eq!(c.database_url, "postgres://localhost/mr");
}

#[test]
fn row_conversions() {
    assert_eq!(player_id_to_text(PlayerId::new(1234)), "1234");
    assert_eq!(text_to_player_id("42".to_string()).unwrap(), PlayerId::new(42));
    assert!(text_to_player_id("4x".to_string()).is_err());
    assert_eq!(u64_to_i64(5, "coins").unwrap(), 5);
    match u64_to_i64(u64::MAX, "coins") {
        Err(mr_roller::errors::MrRollerError::Storage(m)) => {
            assert_eq!(m, "coins is too large for PostgreSQL BIGINT")
        }
        _ => panic!("expected an error"),
    }
    assert_eq!(i64_to_u64(7, "xp").unwrap(), 7);
    match i64_to_u64(-1, "xp") {
        Err(mr_roller::errors::MrRollerError::Storage(m)) => assert_eq!(m, "xp is negative"),
        _ => panic!("expected an error"),
    }
    assert_eq!(player_id_to_i64(PlayerId::new(u64::MAX)), -1);
    assert_eq!(i64_to_player_id(-1), PlayerId::new(u64::MAX));
    assert_eq!(i64_to_player_id(player_id_to_i64(PlayerId::new(1 << 63))), PlayerId::new(1 << 63));
    assert_eq!(parse_snowflake("99".to_string(), "guild_id").unwrap(), 99);
    let err = parse_snowflake("x".to_string(), "guild_id").unwrap_err();
    assert_eq!(err, "invalid guild_id snowflake x: invalid digit found in string");
}

#[test]
fn words_split_on_white_space() {
    let words = split_whitespace("  /admin \t give  7\nlucky ");
    assert_eq!(words, vec!["/admin", "give", "7", "lucky"]);
    assert!(split_whitespace("   ").is_empty());
}

#[test]
fn command_lines() {
    let pid = PlayerId::new(1);
    assert_eq!(parse_command("/start", pid).unwrap(), ParsedCommand::Start(pid));
    assert_eq!(parse_command("/inv", pid).unwrap(), ParsedCommand::Inventory(pid));
    assert_eq!(parse_command("/lb", pid).unwrap(), ParsedCommand::Leaderboard);
    assert_eq!(
        parse_command("/buy Lucky-Dice", pid).unwrap(),
        ParsedCommand::BuyItem(pid, ShopItemKind::LuckyDice)
    );
    assert_eq!(
        parse_command("/buy reroll", pid).unwrap_err(),
        "Unknown shop item 'reroll'. Available items: starter_dice, regular_dice, lucky_dice, cursed_dice"
    );
    let id = uuid::Uuid::parse_str(ID).unwrap().as_u128();
    assert_eq!(parse_command(&format!("/use {ID}"), pid).unwrap(), ParsedCommand::UseItem(pid, id));
    assert_eq!(parse_command("/use", pid).unwrap_err(), "Usage: /use <item-id>");
    assert_eq!(parse_command("/use nope", pid).unwrap_err(), "Invalid item ID format.");
    assert_eq!(
        parse_command(&format!("/event trash {ID}"), pid).unwrap(),
        ParsedCommand::TrashEvent(pid, id)
    );
    assert_eq!(
        parse_command(&format!("/event keep {ID}"), pid).unwrap_err(),
        "Usage: /event claim <id> or /event trash <id>"
    );
    assert_eq!(parse_command("/event claim x", pid).unwrap_err(), "Invalid event ID format.");
    assert_eq!(
        parse_command("/dance", pid).unwrap_err(),
        "Unknown command: /dance. Try /start, /use, /inventory, /shop, /buy, /leaderboard, /events, /admin."
    );
    assert_eq!(parse_command("", pid).unwrap_err(), "Empty command.");
}

#[test]
fn admin_command_lines() {
    let pid = PlayerId::new(1);
    assert_eq!(parse_command("/admin", pid).unwrap(), ParsedCommand::AdminHelp(pid));
    assert_eq!(
        parse_command("/admin give 9 token", pid).unwrap(),
        ParsedCommand::AdminGiveItem(pid, PlayerId::new(9), AdminItemKind::RerollToken)
    );
    assert_eq!(parse_command("/admin give x token", pid).unwrap_err(), "Invalid player ID.");
    assert_eq!(parse_command("/admin give 9", pid).unwrap_err(), "Usage: /admin give <player-id> <item>");
    assert_eq!(
        parse_command("/admin coins 9 -10", pid).unwrap(),
        ParsedCommand::AdminAdjustCoins(pid, PlayerId::new(9), -10)
    );
    assert_eq!(parse_command("/admin coins 9 ten", pid).unwrap_err(), "Invalid coin amount.");
    assert_eq!(parse_command("/admin event spawn", pid).unwrap(), ParsedCommand::AdminSpawnRandomItemEvent(pid));
    assert_eq!(parse_command("/admin event", pid).unwrap_err(), "Usage: /admin event spawn-random-item");
    assert_eq!(
        parse_command("/admin set-admin 9 YES", pid).unwrap(),
        ParsedCommand::AdminSetAdmin(pid, PlayerId::new(9), true)
    );
    assert_eq!(parse_command("/admin admin 9 maybe", pid).unwrap_err(), "Expected true or false.");
    assert_eq!(
        parse_command("/admin fly", pid).unwrap_err(),
        "Unknown admin command: fly. Try /admin, /admin give, /admin coins, /admin event, or /admin set-admin."
    );
}

#[test]
fn argument_readers() {
    assert_eq!(parse_player_id_arg(Some("12"), "usage").unwrap(), PlayerId::new(12));
    assert_eq!(parse_player_id_arg(None, "usage").unwrap_err(), "usage");
    assert_eq!(parse_bool_arg(Some("Off"), "usage").unwrap(), false);
    assert_eq!(parse_bool_arg(Some("1"), "usage").unwrap(), true);
    assert_eq!(parse_bool_arg(None, "usage").unwrap_err(), "usage");
    let args = vec!["mr-roller-cli".to_string(), "42".to_string()];
    assert_eq!(player_id_from_args(&args), PlayerId::new(42));
    let bad = vec!["mr-roller-cli".to_string(), "x".to_string()];
    assert_eq!(player_id_from_args(&bad), PlayerId::new(1));
    assert_eq!(player_id_from_args(&vec![]), PlayerId::new(1));
}

#[test]
fn parsed_commands_run_on_the_game() {
    let mut game = Game::new(
        InMemoryPlayerStore::new(),
        InMemoryInventoryStore::new(),
        InMemoryLeaderboardStore::new(),
    );
    let pid = PlayerId::new(5);
    let resp = parse_command("/start", pid).unwrap().execute(&mut game);
    assert_eq!(resp.kind, ResponseKind::Success);
    let inv = parse_command("/inventory", pid).unwrap().execute(&mut game);
    assert_eq!(inv.message, "Your inventory:");
}

#[test]
fn tick_returns_spawned_event_when_chance_is_one() {
    let mut game = Game::with_event_store(
        InMemoryPlayerStore::new(),
        InMemoryInventoryStore::new(),
        InMemoryLeaderboardStore::new(),
        InMemoryEventStore::new(),
        Vec::new(),
        EventsConfig::default(),
    );
    let scheduler = EventScheduler::from_seconds(60);
    let response = scheduler.tick(&mut game, true);
    assert!(response.is_some());
    let spawned = response.unwrap();
    assert_eq!(spawned.kind, ResponseKind::Event);
    assert_eq!(spawned.message, "Random item event spawned.");
    assert!(spawned.data.as_ref().map_or(false, |d| d.is_object()));
}

#[test]
fn scheduler_intervals_and_misses() {
    assert_eq!(EventScheduler::from_seconds(0).check_interval_seconds, 1);
    assert_eq!(EventScheduler::new(30).check_interval_seconds, 30);
    let mut game = Game::new(
        InMemoryPlayerStore::new(),
        InMemoryInventoryStore::new(),
        InMemoryLeaderboardStore::new(),
    );
    let scheduler = EventScheduler::from_seconds(5);
    assert!(scheduler.tick(&mut game, false).is_none());
    assert!(!is_spawned_event_response(&Response::success("Random item event spawned.".to_string())));
}

#[test]
fn discord_setup_and_status_texts() {
    assert!(caller_can_setup(false, false, true));
    assert!(!caller_can_setup(false, false, false));
    assert_eq!(setup_refusal(false, true, true), Some("Mr Roller games must be set up inside a server channel."));
    assert_eq!(setup_refusal(true, false, true), Some("Please choose a text channel for the game."));
    assert_eq!(
        setup_refusal(true, true, false),
        Some("You need Administrator, Manage Server, or Manage Channels to set up Mr Roller.")
    );
    assert_eq!(setup_refusal(true, true, true), None);
    assert_eq!(
        setup_message(true, "<#5>"),
        "Mr Roller is ready in <#5>.\nYou are now an admin for this game. Run `/start` in that channel to receive your starter dice."
    );
    assert!(setup_message(false, "<#5>").starts_with("A Mr Roller game already exists in <#5>."));
    assert_eq!(
        status_message("g1", false, 3),
        "Mr Roller is configured for this channel.\nGame ID: `g1`\nEvents: disabled\nPlayers: 3"
    );
}

#[test]
fn discord_autocomplete_and_mentions() {
    let keys = Kind::keys();
    assert_eq!(autocomplete_keys(&keys, "ed_d"), vec!["cursed_dice"]);
    assert_eq!(autocomplete_keys(&keys, "").len(), 4);
    assert!(str_contains("regular_dice", "lar"));
    assert!(!str_contains("lucky", "luckyy"));
    assert_eq!(mention_target("Gave Lucky Dice to player 42.", 42, "<@42>"), "Gave Lucky Dice to player <@42>.");
    assert_eq!(mention_target("4242 x", 42, "@"), "@@ x");
    assert_eq!(mention_target("no id here", 7, "@"), "no id here");
}

#[test]
fn discord_buttons_claim_and_trash() {
    let mut game = Game::new(
        InMemoryPlayerStore::new(),
        InMemoryInventoryStore::new(),
        InMemoryLeaderboardStore::new(),
    );
    assert!(button_press(&mut game, "not:an:event", 1).is_none());
    let press = button_press(&mut game, &format!("event:claim:{ID}"), 9).unwrap();
    match press {
        ButtonReply::Private(resp) => {
            assert_eq!(resp.kind, ResponseKind::Error);
            assert_eq!(resp.message, "Player not found");
        }
        ButtonReply::UpdateMessage(_) => panic!("an error answer is sent privately"),
    }
}

#[test]
fn event_button_ids_parse_back() {
    let id = uuid::Uuid::parse_str(ID).unwrap().as_u128();
    let claim = event_button_id(EventButtonAction::Claim, id);
    assert_eq!(claim, format!("event:claim:{ID}"));
    assert_eq!(parse_event_custom_id(&claim), Some((EventButtonAction::Claim, id)));
    let fresh = uuid::Uuid::new_v4().as_u128();
    let trash = event_button_id(EventButtonAction::Trash, fresh);
    assert_eq!(parse_event_custom_id(&trash), Some((EventButtonAction::Trash, fresh)));
}

#[test]
fn unicode_white_space_is_recognised() {
    for c in [' ', '\t', '\n', '\r', '\u{0B}', '\u{0C}', '\u{85}', '\u{A0}', '\u{1680}', '\u{2000}', '\u{200A}', '\u{2028}', '\u{2029}', '\u{202F}', '\u{205F}', '\u{3000}'] {
        assert!(char_is_whitespace(c), "{:?}", c);
        assert_eq!(char_is_whitespace(c), c.is_whitespace());
    }
    for c in ['a', '_', '-', '0', '\u{200B}', '\u{180E}', '\u{FEFF}'] {
        assert!(!char_is_whitespace(c), "{:?}", c);
        assert_eq!(char_is_whitespace(c), c.is_whitespace());
    }
}

#[test]
fn shop_keys_and_aliases_parse() {
    assert_eq!(ShopItemKind::parse("lucky"), Ok(ShopItemKind::LuckyDice));
    assert_eq!(ShopItemKind::parse("\u{3000} Lucky-Dice\t"), Ok(ShopItemKind::LuckyDice));
    for key in ShopItemKind::keys() {
        let kind = ShopItemKind::parse(key).unwrap();
        assert_eq!(kind.catalog_entry().key, key);
    }
    assert!(ShopItemKind::parse("reroll_token").is_err());
}

#[test]
fn response_lines_render_each_kind() {
    let roll = Response::dice_roll("You rolled.".to_string(), 17);
    assert_eq!(response_lines(&roll), vec!["  🎲 You rolled.", "    Roll result: 17"]);
    let err = Response::error("Nope".to_string());
    assert_eq!(response_lines(&err), vec!["  ❌ Nope"]);
    let inv = Response::inventory(
        "Your inventory:".to_string(),
        vec![InventoryEntry {
            id: uuid::Uuid::parse_str(ID).unwrap().as_u128(),
            name: "Lucky Dice".to_string(),
            description: "Rolls high".to_string(),
        }],
    );
    assert_eq!(
        response_lines(&inv),
        vec!["  🎒 Your inventory:".to_string(), format!("    [{ID}] Lucky Dice — Rolls high")]
    );
    let shop = Response::shop(
        "Shop:".to_string(),
        vec![ShopEntry {
            key: "lucky_dice".to_string(),
            name: "Lucky Dice".to_string(),
            description: "d".to_string(),
            price: 50,
        }],
    );
    assert_eq!(response_lines(&shop), vec!["  🛒 Shop:", "    lucky_dice — 50 coins — Lucky Dice — d"]);
    let board = Response::leaderboard(
        "Top:".to_string(),
        vec![
            LeaderboardEntry { player_id: 42, xp: 10, coins: 3 },
            LeaderboardEntry { player_id: 7, xp: 5, coins: 0 },
        ],
    );
    assert_eq!(
        response_lines(&board),
        vec!["  🏆 Top:", "    1. Player 42 — 10 XP, 3 coins", "    2. Player 7 — 5 XP, 0 coins"]
    );
    let event = Response::event(
        "Event".to_string(),
        ResponseData::Event(EventSummary {
            id: uuid::Uuid::parse_str(ID).unwrap().as_u128(),
            title: "Random Item Spawn".to_string(),
            description: "Claim it".to_string(),
            status: "active".to_string(),
            actor_id: None,
            item_name: None,
            expires_at: 0,
        }),
    );
    assert_eq!(
        response_lines(&event),
        vec![
            "  🎉 Event".to_string(),
            format!("    [{ID}] Random Item Spawn — active"),
            "        Claim it".to_string(),
            "        expires at 1970-01-01T00:00:00+00:00".to_string(),
        ]
    );
}
