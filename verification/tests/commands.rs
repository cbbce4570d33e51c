use mr_roller::command::admin::{
    AdminAdjustCoinsCommand, AdminGiveItemCommand, AdminHelpCommand, AdminSetAdminCommand,
};
use mr_roller::command::events::{
    ClaimEventCommand, ListActiveEventsCommand, MaybeSpawnRandomItemEventCommand,
    SpawnRandomItemEventCommand, TrashEventCommand,
};
use mr_roller::command::kinds::{AdminItemKind, ShopItemKind};
use mr_roller::command::listing::{InventoryCommand, LeaderboardCommand};
use mr_roller::command::shop::{BuyItemCommand, ShopCommand};
use mr_roller::command::start::StartCommand;
use mr_roller::command::use_item::UseItemCommand;
use mr_roller::command::Command;
use mr_roller::config::{EventsConfig, RandomItemSpawnEntry};
use mr_roller::errors::MrRollerError;
use mr_roller::event::EventStatus;
use mr_roller::game::Game;
use mr_roller::item::{BasicDice, Item, RerollToken, RollOutcome};
use mr_roller::player::{Player, PlayerId};
use mr_roller::response::{ResponseData, ResponseKind};
use mr_roller::store::event::InMemoryEventStore;
use mr_roller::store::inventory::InMemoryInventoryStore;
use mr_roller::store::leaderboard::InMemoryLeaderboardStore;
use mr_roller::store::player::InMemoryPlayerStore;

fn new_game() -> Game {
    Game::new(
        InMemoryPlayerStore::new(),
        InMemoryInventoryStore::new(),
        InMemoryLeaderboardStore::new(),
    )
}

fn game_with_admins(ids: Vec<PlayerId>) -> Game {
    Game::with_bootstrap_admin_ids(
        InMemoryPlayerStore::new(),
        InMemoryInventoryStore::new(),
        InMemoryLeaderboardStore::new(),
        ids,
    )
}

fn add_admin(game: &mut Game, id: u64) {
    let mut admin = Player::new(PlayerId::new(id));
    admin.is_admin = true;
    game.players.insert(admin).unwrap();
}

fn event_id_of(data: &Option<ResponseData>) -> u128 {
    match data {
        Some(ResponseData::Event(s)) => s.id,
        _ => panic!("not an event response"),
    }
}

// ── Start ──────────────────────────────────────────────────────────────────

#[test]
fn test_start_new_player() {
    let mut game = new_game();
    let resp = StartCommand { player_id: PlayerId::new(1) }.execute(&mut game).unwrap();
    assert_eq!(resp.kind, ResponseKind::Success);
    assert!(resp.message.contains("starter dice"));
    assert!(game.players.contains(PlayerId::new(1)).unwrap());
    let items = game.inventory.list_items(PlayerId::new(1)).unwrap();
    assert_eq!(items.len(), 1);
}

#[test]
fn test_start_bootstrap_admin() {
    let mut game = game_with_admins(vec![PlayerId::new(7)]);
    StartCommand { player_id: PlayerId::new(7) }.execute(&mut game).unwrap();
    assert!(game.players.get(PlayerId::new(7)).unwrap().is_admin);
}

#[test]
fn test_start_promotes_existing_bootstrap_admin() {
    let mut game = game_with_admins(vec![PlayerId::new(7)]);
    game.players.insert(Player::new(PlayerId::new(7))).unwrap();
    let resp = StartCommand { player_id: PlayerId::new(7) }.execute(&mut game).unwrap();
    assert_eq!(resp.kind, ResponseKind::Success);
    assert!(game.players.get(PlayerId::new(7)).unwrap().is_admin);
}

#[test]
fn test_start_existing_admin_without_starter_dice_grants_starter_dice() {
    let mut game = new_game();
    let player_id = PlayerId::new(7);
    let mut setup_admin = Player::new(player_id);
    setup_admin.is_admin = true;
    game.players.insert(setup_admin).unwrap();

    let resp = StartCommand { player_id }.execute(&mut game).unwrap();

    assert_eq!(resp.kind, ResponseKind::Success);
    assert!(resp.message.contains("starter dice"));
    let items = game.inventory.list_items(player_id).unwrap();
    assert_eq!(items.len(), 1);
    assert!(matches!(&items[0].1, Item::BasicDice(dice) if dice.name == "Starter Dice"));
    assert!(game.players.get(player_id).unwrap().is_admin);
}

#[test]
fn test_first_dice_use_completes_tutorial() {
    let mut game = new_game();
    let player_id = PlayerId::new(1);
    StartCommand { player_id }.execute(&mut game).unwrap();
    let item_id = game.inventory.list_items(player_id).unwrap()[0].0;

    let resp = UseItemCommand { player_id, item_id }.execute(&mut game).unwrap();

    assert_eq!(resp.kind, ResponseKind::DiceRoll);
    assert!(resp.message.contains("You earned"));
    assert!(resp.message.contains("/shop"));
    assert!(resp.message.contains("/leaderboard"));
    assert!(game.players.get(player_id).unwrap().tutorial_completed);
}

#[test]
fn test_bootstrap_admin_can_use_admin_command_even_before_persisted_flag() {
    let mut game = game_with_admins(vec![PlayerId::new(7)]);
    game.players.insert(Player::new(PlayerId::new(7))).unwrap();
    let resp = AdminHelpCommand { player_id: PlayerId::new(7) }.execute(&mut game).unwrap();
    assert_eq!(resp.kind, ResponseKind::Success);
}

#[test]
fn test_start_duplicate_player() {
    let mut game = new_game();
    StartCommand { player_id: PlayerId::new(1) }.execute(&mut game).unwrap();
    let resp = StartCommand { player_id: PlayerId::new(1) }.execute(&mut game).unwrap();
    assert_eq!(resp.kind, ResponseKind::Error);
}

#[test]
fn start_messages_are_exact() {
    let mut game = game_with_admins(vec![PlayerId::new(3)]);
    let resp = StartCommand { player_id: PlayerId::new(1) }.execute_with(&mut game, 11).unwrap();
    assert_eq!(
        resp.message,
        "Welcome to Mr Roller! You have been given a starter dice.\n\nUse `/inventory` to see your items, then use `/use` and autocomplete/select your Starter Dice to roll it."
    );
    assert!(game.inventory.get_item(PlayerId::new(1), 11).is_ok());
    let again = StartCommand { player_id: PlayerId::new(1) }.execute_with(&mut game, 12).unwrap();
    assert_eq!(again.kind, ResponseKind::Error);
    assert_eq!(again.message, "You are already in the game.");
    assert_eq!(game.inventory.list_items(PlayerId::new(1)).unwrap().len(), 1);

    // A started bootstrap admin who lost the flag is promoted on start.
    StartCommand { player_id: PlayerId::new(3) }.execute_with(&mut game, 13).unwrap();
    let mut p = game.players.get(PlayerId::new(3)).unwrap();
    p.is_admin = false;
    game.players.update(p).unwrap();
    let promoted = StartCommand { player_id: PlayerId::new(3) }.execute_with(&mut game, 14).unwrap();
    assert_eq!(promoted.kind, ResponseKind::Success);
    assert_eq!(promoted.message, "You are already in the game and have been promoted to admin.");
    assert!(game.players.get(PlayerId::new(3)).unwrap().is_admin);
    assert!(game.inventory.get_item(PlayerId::new(3), 14).is_err());
}

// ── Use item ───────────────────────────────────────────────────────────────

#[test]
fn test_use_item_dice_roll() {
    let mut game = new_game();
    StartCommand { player_id: PlayerId::new(1) }.execute(&mut game).unwrap();
    let item_id = game
        .inventory
        .add_item(PlayerId::new(1), Item::BasicDice(BasicDice::regular_dice()))
        .unwrap();

    let resp = UseItemCommand { player_id: PlayerId::new(1), item_id }.execute(&mut game).unwrap();

    assert_eq!(resp.kind, ResponseKind::DiceRoll);
    let roll = match resp.data {
        Some(ResponseData::Roll(r)) => r as u64,
        _ => panic!("no roll"),
    };
    let player = game.players.get(PlayerId::new(1)).unwrap();
    assert_eq!(player.coins, roll);
    assert_eq!(player.xp, roll);
    let scores = game.leaderboard.get_scores(10).unwrap();
    assert_eq!(scores.len(), 1);
}

#[test]
fn test_second_dice_roll_same_day_is_blocked() {
    let mut game = new_game();
    StartCommand { player_id: PlayerId::new(1) }.execute(&mut game).unwrap();
    let item_id = game
        .inventory
        .add_item(PlayerId::new(1), Item::BasicDice(BasicDice::regular_dice()))
        .unwrap();

    let first = UseItemCommand { player_id: PlayerId::new(1), item_id }.execute(&mut game).unwrap();
    assert_eq!(first.kind, ResponseKind::DiceRoll);

    let second = UseItemCommand { player_id: PlayerId::new(1), item_id }.execute(&mut game).unwrap();
    assert_eq!(second.kind, ResponseKind::Error);
    assert!(second.message.contains("cooldown"));
}

#[test]
fn test_reroll_token_clears_roll_cooldown() {
    let mut game = new_game();
    StartCommand { player_id: PlayerId::new(1) }.execute(&mut game).unwrap();
    let dice_id = game
        .inventory
        .add_item(PlayerId::new(1), Item::BasicDice(BasicDice::regular_dice()))
        .unwrap();
    let token_id = game
        .inventory
        .add_item(PlayerId::new(1), Item::RerollToken(RerollToken::new()))
        .unwrap();

    let first = UseItemCommand { player_id: PlayerId::new(1), item_id: dice_id }
        .execute(&mut game)
        .unwrap();
    assert_eq!(first.kind, ResponseKind::DiceRoll);

    let token = UseItemCommand { player_id: PlayerId::new(1), item_id: token_id }
        .execute(&mut game)
        .unwrap();
    assert_eq!(token.kind, ResponseKind::Success);

    let second_roll = UseItemCommand { player_id: PlayerId::new(1), item_id: dice_id }
        .execute(&mut game)
        .unwrap();
    assert_eq!(second_roll.kind, ResponseKind::DiceRoll);
}

#[test]
fn test_use_item_player_not_found() {
    let mut game = new_game();
    let err = UseItemCommand { player_id: PlayerId::new(999), item_id: uuid::Uuid::new_v4().as_u128() }
        .execute(&mut game)
        .unwrap_err();
    assert!(matches!(err, MrRollerError::PlayerNotFound));
}

#[test]
fn use_item_with_fixed_draw_gives_exact_results() {
    let mut game = new_game();
    let pid = PlayerId::new(1);
    StartCommand { player_id: pid }.execute_with(&mut game, 1).unwrap();
    // The starter dice rolls 2 at noon on 2026-04-28.
    let noon: i64 = 1_777_377_600_000_000;
    let resp = UseItemCommand { player_id: pid, item_id: 1 }
        .execute_with(&mut game, noon, RollOutcome { raw: 2, bonus: false }, 500)
        .unwrap();
    assert_eq!(resp.kind, ResponseKind::DiceRoll);
    assert_eq!(
        resp.message,
        "You rolled a 2!\n\nYou earned 2 XP and 2 gold. XP raises your leaderboard score, and gold can be spent in `/shop` on better dice and useful items. Try `/shop` to see what you can buy, or `/leaderboard` to see the top players."
    );
    let p = game.players.get(pid).unwrap();
    assert_eq!((p.xp, p.coins, p.last_roll_at), (2, 2, Some(noon)));
    let uses = game.item_use_history.list_item_uses(pid, 10).unwrap();
    assert_eq!(uses.len(), 1);
    assert_eq!(uses[0].id, 500);
    assert_eq!(uses[0].item_kind, "basic_dice");
    assert_eq!(uses[0].response_kind, "DiceRoll");
    assert_eq!(uses[0].roll, Some(2));

    // One hour later the cooldown still runs.
    let later = noon + 3_600_000_000;
    let blocked = UseItemCommand { player_id: pid, item_id: 1 }
        .execute_with(&mut game, later, RollOutcome { raw: 1, bonus: false }, 501)
        .unwrap();
    assert_eq!(blocked.message, "You have already rolled. Your roll cooldown is still active.");
    assert_eq!(game.item_use_history.list_item_uses(pid, 10).unwrap().len(), 1);

    // The next day, after midnight UTC, the dice rolls again without the tutorial text.
    let next_day = noon + 13 * 3_600_000_000;
    let again = UseItemCommand { player_id: pid, item_id: 1 }
        .execute_with(&mut game, next_day, RollOutcome { raw: 1, bonus: false }, 502)
        .unwrap();
    assert_eq!(again.message, "You rolled a 1!");
    let p = game.players.get(pid).unwrap();
    assert_eq!((p.xp, p.coins), (3, 3));
    let top = game.leaderboard.get_scores(1).unwrap();
    assert_eq!(top[0].1.xp, 3);
}

#[test]
fn cursed_dice_use_scores_the_cursed_value() {
    let mut game = new_game();
    let pid = PlayerId::new(4);
    game.players.insert(Player::new(pid)).unwrap();
    game.inventory.add_item_with_id(pid, Item::CursedDice(mr_roller::item::CursedDice::new()), 9);
    let resp = UseItemCommand { player_id: pid, item_id: 9 }
        .execute_with(&mut game, 0, RollOutcome { raw: 5, bonus: true }, 1)
        .unwrap();
    assert_eq!(resp.message, "✨ The curse lifted! You rolled 10 (doubled!)");
    assert!(matches!(resp.data, Some(ResponseData::Roll(10))));
    assert_eq!(game.players.get(pid).unwrap().coins, 10);
    // A player who never ran /start gets no tutorial text.
    assert!(!game.players.get(pid).unwrap().tutorial_completed);
}

#[test]
fn reroll_token_is_consumed_and_recorded() {
    let mut game = new_game();
    let pid = PlayerId::new(2);
    game.players.insert(Player::new(pid)).unwrap();
    game.inventory.add_item_with_id(pid, Item::RerollToken(RerollToken::new()), 5);
    let resp = UseItemCommand { player_id: pid, item_id: 5 }
        .execute_with(&mut game, 10, RollOutcome { raw: 0, bonus: false }, 77)
        .unwrap();
    assert_eq!(resp.message, "Reroll token used — your roll cooldown has been reset.");
    assert!(game.inventory.get_item(pid, 5).is_err());
    let uses = game.item_use_history.list_item_uses(pid, 10).unwrap();
    assert_eq!(uses[0].item_kind, "reroll_token");
    assert_eq!(uses[0].response_kind, "Success");
    assert_eq!(uses[0].roll, None);
}

#[test]
fn use_item_missing_item_is_item_not_found() {
    let mut game = new_game();
    game.players.insert(Player::new(PlayerId::new(1))).unwrap();
    let err = UseItemCommand { player_id: PlayerId::new(1), item_id: 3 }.execute(&mut game).unwrap_err();
    assert!(matches!(err, MrRollerError::ItemNotFound));
}

// ── Inventory and leaderboard ──────────────────────────────────────────────

#[test]
fn test_inventory_empty() {
    let mut game = new_game();
    StartCommand { player_id: PlayerId::new(1) }.execute(&mut game).unwrap();
    let resp = InventoryCommand { player_id: PlayerId::new(1) }.execute(&mut game).unwrap();
    assert_eq!(resp.kind, ResponseKind::Inventory);
}

#[test]
fn inventory_messages_and_entries() {
    let mut game = new_game();
    game.players.insert(Player::new(PlayerId::new(1))).unwrap();
    let empty = InventoryCommand { player_id: PlayerId::new(1) }.execute(&mut game).unwrap();
    assert_eq!(empty.message, "Your inventory is empty.");
    game.inventory.add_item_with_id(PlayerId::new(1), Item::BasicDice(BasicDice::regular_dice()), 42);
    let full = InventoryCommand { player_id: PlayerId::new(1) }.execute(&mut game).unwrap();
    assert_eq!(full.message, "Your inventory:");
    match full.data {
        Some(ResponseData::Inventory(v)) => {
            assert_eq!(v.len(), 1);
            assert_eq!(v[0].id, 42);
            assert_eq!(v[0].name, "Regular Dice");
            assert_eq!(v[0].description, "A regular dice with 6 sides");
        }
        _ => panic!("no inventory"),
    }
    let err = InventoryCommand { player_id: PlayerId::new(2) }.execute(&mut game).unwrap_err();
    assert!(matches!(err, MrRollerError::PlayerNotFound));
}

#[test]
fn test_leaderboard_empty() {
    let mut game = new_game();
    let resp = LeaderboardCommand { limit: 10 }.execute(&mut game).unwrap();
    assert_eq!(resp.kind, ResponseKind::Leaderboard);
    assert_eq!(resp.message, "No scores yet.");
}

#[test]
fn leaderboard_lists_best_first() {
    let mut game = new_game();
    for (id, xp, coins) in [(1u64, 5u64, 1u64), (2, 9, 0), (3, 5, 7)] {
        game.leaderboard
            .update_score(PlayerId::new(id), mr_roller::store::leaderboard::Score { xp, coins })
            .unwrap();
    }
    let resp = LeaderboardCommand { limit: 2 }.execute(&mut game).unwrap();
    assert_eq!(resp.message, "Leaderboard:");
    match resp.data {
        Some(ResponseData::Leaderboard(v)) => {
            assert_eq!(v.len(), 2);
            assert_eq!((v[0].player_id, v[0].xp, v[0].coins), (2, 9, 0));
            assert_eq!((v[1].player_id, v[1].xp, v[1].coins), (3, 5, 7));
        }
        _ => panic!("no leaderboard"),
    }
}

// ── Shop ───────────────────────────────────────────────────────────────────

#[test]
fn test_shop_lists_dice_without_reroll_token() {
    let mut game = new_game();
    let resp = ShopCommand.execute(&mut game).unwrap();
    assert_eq!(resp.kind, ResponseKind::Shop);
    let items = match resp.data {
        Some(ResponseData::Shop(v)) => v,
        _ => panic!("no shop"),
    };
    assert!(items.iter().any(|item| item.key == "regular_dice"));
    assert!(items.iter().any(|item| item.key == "lucky_dice"));
    assert!(items.iter().any(|item| item.key == "cursed_dice"));
    assert!(!items.iter().any(|item| item.key == "reroll_token"));
}

#[test]
fn shop_catalog_prices_in_order() {
    let mut game = new_game();
    let resp = ShopCommand.execute(&mut game).unwrap();
    assert_eq!(resp.message, "Shop:");
    let items = match resp.data {
        Some(ResponseData::Shop(v)) => v,
        _ => panic!("no shop"),
    };
    let listed: Vec<(&str, u64, &str)> =
        items.iter().map(|e| (e.key.as_str(), e.price, e.name.as_str())).collect();
    assert_eq!(
        listed,
        vec![
            ("starter_dice", 5, "Starter Dice"),
            ("regular_dice", 25, "Regular Dice"),
            ("lucky_dice", 100, "Lucky Dice"),
            ("cursed_dice", 50, "Cursed Dice"),
        ]
    );
}

#[test]
fn test_buy_item_spends_coins_and_adds_item() {
    let mut game = new_game();
    let mut player = Player::new(PlayerId::new(1));
    player.coins = 100;
    game.players.insert(player).unwrap();

    let resp = BuyItemCommand { player_id: PlayerId::new(1), item: ShopItemKind::LuckyDice }
        .execute(&mut game)
        .unwrap();

    assert_eq!(resp.kind, ResponseKind::Success);
    assert_eq!(game.players.get(PlayerId::new(1)).unwrap().coins, 0);
    let items = game.inventory.list_items(PlayerId::new(1)).unwrap();
    assert_eq!(items.len(), 1);
    assert!(matches!(items[0].1, Item::LuckyDice(_)));
}

#[test]
fn test_buy_item_requires_enough_coins() {
    let mut game = new_game();
    game.players.insert(Player::new(PlayerId::new(1))).unwrap();
    let resp = BuyItemCommand { player_id: PlayerId::new(1), item: ShopItemKind::LuckyDice }
        .execute(&mut game)
        .unwrap();
    assert_eq!(resp.kind, ResponseKind::Error);
    assert!(game.inventory.list_items(PlayerId::new(1)).unwrap().is_empty());
}

#[test]
fn buy_messages_are_exact() {
    let mut game = new_game();
    let mut player = Player::new(PlayerId::new(1));
    player.coins = 30;
    game.players.insert(player).unwrap();
    let short = BuyItemCommand { player_id: PlayerId::new(1), item: ShopItemKind::CursedDice }
        .execute_with(&mut game, 1)
        .unwrap();
    assert_eq!(short.message, "You need 50 coins to buy cursed_dice but only have 30.");
    let ok = BuyItemCommand { player_id: PlayerId::new(1), item: ShopItemKind::RegularDice }
        .execute_with(&mut game, 2)
        .unwrap();
    assert_eq!(ok.message, "Bought Regular Dice for 25 coins. You now have 5 coins.");
    assert_eq!(game.leaderboard.get_scores(10).unwrap()[0].1.coins, 5);
    assert!(game.inventory.get_item(PlayerId::new(1), 2).is_ok());
}

// ── Events ─────────────────────────────────────────────────────────────────

#[test]
fn test_admin_spawn_random_item_event_and_claim() {
    let mut game = new_game();
    add_admin(&mut game, 1);
    game.players.insert(Player::new(PlayerId::new(2))).unwrap();

    let spawned = SpawnRandomItemEventCommand { admin_id: PlayerId::new(1) }.execute(&mut game).unwrap();
    assert_eq!(spawned.kind, ResponseKind::Event);
    let event_id = event_id_of(&spawned.data);

    let claimed = ClaimEventCommand { player_id: PlayerId::new(2), event_id }.execute(&mut game).unwrap();
    assert_eq!(claimed.kind, ResponseKind::Event);
    assert_eq!(game.inventory.list_items(PlayerId::new(2)).unwrap().len(), 1);
    assert!(matches!(
        game.events.get_event(event_id).unwrap().status,
        EventStatus::Claimed { .. }
    ));
}

#[test]
fn test_trash_event_prevents_claim() {
    let mut game = new_game();
    add_admin(&mut game, 1);
    game.players.insert(Player::new(PlayerId::new(2))).unwrap();

    let spawned = SpawnRandomItemEventCommand { admin_id: PlayerId::new(1) }.execute(&mut game).unwrap();
    let event_id = event_id_of(&spawned.data);

    let trashed = TrashEventCommand { player_id: PlayerId::new(2), event_id }.execute(&mut game).unwrap();
    assert_eq!(trashed.kind, ResponseKind::Event);

    let claim = ClaimEventCommand { player_id: PlayerId::new(2), event_id }.execute(&mut game).unwrap();
    assert_eq!(claim.kind, ResponseKind::Error);
    assert!(game.inventory.list_items(PlayerId::new(2)).unwrap().is_empty());
}

#[test]
fn events_with_fixed_time_and_draws() {
    let mut config = EventsConfig::default();
    config.random_item_spawn.items = vec![
        RandomItemSpawnEntry { kind: "lucky".to_string(), weight: 2 },
        RandomItemSpawnEntry { kind: "nothing".to_string(), weight: 0 },
        RandomItemSpawnEntry { kind: "Reroll-Token".to_string(), weight: 3 },
    ];
    let mut game = Game::with_event_store(
        InMemoryPlayerStore::new(),
        InMemoryInventoryStore::new(),
        InMemoryLeaderboardStore::new(),
        InMemoryEventStore::new(),
        vec![],
        config,
    );
    game.players.insert(Player::new(PlayerId::new(2))).unwrap();
    let now: i64 = 1_000_000;
    // Draw 1 falls on the lucky dice (weights 2, 0, 3).
    let spawned = MaybeSpawnRandomItemEventCommand { chance_hit: true }
        .execute_with(&mut game, 1, 700, now)
        .unwrap();
    assert_eq!(spawned.message, "Random item event spawned.");
    match &spawned.data {
        Some(ResponseData::Event(s)) => {
            assert_eq!(s.id, 700);
            assert_eq!(s.title, "Random Item Spawn");
            assert_eq!(s.description, "A Lucky Dice has spawned! Claim it before someone else does.");
            assert_eq!(s.status, "active");
            assert_eq!(s.item_name.as_deref(), Some("Lucky Dice"));
            assert_eq!(s.expires_at, now + 900 * 1_000_000);
        }
        _ => panic!("no event"),
    }
    // The limit of one active event is reached.
    let full = MaybeSpawnRandomItemEventCommand { chance_hit: true }
        .execute_with(&mut game, 2, 701, now + 1)
        .unwrap();
    assert_eq!(full.message, "No event spawned because the active event limit has been reached.");
    assert!(matches!(full.data, Some(ResponseData::Null)));
    // Listing shows the active event.
    let listed = ListActiveEventsCommand.execute_with(&mut game, now + 2).unwrap();
    assert_eq!(listed.message, "Active events:");
    // After expiry the list is empty and claiming fails.
    let late = now + 900 * 1_000_000;
    let none = ListActiveEventsCommand.execute_with(&mut game, late).unwrap();
    assert_eq!(none.message, "No active events.");
    let refused = ClaimEventCommand { player_id: PlayerId::new(2), event_id: 700 }
        .execute_with(&mut game, late, 1)
        .unwrap();
    assert_eq!(refused.message, "This event is no longer active.");
    // Now a new check may spawn: draw 4 falls on the reroll token.
    let again = MaybeSpawnRandomItemEventCommand { chance_hit: true }
        .execute_with(&mut game, 4, 702, late)
        .unwrap();
    match &again.data {
        Some(ResponseData::Event(s)) => assert_eq!(s.item_name.as_deref(), Some("Reroll Token")),
        _ => panic!("no event"),
    }
    let claimed = ClaimEventCommand { player_id: PlayerId::new(2), event_id: 702 }
        .execute_with(&mut game, late + 1, 33)
        .unwrap();
    assert_eq!(claimed.message, "Event claimed.");
    match &claimed.data {
        Some(ResponseData::Event(s)) => {
            assert_eq!(s.status, "claimed");
            assert_eq!(s.actor_id, Some(2));
        }
        _ => panic!("no event"),
    }
    assert!(matches!(game.inventory.get_item(PlayerId::new(2), 33), Ok(Item::RerollToken(_))));
    let twice = ClaimEventCommand { player_id: PlayerId::new(2), event_id: 702 }
        .execute_with(&mut game, late + 2, 34)
        .unwrap();
    assert_eq!(twice.kind, ResponseKind::Error);
    let missing = ClaimEventCommand { player_id: PlayerId::new(2), event_id: 999 }
        .execute_with(&mut game, late, 35)
        .unwrap_err();
    assert!(matches!(missing, MrRollerError::Storage(m) if m == "Event not found"));
}

#[test]
fn maybe_spawn_notices() {
    let mut game = new_game();
    let miss = MaybeSpawnRandomItemEventCommand { chance_hit: false }.execute(&mut game).unwrap();
    assert_eq!(miss.message, "No event spawned.");
    let mut config = EventsConfig::default();
    config.enabled = false;
    let mut off = Game::with_event_store(
        InMemoryPlayerStore::new(),
        InMemoryInventoryStore::new(),
        InMemoryLeaderboardStore::new(),
        InMemoryEventStore::new(),
        vec![],
        config,
    );
    let disabled = MaybeSpawnRandomItemEventCommand { chance_hit: true }.execute(&mut off).unwrap();
    assert_eq!(disabled.message, "Events are disabled.");
}

#[test]
fn spawn_with_bad_configuration_fails() {
    let mut config = EventsConfig::default();
    config.random_item_spawn.items = vec![RandomItemSpawnEntry { kind: "golden".to_string(), weight: 1 }];
    let mut game = Game::with_event_store(
        InMemoryPlayerStore::new(),
        InMemoryInventoryStore::new(),
        InMemoryLeaderboardStore::new(),
        InMemoryEventStore::new(),
        vec![],
        config,
    );
    let err = MaybeSpawnRandomItemEventCommand { chance_hit: true }
        .execute_with(&mut game, 0, 1, 0)
        .unwrap_err();
    assert_eq!(
        err.message(),
        "Storage error: Unknown item 'golden'. Available items: starter_dice, regular_dice, lucky_dice, cursed_dice, reroll_token"
    );
    game.event_config.random_item_spawn.items =
        vec![RandomItemSpawnEntry { kind: "lucky".to_string(), weight: 0 }];
    let err = MaybeSpawnRandomItemEventCommand { chance_hit: true }
        .execute_with(&mut game, 0, 1, 0)
        .unwrap_err();
    assert_eq!(err.message(), "Storage error: Random item spawn has no configured items");
}

// ── Admin ──────────────────────────────────────────────────────────────────

#[test]
fn test_admin_give_item_requires_admin() {
    let mut game = new_game();
    game.players.insert(Player::new(PlayerId::new(1))).unwrap();
    game.players.insert(Player::new(PlayerId::new(2))).unwrap();
    let resp = AdminGiveItemCommand {
        admin_id: PlayerId::new(1),
        target_player_id: PlayerId::new(2),
        item: AdminItemKind::RerollToken,
    }
    .execute(&mut game)
    .unwrap();
    assert_eq!(resp.kind, ResponseKind::Error);
    assert!(game.inventory.list_items(PlayerId::new(2)).unwrap().is_empty());
}

#[test]
fn test_admin_give_item_adds_item_to_target() {
    let mut game = new_game();
    add_admin(&mut game, 1);
    game.players.insert(Player::new(PlayerId::new(2))).unwrap();
    let resp = AdminGiveItemCommand {
        admin_id: PlayerId::new(1),
        target_player_id: PlayerId::new(2),
        item: AdminItemKind::LuckyDice,
    }
    .execute(&mut game)
    .unwrap();
    assert_eq!(resp.kind, ResponseKind::Success);
    let items = game.inventory.list_items(PlayerId::new(2)).unwrap();
    assert_eq!(items.len(), 1);
    assert!(matches!(items[0].1, Item::LuckyDice(_)));
}

#[test]
fn test_admin_give_item_creates_missing_target() {
    let mut game = new_game();
    add_admin(&mut game, 1);
    let resp = AdminGiveItemCommand {
        admin_id: PlayerId::new(1),
        target_player_id: PlayerId::new(99),
        item: AdminItemKind::RerollToken,
    }
    .execute(&mut game)
    .unwrap();
    assert_eq!(resp.kind, ResponseKind::Success);
    assert!(game.players.contains(PlayerId::new(99)).unwrap());
    assert_eq!(game.inventory.list_items(PlayerId::new(99)).unwrap().len(), 1);
}

#[test]
fn admin_give_message_and_receipt() {
    let mut game = new_game();
    add_admin(&mut game, 1);
    let resp = AdminGiveItemCommand {
        admin_id: PlayerId::new(1),
        target_player_id: PlayerId::new(5),
        item: AdminItemKind::CursedDice,
    }
    .execute_with(&mut game, 8)
    .unwrap();
    assert_eq!(resp.message, "Gave Cursed Dice to player 5.");
    match resp.data {
        Some(ResponseData::ItemGranted { player_id, item_id, item_name }) => {
            assert_eq!((player_id, item_id, item_name.as_str()), (5, 8, "Cursed Dice"));
        }
        _ => panic!("no receipt"),
    }
}

#[test]
fn test_admin_adjust_coins_adds_and_removes_coins() {
    let mut game = new_game();
    add_admin(&mut game, 1);
    game.players.insert(Player::new(PlayerId::new(2))).unwrap();
    AdminAdjustCoinsCommand { admin_id: PlayerId::new(1), target_player_id: PlayerId::new(2), amount: 25 }
        .execute(&mut game)
        .unwrap();
    let resp = AdminAdjustCoinsCommand {
        admin_id: PlayerId::new(1),
        target_player_id: PlayerId::new(2),
        amount: -10,
    }
    .execute(&mut game)
    .unwrap();
    assert_eq!(resp.kind, ResponseKind::Success);
    assert_eq!(resp.message, "Player 2 now has 15 coins.");
    assert_eq!(game.players.get(PlayerId::new(2)).unwrap().coins, 15);
}

#[test]
fn test_admin_adjust_coins_cannot_remove_more_than_player_has() {
    let mut game = new_game();
    add_admin(&mut game, 1);
    game.players.insert(Player::new(PlayerId::new(2))).unwrap();
    let resp = AdminAdjustCoinsCommand {
        admin_id: PlayerId::new(1),
        target_player_id: PlayerId::new(2),
        amount: -1,
    }
    .execute(&mut game)
    .unwrap();
    assert_eq!(resp.kind, ResponseKind::Error);
    assert_eq!(resp.message, "Player 2 only has 0 coins.");
    assert_eq!(game.players.get(PlayerId::new(2)).unwrap().coins, 0);
}

#[test]
fn test_admin_set_admin_updates_target() {
    let mut game = new_game();
    add_admin(&mut game, 1);
    game.players.insert(Player::new(PlayerId::new(2))).unwrap();
    let resp = AdminSetAdminCommand {
        admin_id: PlayerId::new(1),
        target_player_id: PlayerId::new(2),
        is_admin: true,
    }
    .execute(&mut game)
    .unwrap();
    assert_eq!(resp.kind, ResponseKind::Success);
    assert_eq!(resp.message, "Player 2 is now an admin.");
    assert!(game.players.get(PlayerId::new(2)).unwrap().is_admin);
    let revoke = AdminSetAdminCommand {
        admin_id: PlayerId::new(1),
        target_player_id: PlayerId::new(2),
        is_admin: false,
    }
    .execute(&mut game)
    .unwrap();
    assert_eq!(revoke.message, "Player 2 is now not an admin.");
}

#[test]
fn admin_help_and_refusals() {
    let mut game = new_game();
    add_admin(&mut game, 1);
    game.players.insert(Player::new(PlayerId::new(2))).unwrap();
    let help = AdminHelpCommand { player_id: PlayerId::new(1) }.execute(&mut game).unwrap();
    assert_eq!(
        help.message,
        "Admin commands:\n  /admin give <player-id> <item>\n  /admin coins <player-id> <amount>\n  /admin event spawn-random-item\n  /admin set-admin <player-id> <true|false>\nItems: starter_dice, regular_dice, lucky_dice, cursed_dice, reroll_token"
    );
    let denied = AdminHelpCommand { player_id: PlayerId::new(2) }.execute(&mut game).unwrap();
    assert_eq!(denied.message, "You do not have permission to use admin commands.");
    let unknown = AdminHelpCommand { player_id: PlayerId::new(3) }.execute(&mut game).unwrap_err();
    assert!(matches!(unknown, MrRollerError::PlayerNotFound));
}

#[test]
fn game_execute_turns_errors_into_responses() {
    let mut game = new_game();
    let resp = game.execute(InventoryCommand { player_id: PlayerId::new(3) });
    assert_eq!(resp.kind, ResponseKind::Error);
    assert_eq!(resp.message, "Player not found");
    assert!(resp.data.is_none());
}

#[test]
fn leaderboard_follows_players() {
    let mut game = new_game();
    add_admin(&mut game, 1);
    let pid = PlayerId::new(2);
    StartCommand { player_id: pid }.execute_with(&mut game, 10).unwrap();
    UseItemCommand { player_id: pid, item_id: 10 }
        .execute_with(&mut game, 0, RollOutcome { raw: 2, bonus: false }, 1)
        .unwrap();
    AdminAdjustCoinsCommand { admin_id: PlayerId::new(1), target_player_id: pid, amount: 40 }
        .execute(&mut game)
        .unwrap();
    BuyItemCommand { player_id: pid, item: ShopItemKind::RegularDice }.execute(&mut game).unwrap();
    let p = game.players.get(pid).unwrap();
    let top = game.leaderboard.get_scores(10).unwrap();
    assert_eq!(top.len(), 1);
    assert_eq!((top[0].0, top[0].1.xp, top[0].1.coins), (pid, p.xp, p.coins));
    assert_eq!((p.xp, p.coins), (2, 17));
}

#[test]
fn maybe_spawn_at_limit_does_not_sum_weights() {
    let mut config = EventsConfig::default();
    config.random_item_spawn.items = vec![RandomItemSpawnEntry { kind: "lucky".to_string(), weight: 1 }];
    let mut game = Game::with_event_store(
        InMemoryPlayerStore::new(),
        InMemoryInventoryStore::new(),
        InMemoryLeaderboardStore::new(),
        InMemoryEventStore::new(),
        vec![],
        config,
    );
    let now: i64 = 5_000_000;
    MaybeSpawnRandomItemEventCommand { chance_hit: true }
        .execute_with(&mut game, 0, 800, now)
        .unwrap();
    // Weights that overflow u32 once summed: the limit answers first.
    game.event_config.random_item_spawn.items = vec![
        RandomItemSpawnEntry { kind: "lucky".to_string(), weight: u32::MAX },
        RandomItemSpawnEntry { kind: "cursed".to_string(), weight: u32::MAX },
    ];
    let full = MaybeSpawnRandomItemEventCommand { chance_hit: true }
        .execute_with(&mut game, 7, 801, now + 1)
        .unwrap();
    assert_eq!(full.kind, ResponseKind::Event);
    assert_eq!(full.message, "No event spawned because the active event limit has been reached.");
    assert!(matches!(full.data, Some(ResponseData::Null)));
    assert_eq!(game.events.list_events().unwrap().len(), 1);

    game.event_config.enabled = false;
    let check = MaybeSpawnRandomItemEventCommand { chance_hit: true };
    assert!(check.is_runnable(&game));
    let off = check.execute(&mut game).unwrap();
    assert_eq!(off.message, "Events are disabled.");
}
