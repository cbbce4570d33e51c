use mr_roller::store::{EventStore, InventoryStore, ItemUseHistoryStore};
use mr_roller::errors::MrRollerError;
use mr_roller::item::{BasicDice, Item};
use mr_roller::local::{init, Inventory};
use mr_roller::player::{Player, PlayerId};
use mr_roller::store::history::{InMemoryItemUseHistoryStore, ItemUseRecord};
use mr_roller::store::inventory::InMemoryInventoryStore;
use mr_roller::store::leaderboard::{InMemoryLeaderboardStore, Score};
use mr_roller::store::player::InMemoryPlayerStore;

fn make_player(id: u64) -> Player {
    Player::new(PlayerId::new(id))
}

#[test]
fn test_insert_and_get() {
    let mut store = InMemoryPlayerStore::new();
    let player = make_player(1);
    store.insert(player.clone()).unwrap();
    let got = store.get(PlayerId::new(1)).unwrap();
    assert_eq!(got.id, PlayerId::new(1));
}

#[test]
fn test_duplicate_insert() {
    let mut store = InMemoryPlayerStore::new();
    store.insert(make_player(1)).unwrap();
    let err = store.insert(make_player(1)).unwrap_err();
    assert!(matches!(err, MrRollerError::PlayerAlreadyInGame));
}

#[test]
fn test_get_not_found() {
    let store = InMemoryPlayerStore::new();
    let err = store.get(PlayerId::new(999)).unwrap_err();
    assert!(matches!(err, MrRollerError::PlayerNotFound));
}

#[test]
fn test_contains() {
    let mut store = InMemoryPlayerStore::new();
    assert!(!store.contains(PlayerId::new(1)).unwrap());
    store.insert(make_player(1)).unwrap();
    assert!(store.contains(PlayerId::new(1)).unwrap());
}

#[test]
fn test_all() {
    let mut store = InMemoryPlayerStore::new();
    store.insert(make_player(1)).unwrap();
    store.insert(make_player(2)).unwrap();
    let all = store.all().unwrap();
    assert_eq!(all.len(), 2);
}

#[test]
fn test_remove() {
    let mut store = InMemoryPlayerStore::new();
    store.insert(make_player(1)).unwrap();
    store.remove(PlayerId::new(1)).unwrap();
    assert!(!store.contains(PlayerId::new(1)).unwrap());
}

#[test]
fn player_test_remove_not_found() {
    let mut store = InMemoryPlayerStore::new();
    let err = store.remove(PlayerId::new(999)).unwrap_err();
    assert!(matches!(err, MrRollerError::PlayerNotFound));
}

#[test]
fn update_requires_a_stored_player() {
    let mut store = InMemoryPlayerStore::new();
    let mut p = make_player(4);
    assert!(matches!(store.update(p).unwrap_err(), MrRollerError::PlayerNotFound));
    store.insert(p).unwrap();
    p.coins = 9;
    store.update(p).unwrap();
    assert_eq!(store.get(PlayerId::new(4)).unwrap().coins, 9);
}

#[test]
fn inventory_test_add_and_get_item() {
    let mut store = InMemoryInventoryStore::new();
    let pid = PlayerId::new(1);
    let item = Item::BasicDice(BasicDice::regular_dice());
    let item_id = store.add_item(pid, item).unwrap();
    let got = store.get_item(pid, item_id).unwrap();
    assert!(matches!(got, Item::BasicDice(_)));
}

#[test]
fn test_get_item_not_found() {
    let store = InMemoryInventoryStore::new();
    let err = store.get_item(PlayerId::new(1), uuid::Uuid::new_v4().as_u128()).unwrap_err();
    assert!(matches!(err, MrRollerError::ItemNotFound));
}

#[test]
fn test_list_items() {
    let mut store = InMemoryInventoryStore::new();
    let pid = PlayerId::new(1);
    store.add_item(pid, Item::BasicDice(BasicDice::regular_dice())).unwrap();
    store.add_item(pid, Item::BasicDice(BasicDice::starter_dice())).unwrap();
    let items = store.list_items(pid).unwrap();
    assert_eq!(items.len(), 2);
}

#[test]
fn test_remove_item() {
    let mut store = InMemoryInventoryStore::new();
    let pid = PlayerId::new(1);
    let item_id = store.add_item(pid, Item::BasicDice(BasicDice::regular_dice())).unwrap();
    store.remove_item(pid, item_id).unwrap();
    let err = store.get_item(pid, item_id).unwrap_err();
    assert!(matches!(err, MrRollerError::ItemNotFound));
}

#[test]
fn inventory_test_remove_not_found() {
    let mut store = InMemoryInventoryStore::new();
    let err = store.remove_item(PlayerId::new(1), uuid::Uuid::new_v4().as_u128()).unwrap_err();
    assert!(matches!(err, MrRollerError::ItemNotFound));
}

#[test]
fn test_update_and_get_scores() {
    let mut store = InMemoryLeaderboardStore::new();
    store.update_score(PlayerId::new(1), Score { xp: 100, coins: 10 }).unwrap();
    store.update_score(PlayerId::new(2), Score { xp: 200, coins: 5 }).unwrap();
    let top = store.get_scores(10).unwrap();
    assert_eq!(top.len(), 2);
    assert_eq!(top[0].0, PlayerId::new(2));
    assert_eq!(top[1].0, PlayerId::new(1));
}

#[test]
fn test_get_scores_respects_limit() {
    let mut store = InMemoryLeaderboardStore::new();
    for i in 0..5 {
        store.update_score(PlayerId::new(i), Score { xp: i * 10, coins: 0 }).unwrap();
    }
    let top = store.get_scores(3).unwrap();
    assert_eq!(top.len(), 3);
}

#[test]
fn test_empty_leaderboard() {
    let store = InMemoryLeaderboardStore::new();
    let top = store.get_scores(10).unwrap();
    assert!(top.is_empty());
}

#[test]
fn scores_tie_break_on_coins() {
    let mut store = InMemoryLeaderboardStore::new();
    store.update_score(PlayerId::new(1), Score { xp: 50, coins: 1 }).unwrap();
    store.update_score(PlayerId::new(2), Score { xp: 50, coins: 8 }).unwrap();
    store.update_score(PlayerId::new(3), Score { xp: 10, coins: 99 }).unwrap();
    store.update_score(PlayerId::new(1), Score { xp: 60, coins: 0 }).unwrap();
    let top = store.get_scores(10).unwrap();
    let ids: Vec<u64> = top.iter().map(|(p, _)| p.0).collect();
    assert_eq!(ids, vec![1, 2, 3]);
}

fn record(id: u128, player: u64, used_at: i64) -> ItemUseRecord {
    ItemUseRecord::new_with_id(
        id,
        PlayerId::new(player),
        7,
        "Regular Dice".to_string(),
        "basic_dice".to_string(),
        Item::BasicDice(BasicDice::regular_dice()),
        "DiceRoll".to_string(),
        Some(3),
        used_at,
    )
}

#[test]
fn history_lists_recent_uses_first() {
    let mut history = InMemoryItemUseHistoryStore::new();
    history.record_item_use(record(1, 1, 100)).unwrap();
    history.record_item_use(record(2, 2, 150)).unwrap();
    history.record_item_use(record(3, 1, 300)).unwrap();
    history.record_item_use(record(4, 1, 200)).unwrap();
    let uses = history.list_item_uses(PlayerId::new(1), 2).unwrap();
    let ids: Vec<u128> = uses.iter().map(|r| r.id).collect();
    assert_eq!(ids, vec![3, 4]);
    assert!(history.list_item_uses(PlayerId::new(9), 5).unwrap().is_empty());
}

#[test]
fn test_add_and_get_item() {
    let mut inventory = Inventory::local_inventory();
    let item = Item::BasicDice(BasicDice::regular_dice());
    let item_id = inventory.add_item(item);
    match inventory.get_item(item_id).unwrap() {
        Item::BasicDice(dice) => assert_eq!(dice.name, "Regular Dice"),
        _ => panic!("Item is not a dice"),
    }
}

#[test]
fn local_state_keeps_players() {
    let mut state = init();
    assert!(matches!(state.get_player(PlayerId::new(3)), Err(MrRollerError::PlayerNotFound)));
    state.add_player(make_player(3)).unwrap();
    assert_eq!(state.get_player(PlayerId::new(3)).unwrap().id, PlayerId::new(3));
    assert!(matches!(state.get_player_mut(PlayerId::new(4)), Err(MrRollerError::PlayerNotFound)));
    let before = state.get_player(PlayerId::new(3)).unwrap();
    state.get_player_mut(PlayerId::new(3)).unwrap().coins = before.coins + 25;
    let after = state.get_player(PlayerId::new(3)).unwrap();
    assert_eq!(after.coins, before.coins + 25);
    assert_eq!(after.xp, before.xp);
    let mut inventory = Inventory::local_inventory();
    inventory.add_item_with_id(Item::BasicDice(BasicDice::starter_dice()), 1);
    inventory.add_item_with_id(Item::BasicDice(BasicDice::regular_dice()), 2);
    assert_eq!(inventory.list_items().len(), 2);
}

fn stored_players<S: mr_roller::store::PlayerStore>(store: &S) -> usize {
    store.all().unwrap().len()
}

fn top_score<S: mr_roller::store::LeaderboardStore>(store: &S) -> Option<u64> {
    store.get_scores(1).unwrap().first().map(|(_, s)| s.xp)
}

#[test]
fn stores_through_their_traits() {
    let mut players = InMemoryPlayerStore::new();
    mr_roller::store::PlayerStore::insert(&mut players, make_player(1)).unwrap();
    assert_eq!(stored_players(&players), 1);
    let mut board = InMemoryLeaderboardStore::new();
    mr_roller::store::LeaderboardStore::update_score(&mut board, PlayerId::new(1), Score { xp: 3, coins: 0 }).unwrap();
    assert_eq!(top_score(&board), Some(3));
    let mut inventory = InMemoryInventoryStore::new();
    let id = InventoryStore::add_item(&mut inventory, PlayerId::new(1), Item::BasicDice(BasicDice::regular_dice())).unwrap();
    assert_eq!(InventoryStore::list_items(&inventory, PlayerId::new(1)).unwrap()[0].0, id);
    let events = mr_roller::store::event::InMemoryEventStore::new();
    assert!(EventStore::list_events(&events).unwrap().is_empty());
    let history = InMemoryItemUseHistoryStore::new();
    assert!(ItemUseHistoryStore::list_item_uses(&history, PlayerId::new(1), 3).unwrap().is_empty());
}
