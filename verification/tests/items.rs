use mr_roller::local::Dice;
use mr_roller::item::{BasicDice, CursedDice, GameItem, Item, LuckyDice, RerollToken, RollOutcome};
use mr_roller::player::{Player, PlayerId};
use mr_roller::response::{ResponseData, ResponseKind};

fn roll_of(data: Option<ResponseData>) -> u64 {
    match data {
        Some(ResponseData::Roll(r)) => r as u64,
        _ => panic!("no roll"),
    }
}

#[test]
fn test_basic_dice() {
    let dice = BasicDice::regular_dice();
    assert_eq!(dice.min_roll, 1);
    assert_eq!(dice.max_roll, 6);
}

#[test]
fn test_display_basic_dice() {
    let dice = BasicDice::regular_dice();
    assert_eq!(dice.display(), "Regular Dice: A regular dice with 6 sides");
}

#[test]
fn test_handle_returns_dice_roll() {
    let dice = BasicDice::starter_dice();
    let resp = dice.handle();
    assert_eq!(resp.kind, ResponseKind::DiceRoll);
    assert!(resp.data.is_some());
    let roll = roll_of(resp.data);
    assert!(roll == 1 || roll == 2);
}

#[test]
fn test_cursed_dice_returns_dice_roll() {
    let dice = CursedDice::new();
    let resp = dice.handle();
    assert_eq!(resp.kind, ResponseKind::DiceRoll);
}

#[test]
fn test_lucky_dice_returns_dice_roll() {
    let dice = LuckyDice::new();
    let resp = dice.handle();
    assert_eq!(resp.kind, ResponseKind::DiceRoll);
    let roll = roll_of(resp.data);
    assert!((1..=20).contains(&roll));
}

#[test]
fn test_reroll_token() {
    let token = RerollToken::new();
    assert_eq!(token.amount, 1);
}

#[test]
fn test_reroll_token_display() {
    let token = RerollToken::new();
    assert_eq!(token.display(), "Reroll Token: A token that allows you to reroll a dice");
}

#[test]
fn test_handle() {
    let token = RerollToken::new();
    let resp = token.handle();
    assert_eq!(resp.kind, ResponseKind::Success);
}

#[test]
fn test_player_id() {
    let id = PlayerId::new(1);
    assert_eq!(id, PlayerId(1));
}

#[test]
fn test_player() {
    let id = PlayerId::new(1);
    let player = Player::new(id);
    assert_eq!(player.id, PlayerId(1));
    assert_eq!(player.coins, 0);
    assert_eq!(player.xp, 0);
    assert!(player.last_roll_at.is_none());
}

#[test]
fn roll_messages_are_exact() {
    let regular = BasicDice::regular_dice();
    assert_eq!(regular.roll_response(4).message, "You rolled a 4!");
    let lucky = LuckyDice::new();
    assert_eq!(lucky.roll_response(20).message, "🎉 NAT 20! Maximum luck!");
    assert_eq!(lucky.roll_response(1).message, "💀 Critical fail... better luck next time.");
    assert_eq!(lucky.roll_response(13).message, "You rolled a 13 on the Lucky Dice!");
    let cursed = CursedDice::new();
    let halved = cursed.roll_response(5, false);
    assert_eq!(halved.message, "👻 Cursed! You rolled 2 (halved from 5)");
    assert_eq!(roll_of(halved.data), 2);
    let floor = cursed.roll_response(1, false);
    assert_eq!(floor.message, "👻 Cursed! You rolled 1 (halved from 1)");
    let doubled = cursed.roll_response(6, true);
    assert_eq!(roll_of(doubled.data), 12);
}

#[test]
fn item_names_kinds_and_daily_roll() {
    let items = vec![
        Item::BasicDice(BasicDice::starter_dice()),
        Item::LuckyDice(LuckyDice::default()),
        Item::CursedDice(CursedDice::default()),
        Item::from(RerollToken::default()),
    ];
    let names: Vec<&str> = items.iter().map(|i| i.name()).collect();
    assert_eq!(names, vec!["Starter Dice", "Lucky Dice", "Cursed Dice", "Reroll Token"]);
    let kinds: Vec<&str> = items.iter().map(mr_roller::item::item_kind).collect();
    assert_eq!(kinds, vec!["basic_dice", "lucky_dice", "cursed_dice", "reroll_token"]);
    let daily: Vec<bool> = items.iter().map(|i| i.consumes_daily_roll()).collect();
    assert_eq!(daily, vec![true, true, true, false]);
    assert_eq!(items[3].description(), "A token that allows you to reroll a dice");
    let r = items[0].handle_with(RollOutcome { raw: 2, bonus: false });
    assert_eq!(r.message, "You rolled a 2!");
    assert!(items[1].clone().lucky_dice().is_some());
    assert!(items[1].clone().basic_dice().is_none());
}

#[test]
fn basic_dice_rolls_within_its_faces() {
    let dice = BasicDice::starter_dice();
    for _ in 0..20 {
        let r = dice.roll();
        assert!(r == 1 || r == 2);
    }
}
