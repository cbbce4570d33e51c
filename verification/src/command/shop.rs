//! `/shop` and `/buy`: the catalog and spending coins on it.

use vstd::prelude::*;
use crate::command::kinds::{
    is_catalog_entry, shop_catalog, shop_key_spec, shop_kinds_spec, shop_price_spec, ShopItemKind,
};
use crate::command::{
    is_refusal, is_success, leaderboard_score, leaderboard_score_spec, stores_are, untouched,
    with_item, Command,
};
use crate::errors::MrRollerError;
use crate::game::{scores_consistent, Game};
use crate::item::Item;
use crate::player::{Player, PlayerId};
use crate::response::{Response, ResponseData, ResponseKind, ShopEntry};
use crate::sources::new_uuid;
use crate::store::inventory::ItemId;
use crate::text::{decimal, owned, push_decimal, push_str};

verus! {

/// The name of the item a kind sells.
pub open spec fn shop_name_spec(kind: ShopItemKind) -> Seq<char> {
    match kind {
        ShopItemKind::StarterDice => "Starter Dice"@,
        ShopItemKind::RegularDice => "Regular Dice"@,
        ShopItemKind::LuckyDice => "Lucky Dice"@,
        ShopItemKind::CursedDice => "Cursed Dice"@,
    }
}

/// The description of the item a kind sells.
pub open spec fn shop_description_spec(kind: ShopItemKind) -> Seq<char> {
    match kind {
        ShopItemKind::StarterDice => "A dice with only 2 sides. dice or coin?"@,
        ShopItemKind::RegularDice => "A regular dice with 6 sides"@,
        ShopItemKind::LuckyDice => "A 20-sided dice. High risk, high reward!"@,
        ShopItemKind::CursedDice => "A hexed dice. Rolls are halved but you might get a bonus."@,
    }
}

/// Whether `e` is the shop listing of `kind`.
pub open spec fn is_shop_entry(e: ShopEntry, kind: ShopItemKind) -> bool {
    &&& e.key@ == shop_key_spec(kind)
    &&& e.name@ == shop_name_spec(kind)
    &&& e.description@ == shop_description_spec(kind)
    &&& e.price == shop_price_spec(kind)
}

// ── Shop ───────────────────────────────────────────────────────────────────

pub struct ShopCommand;

impl Command for ShopCommand {
    open spec fn runnable(&self, game: Game) -> bool {
        true
    }

    /// The catalog, in order: key, item name, description and price.
    open spec fn outcome(&self, pre: Game, post: Game, r: Result<Response, MrRollerError>) -> bool {
        &&& untouched(pre, post)
        &&& r matches Ok(resp) && {
            &&& resp.kind == ResponseKind::Shop
            &&& resp.message@ == "Shop:"@
            &&& resp.data matches Some(ResponseData::Shop(v)) && v@.len() == 4 && forall|i: int|
                0 <= i < 4 ==> is_shop_entry(#[trigger] v@[i], shop_kinds_spec()[i])
        }
    }

    fn execute(self, game: &mut Game) -> (r: Result<Response, MrRollerError>) {
        let catalog = shop_catalog();
        let mut entries: Vec<ShopEntry> = Vec::new();
        let mut i: usize = 0;
        while i < catalog.len()
            invariant
                i <= 4,
                catalog@.len() == 4,
                forall|j: int| 0 <= j < 4 ==> is_catalog_entry(#[trigger] catalog@[j], shop_kinds_spec()[j]),
                entries@.len() == i,
                forall|j: int| 0 <= j < i ==> is_shop_entry(#[trigger] entries@[j], shop_kinds_spec()[j]),
            decreases 4 - i,
        {
            let entry = catalog[i];
            proof {
                assert(is_catalog_entry(catalog@[i as int], shop_kinds_spec()[i as int]));
            }
            let item = entry.item.into_item();
            entries.push(
                ShopEntry {
                    key: owned(entry.key),
                    name: owned(item.name()),
                    description: owned(item.description()),
                    price: entry.price,
                },
            );
            i = i + 1;
        }
        Ok(Response::shop(owned("Shop:"), entries))
    }
}

// ── BuyItem ────────────────────────────────────────────────────────────────

pub struct BuyItemCommand {
    pub player_id: PlayerId,
    pub item: ShopItemKind,
}

/// The record `p` after paying `price` coins.
pub open spec fn paid(p: Player, price: u64) -> Player {
    Player {
        id: p.id,
        last_roll_at: p.last_roll_at,
        luck: p.luck,
        coins: (p.coins - price) as u64,
        xp: p.xp,
        has_started: p.has_started,
        tutorial_completed: p.tutorial_completed,
        is_admin: p.is_admin,
    }
}

/// What buying `kind` does for player `id`, the item stored under `item_id`:
/// a player short of the price is refused and nothing changes; otherwise
/// the price is paid, the item added and the leaderboard follows.
pub open spec fn buy_spec(
    pre: Game,
    post: Game,
    id: PlayerId,
    kind: ShopItemKind,
    item_id: ItemId,
    r: Result<Response, MrRollerError>,
) -> bool {
    let price = shop_price_spec(kind);
    if !pre.players@.contains_key(id.0) {
        untouched(pre, post) && (r matches Err(e) && e is PlayerNotFound)
    } else {
        let p = pre.players@[id.0];
        if p.coins < price {
            &&& untouched(pre, post)
            &&& r matches Ok(resp) && is_refusal(
                resp,
                "You need "@ + decimal(price as nat) + " coins to buy "@ + shop_key_spec(kind)
                    + " but only have "@ + decimal(p.coins as nat) + "."@,
            )
        } else {
            let q = paid(p, price);
            &&& exists|item: Item|
                kind.sells(item) && post.inventory@ == with_item(pre.inventory@, id.0, item_id, item)
            &&& stores_are(
                pre,
                post,
                pre.players@.insert(id.0, q),
                post.inventory@,
                pre.leaderboard@.insert(id.0, leaderboard_score_spec(q)),
                pre.events@,
                pre.item_use_history@,
            )
            &&& r matches Ok(resp) && is_success(
                resp,
                "Bought "@ + shop_name_spec(kind) + " for "@ + decimal(price as nat)
                    + " coins. You now have "@ + decimal(q.coins as nat) + " coins."@,
            )
        }
    }
}

impl BuyItemCommand {
    /// Buys the item, storing it under `item_id`.
    pub fn execute_with(self, game: &mut Game, item_id: ItemId) -> (r: Result<Response, MrRollerError>)
        ensures
            buy_spec(*old(game), *final(game), self.player_id, self.item, item_id, r),
            scores_consistent(*old(game)) ==> scores_consistent(*final(game)),
    {
        let id = self.player_id;
        let mut player = match game.players.get(id) {
            Ok(p) => p,
            Err(e) => return Err(e),
        };
        let catalog_entry = self.item.catalog_entry();
        if player.coins < catalog_entry.price {
            let mut message = owned("You need ");
            push_decimal(&mut message, catalog_entry.price);
            push_str(&mut message, " coins to buy ");
            push_str(&mut message, catalog_entry.key);
            push_str(&mut message, " but only have ");
            push_decimal(&mut message, player.coins);
            push_str(&mut message, ".");
            return Ok(Response::error(message));
        }
        let item = self.item.into_item();
        let ghost bought = item;
        let item_name = owned(item.name());
        player.coins = player.coins - catalog_entry.price;
        match game.players.update(player) {
            Ok(()) => {},
            Err(e) => return Err(e),
        }
        game.inventory.add_item_with_id(id, item, item_id);
        match game.leaderboard.update_score(id, leaderboard_score(&player)) {
            Ok(()) => {},
            Err(e) => return Err(e),
        }
        let mut message = owned("Bought ");
        push_str(&mut message, item_name.as_str());
        push_str(&mut message, " for ");
        push_decimal(&mut message, catalog_entry.price);
        push_str(&mut message, " coins. You now have ");
        push_decimal(&mut message, player.coins);
        push_str(&mut message, " coins.");
        proof {
            assert(self.item.sells(bought));
        }
        Ok(Response::success(message))
    }
}

impl Command for BuyItemCommand {
    open spec fn runnable(&self, game: Game) -> bool {
        true
    }

    open spec fn outcome(&self, pre: Game, post: Game, r: Result<Response, MrRollerError>) -> bool {
        exists|item_id: ItemId| buy_spec(pre, post, self.player_id, self.item, item_id, r)
    }

    fn execute(self, game: &mut Game) -> (r: Result<Response, MrRollerError>) {
        let item_id = new_uuid();
        self.execute_with(game, item_id)
    }
}

} // verus!
