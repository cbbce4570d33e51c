//! `/inventory` and `/leaderboard`: listings that change nothing.

use vstd::prelude::*;
use crate::command::{untouched, Command};
use crate::errors::MrRollerError;
use crate::game::Game;
use crate::item::Item;
use crate::player::PlayerId;
use crate::response::{InventoryEntry, LeaderboardEntry, Response, ResponseData, ResponseKind};
use crate::store::inventory::{items_of, ItemId};
use crate::store::leaderboard::{is_top_scores, Score};
use crate::text::owned;

verus! {

// ── Inventory ──────────────────────────────────────────────────────────────

pub struct InventoryCommand {
    pub player_id: PlayerId,
}

/// Whether `v` lists the items `items`, each once, with its id, name and
/// description (in no particular order).
pub open spec fn lists_items(v: Seq<InventoryEntry>, items: Map<ItemId, Item>) -> bool {
    &&& v.len() == items.dom().len()
    &&& forall|i: int|
        0 <= i < v.len() ==> #[trigger] items.contains_key(v[i].id) && v[i].name@ == items[v[i].id].name_spec()
            && v[i].description@ == items[v[i].id].description_spec()
    &&& forall|i: int, j: int| 0 <= i < j < v.len() ==> #[trigger] v[i].id != #[trigger] v[j].id
}

impl Command for InventoryCommand {
    open spec fn runnable(&self, game: Game) -> bool {
        true
    }

    open spec fn outcome(&self, pre: Game, post: Game, r: Result<Response, MrRollerError>) -> bool {
        &&& untouched(pre, post)
        &&& if !pre.players@.contains_key(self.player_id.0) {
            r matches Err(e) && e is PlayerNotFound
        } else {
            let items = items_of(pre.inventory@, self.player_id.0);
            r matches Ok(resp) && {
                &&& resp.kind == ResponseKind::Inventory
                &&& resp.message@ == if items.dom().len() == 0 {
                    "Your inventory is empty."@
                } else {
                    "Your inventory:"@
                }
                &&& resp.data matches Some(ResponseData::Inventory(v)) && lists_items(v@, items)
            }
        }
    }

    fn execute(self, game: &mut Game) -> (r: Result<Response, MrRollerError>) {
        match game.players.get(self.player_id) {
            Ok(_) => {},
            Err(e) => return Err(e),
        }
        let items = match game.inventory.list_items(self.player_id) {
            Ok(v) => v,
            Err(e) => return Err(e),
        };
        let ghost held = items_of(game.inventory@, self.player_id.0);
        let mut entries: Vec<InventoryEntry> = Vec::new();
        let mut i: usize = 0;
        while i < items.len()
            invariant
                i <= items@.len(),
                items@.len() == held.dom().len(),
                forall|j: int|
                    0 <= j < items@.len() ==> #[trigger] held.contains_key(items@[j].0) && held[items@[j].0]
                        == items@[j].1,
                forall|a: int, b: int|
                    0 <= a < b < items@.len() ==> #[trigger] items@[a].0 != #[trigger] items@[b].0,
                entries@.len() == i,
                forall|j: int|
                    0 <= j < i ==> #[trigger] entries@[j].id == items@[j].0 && entries@[j].name@
                        == items@[j].1.name_spec() && entries@[j].description@
                        == items@[j].1.description_spec(),
            decreases items@.len() - i,
        {
            let (id, item) = &items[i];
            entries.push(
                InventoryEntry {
                    id: *id,
                    name: owned(item.name()),
                    description: owned(item.description()),
                },
            );
            i = i + 1;
        }
        proof {
            assert forall|a: int, b: int| 0 <= a < b < entries@.len() implies #[trigger] entries@[a].id
                != #[trigger] entries@[b].id by {
                assert(items@[a].0 != items@[b].0);
            }
            assert forall|j: int| 0 <= j < entries@.len() implies #[trigger] held.contains_key(entries@[j].id)
                && entries@[j].name@ == held[entries@[j].id].name_spec() && entries@[j].description@
                == held[entries@[j].id].description_spec() by {
                assert(held.contains_key(items@[j].0));
            }
        }
        if entries.len() == 0 {
            Ok(Response::inventory(owned("Your inventory is empty."), entries))
        } else {
            Ok(Response::inventory(owned("Your inventory:"), entries))
        }
    }
}

// ── Leaderboard ────────────────────────────────────────────────────────────

pub struct LeaderboardCommand {
    pub limit: usize,
}

/// The row showing a ranked score.
pub open spec fn row_of(e: (PlayerId, Score)) -> LeaderboardEntry {
    LeaderboardEntry { player_id: e.0.0, xp: e.1.xp, coins: e.1.coins }
}

impl Command for LeaderboardCommand {
    open spec fn runnable(&self, game: Game) -> bool {
        true
    }

    /// The best `limit` scores, best first, as `get_scores` ranks them.
    open spec fn outcome(&self, pre: Game, post: Game, r: Result<Response, MrRollerError>) -> bool {
        &&& untouched(pre, post)
        &&& exists|ranked: Seq<(PlayerId, Score)>|
            {
                &&& is_top_scores(ranked, pre.leaderboard@, self.limit as int)
                &&& r matches Ok(resp) && {
                    &&& resp.kind == ResponseKind::Leaderboard
                    &&& resp.message@ == if ranked.len() == 0 {
                        "No scores yet."@
                    } else {
                        "Leaderboard:"@
                    }
                    &&& resp.data matches Some(ResponseData::Leaderboard(v)) && v@ == ranked.map_values(
                        |e: (PlayerId, Score)| row_of(e),
                    )
                }
            }
    }

    fn execute(self, game: &mut Game) -> (r: Result<Response, MrRollerError>) {
        let scores = match game.leaderboard.get_scores(self.limit) {
            Ok(v) => v,
            Err(e) => return Err(e),
        };
        let mut entries: Vec<LeaderboardEntry> = Vec::new();
        let mut i: usize = 0;
        while i < scores.len()
            invariant
                i <= scores@.len(),
                entries@ == scores@.take(i as int).map_values(|e: (PlayerId, Score)| row_of(e)),
            decreases scores@.len() - i,
        {
            let (player_id, score) = scores[i];
            entries.push(LeaderboardEntry { player_id: player_id.0, xp: score.xp, coins: score.coins });
            i = i + 1;
            proof {
                assert(entries@ =~= scores@.take(i as int).map_values(|e: (PlayerId, Score)| row_of(e)));
            }
        }
        proof {
            assert(scores@.take(scores@.len() as int) =~= scores@);
        }
        if entries.len() == 0 {
            Ok(Response::leaderboard(owned("No scores yet."), entries))
        } else {
            Ok(Response::leaderboard(owned("Leaderboard:"), entries))
        }
    }
}

} // verus!
