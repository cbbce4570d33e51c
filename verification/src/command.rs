//! Game commands: every game action is a `Command` run against a `Game`.

use vstd::prelude::*;
use crate::errors::MrRollerError;
use crate::game::{Game, scores_consistent};
use crate::item::Item;
use crate::player::{Player, PlayerId};
use crate::response::{Response, ResponseKind};
use crate::store::history::ItemUseRecord;
use crate::store::inventory::{ItemId, items_of};
use crate::store::leaderboard::Score;
use crate::event::{ActiveEvent, EventId};

pub mod kinds;
pub mod start;
pub mod use_item;
pub mod admin;
pub mod shop;
pub mod listing;
pub mod events;

verus! {

/// Every game action implements `Command`.
///
/// `runnable` says on which games the action is defined (elsewhere an
/// arithmetic overflow would stop it); `outcome` says which final
/// games and results a run may give. Where an action reads the clock, draws
/// a random number or makes a fresh identifier, `outcome` holds for some
/// value of each, and the command also offers an `execute_with` taking those
/// values as arguments, whose contract is exact.
pub trait Command: Sized {
    spec fn runnable(&self, game: Game) -> bool;

    spec fn outcome(&self, pre: Game, post: Game, r: Result<Response, MrRollerError>) -> bool;

    fn execute(self, game: &mut Game) -> (r: Result<Response, MrRollerError>)
        requires
            self.runnable(*old(game)),
        ensures
            self.outcome(*old(game), *final(game), r),
            scores_consistent(*old(game)) ==> scores_consistent(*final(game)),
    ;
}

// ── What a command leaves of the game ──────────────────────────────────────

/// `post` is `pre` with the stores holding exactly the given contents and the
/// settings left as they were.
pub open spec fn stores_are(
    pre: Game,
    post: Game,
    players: Map<u64, Player>,
    inventory: Map<u64, Map<ItemId, Item>>,
    leaderboard: Map<u64, Score>,
    events: Map<EventId, ActiveEvent>,
    history: Seq<ItemUseRecord>,
) -> bool {
    &&& post.cooldown == pre.cooldown
    &&& post.bootstrap_admin_ids == pre.bootstrap_admin_ids
    &&& post.event_config == pre.event_config
    &&& post.players@ == players
    &&& post.inventory@ == inventory
    &&& post.leaderboard@ == leaderboard
    &&& post.events@ == events
    &&& post.item_use_history@ == history
}

/// `post` is `pre`, stores and settings alike.
pub open spec fn untouched(pre: Game, post: Game) -> bool {
    stores_are(
        pre,
        post,
        pre.players@,
        pre.inventory@,
        pre.leaderboard@,
        pre.events@,
        pre.item_use_history@,
    )
}

/// The inventory `inv` with `item` added to `player`'s items under `item_id`.
pub open spec fn with_item(
    inv: Map<u64, Map<ItemId, Item>>,
    player: u64,
    item_id: ItemId,
    item: Item,
) -> Map<u64, Map<ItemId, Item>> {
    inv.insert(player, items_of(inv, player).insert(item_id, item))
}

/// The leaderboard score of a player record.
pub open spec fn leaderboard_score_spec(p: Player) -> Score {
    Score { xp: p.xp, coins: p.coins }
}

/// The leaderboard score of a player record.
pub fn leaderboard_score(player: &Player) -> (s: Score)
    ensures
        s == leaderboard_score_spec(*player),
{
    Score { xp: player.xp, coins: player.coins }
}

/// Whether `player_id` is among the configured bootstrap admins.
pub fn is_bootstrap_admin(player_id: PlayerId, bootstrap_admin_ids: &Vec<PlayerId>) -> (r: bool)
    ensures
        r == bootstrap_admin_ids@.contains(player_id),
{
    let mut i: usize = 0;
    while i < bootstrap_admin_ids.len()
        invariant
            i <= bootstrap_admin_ids@.len(),
            forall|j: int| 0 <= j < i ==> bootstrap_admin_ids@[j] != player_id,
        decreases bootstrap_admin_ids@.len() - i,
    {
        if bootstrap_admin_ids[i] == player_id {
            return true;
        }
        i = i + 1;
    }
    false
}

/// Whether `r` is a success response with the message `m` and no payload.
pub open spec fn is_success(r: Response, m: Seq<char>) -> bool {
    r.kind == ResponseKind::Success && r.message@ == m && r.data is None
}

/// Whether `r` is an error response with the message `m` and no payload.
pub open spec fn is_refusal(r: Response, m: Seq<char>) -> bool {
    r.kind == ResponseKind::Error && r.message@ == m && r.data is None
}

} // verus!
