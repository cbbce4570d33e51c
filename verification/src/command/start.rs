//! `/start`: join the game and receive the starter dice.

use vstd::prelude::*;
use crate::command::{is_bootstrap_admin, is_refusal, is_success, stores_are, untouched, with_item, Command};
use crate::errors::MrRollerError;
use crate::game::{is_bootstrap, scores_consistent, Game};
use crate::item::{is_starter_dice, BasicDice, Item};
use crate::player::{Player, PlayerId};
use crate::response::Response;
use crate::sources::new_uuid;
use crate::store::inventory::ItemId;
use crate::text::owned;

verus! {

pub struct StartCommand {
    pub player_id: PlayerId,
}

pub open spec fn start_tutorial_spec() -> Seq<char> {
    "Welcome to Mr Roller! You have been given a starter dice.\n\nUse `/inventory` to see your items, then use `/use` and autocomplete/select your Starter Dice to roll it."@
}

pub open spec fn promoted_message_spec() -> Seq<char> {
    "You are already in the game and have been promoted to admin."@
}

pub open spec fn already_in_game_spec() -> Seq<char> {
    "You are already in the game."@
}

/// The tutorial text a new player is greeted with.
pub fn start_tutorial_message() -> (s: &'static str)
    ensures
        s@ == start_tutorial_spec(),
{
    "Welcome to Mr Roller! You have been given a starter dice.\n\nUse `/inventory` to see your items, then use `/use` and autocomplete/select your Starter Dice to roll it."
}

/// The record `p` with the admin flag raised when `admin` holds.
pub open spec fn with_admin(p: Player, admin: bool) -> Player {
    Player {
        id: p.id,
        last_roll_at: p.last_roll_at,
        luck: p.luck,
        coins: p.coins,
        xp: p.xp,
        has_started: p.has_started,
        tutorial_completed: p.tutorial_completed,
        is_admin: p.is_admin || admin,
    }
}

/// The record `p` marked as started.
pub open spec fn marked_started(p: Player) -> Player {
    Player {
        id: p.id,
        last_roll_at: p.last_roll_at,
        luck: p.luck,
        coins: p.coins,
        xp: p.xp,
        has_started: true,
        tutorial_completed: p.tutorial_completed,
        is_admin: p.is_admin,
    }
}

/// What starting `id` does to `pre`, the starter dice (if one is granted)
/// stored under `item_id`.
///
/// A bootstrap admin is promoted on start. A stored player who has not
/// started yet (created by an admin grant) starts and receives the starter
/// dice; one who has is told so, unchanged unless just promoted. A new player
/// is created, started, and receives the starter dice.
pub open spec fn start_spec(
    pre: Game,
    post: Game,
    id: PlayerId,
    item_id: ItemId,
    r: Result<Response, MrRollerError>,
) -> bool {
    let admin = is_bootstrap(pre, id);
    let gets_dice = exists|item: Item|
        is_starter_dice(item) && post.inventory@ == with_item(pre.inventory@, id.0, item_id, item);
    if pre.players@.contains_key(id.0) {
        let p = pre.players@[id.0];
        let q = with_admin(p, admin);
        if !p.has_started {
            &&& gets_dice
            &&& stores_are(
                pre,
                post,
                pre.players@.insert(id.0, marked_started(q)),
                post.inventory@,
                pre.leaderboard@,
                pre.events@,
                pre.item_use_history@,
            )
            &&& r matches Ok(resp) && is_success(resp, start_tutorial_spec())
        } else if admin && !p.is_admin {
            &&& stores_are(
                pre,
                post,
                pre.players@.insert(id.0, q),
                pre.inventory@,
                pre.leaderboard@,
                pre.events@,
                pre.item_use_history@,
            )
            &&& r matches Ok(resp) && is_success(resp, promoted_message_spec())
        } else {
            &&& untouched(pre, post)
            &&& r matches Ok(resp) && is_refusal(resp, already_in_game_spec())
        }
    } else {
        let fresh = Player {
            id,
            last_roll_at: None,
            luck: 0,
            coins: 0,
            xp: 0,
            has_started: true,
            tutorial_completed: false,
            is_admin: admin,
        };
        &&& gets_dice
        &&& stores_are(
            pre,
            post,
            pre.players@.insert(id.0, fresh),
            post.inventory@,
            pre.leaderboard@,
            pre.events@,
            pre.item_use_history@,
        )
        &&& r matches Ok(resp) && is_success(resp, start_tutorial_spec())
    }
}

impl StartCommand {
    /// Starts the player, storing a granted starter dice under `item_id`.
    pub fn execute_with(self, game: &mut Game, item_id: ItemId) -> (r: Result<Response, MrRollerError>)
        ensures
            start_spec(*old(game), *final(game), self.player_id, item_id, r),
            scores_consistent(*old(game)) ==> scores_consistent(*final(game)),
    {
        let id = self.player_id;
        let admin = is_bootstrap_admin(id, &game.bootstrap_admin_ids);
        let exists = match game.players.contains(id) {
            Ok(b) => b,
            Err(e) => return Err(e),
        };
        if exists {
            let mut player = match game.players.get(id) {
                Ok(p) => p,
                Err(e) => return Err(e),
            };
            let promoted = admin && !player.is_admin;
            if promoted {
                player.is_admin = true;
            }
            if !player.has_started {
                player.has_started = true;
                match game.players.update(player) {
                    Ok(()) => {},
                    Err(e) => return Err(e),
                }
                let dice = Item::BasicDice(BasicDice::starter_dice());
                let ghost granted = dice;
                game.inventory.add_item_with_id(id, dice, item_id);
                proof {
                    assert(is_starter_dice(granted));
                }
                return Ok(Response::success(owned(start_tutorial_message())));
            }
            if promoted {
                match game.players.update(player) {
                    Ok(()) => {},
                    Err(e) => return Err(e),
                }
                return Ok(
                    Response::success(
                        owned("You are already in the game and have been promoted to admin."),
                    ),
                );
            }
            return Ok(Response::error(owned("You are already in the game.")));
        }
        let mut player = Player::new(id);
        player.is_admin = admin;
        player.has_started = true;
        match game.players.insert(player) {
            Ok(()) => {},
            Err(e) => return Err(e),
        }
        let dice = Item::BasicDice(BasicDice::starter_dice());
        let ghost granted = dice;
        game.inventory.add_item_with_id(id, dice, item_id);
        proof {
            assert(is_starter_dice(granted));
        }
        Ok(Response::success(owned(start_tutorial_message())))
    }
}

impl Command for StartCommand {
    open spec fn runnable(&self, game: Game) -> bool {
        true
    }

    open spec fn outcome(&self, pre: Game, post: Game, r: Result<Response, MrRollerError>) -> bool {
        exists|item_id: ItemId| start_spec(pre, post, self.player_id, item_id, r)
    }

    fn execute(self, game: &mut Game) -> (r: Result<Response, MrRollerError>) {
        let item_id = new_uuid();
        self.execute_with(game, item_id)
    }
}

} // verus!
