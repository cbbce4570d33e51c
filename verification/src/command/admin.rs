//! Admin commands: help, grants, coin adjustments and admin rights.

use vstd::prelude::*;
use crate::command::kinds::{admin_keys_spec, AdminItemKind};
use crate::command::{
    is_bootstrap_admin, is_refusal, is_success, leaderboard_score, leaderboard_score_spec,
    stores_are, untouched, with_item, Command,
};
use crate::errors::MrRollerError;
use crate::game::{may_administer, scores_consistent, Game};
use crate::player::{Player, PlayerId};
use crate::response::{Response, ResponseData, ResponseKind};
use crate::sources::new_uuid;
use crate::store::inventory::ItemId;
use crate::text::{decimal, join_spec, join_strs, owned, push_decimal, push_str};

verus! {

pub open spec fn permission_denied_spec() -> Seq<char> {
    "You do not have permission to use admin commands."@
}

/// Whether a command of `id` that needs admin rights is turned away as it
/// must be: an unknown caller is an error, a caller without rights
/// gets an error response; either way nothing changes. Callers with rights
/// pass (what they get is the command's own business).
pub open spec fn refused_unless_admin(
    pre: Game,
    post: Game,
    id: PlayerId,
    r: Result<Response, MrRollerError>,
) -> bool {
    may_administer(pre, id) || {
        &&& untouched(pre, post)
        &&& if pre.players@.contains_key(id.0) {
            r matches Ok(resp) && is_refusal(resp, permission_denied_spec())
        } else {
            r matches Err(e) && e is PlayerNotFound
        }
    }
}

/// Checks that `id` may use admin commands: `Ok(None)` if so, the refusal to
/// answer with if not.
pub fn require_admin(game: &Game, id: PlayerId) -> (r: Result<Option<Response>, MrRollerError>)
    ensures
        match r {
            Ok(None) => may_administer(*game, id),
            Ok(Some(resp)) => game.players@.contains_key(id.0) && !may_administer(*game, id)
                && is_refusal(resp, permission_denied_spec()),
            Err(e) => !game.players@.contains_key(id.0) && e is PlayerNotFound,
        },
{
    let player = match game.players.get(id) {
        Ok(p) => p,
        Err(e) => return Err(e),
    };
    if player.is_admin || is_bootstrap_admin(id, &game.bootstrap_admin_ids) {
        Ok(None)
    } else {
        Ok(Some(Response::error(owned("You do not have permission to use admin commands."))))
    }
}

// ── AdminHelp ──────────────────────────────────────────────────────────────

pub struct AdminHelpCommand {
    pub player_id: PlayerId,
}

pub open spec fn admin_help_spec() -> Seq<char> {
    "Admin commands:\n  /admin give <player-id> <item>\n  /admin coins <player-id> <amount>\n  /admin event spawn-random-item\n  /admin set-admin <player-id> <true|false>\nItems: "@
        + join_spec(admin_keys_spec(), ", "@)
}

impl Command for AdminHelpCommand {
    open spec fn runnable(&self, game: Game) -> bool {
        true
    }

    open spec fn outcome(&self, pre: Game, post: Game, r: Result<Response, MrRollerError>) -> bool {
        &&& refused_unless_admin(pre, post, self.player_id, r)
        &&& may_administer(pre, self.player_id) ==> untouched(pre, post) && (r matches Ok(resp)
            && is_success(resp, admin_help_spec()))
    }

    fn execute(self, game: &mut Game) -> (r: Result<Response, MrRollerError>) {
        match require_admin(game, self.player_id) {
            Ok(Some(response)) => return Ok(response),
            Ok(None) => {},
            Err(e) => return Err(e),
        }
        let mut message = owned(
            "Admin commands:\n  /admin give <player-id> <item>\n  /admin coins <player-id> <amount>\n  /admin event spawn-random-item\n  /admin set-admin <player-id> <true|false>\nItems: ",
        );
        let keys = AdminItemKind::keys();
        let joined = join_strs(&keys, ", ");
        push_str(&mut message, joined.as_str());
        Ok(Response::success(message))
    }
}

// ── AdminGiveItem ──────────────────────────────────────────────────────────

pub struct AdminGiveItemCommand {
    pub admin_id: PlayerId,
    pub target_player_id: PlayerId,
    pub item: AdminItemKind,
}

/// What granting `kind` to `target` does for an admin, the item stored under
/// `item_id`: a target not yet stored is created first.
pub open spec fn give_spec(
    pre: Game,
    post: Game,
    target: PlayerId,
    kind: AdminItemKind,
    item_id: ItemId,
    r: Result<Response, MrRollerError>,
) -> bool {
    let players = if pre.players@.contains_key(target.0) {
        pre.players@
    } else {
        pre.players@.insert(target.0, Player::fresh(target))
    };
    exists|item: crate::item::Item|
        {
            &&& kind.grants(item)
            &&& stores_are(
                pre,
                post,
                players,
                with_item(pre.inventory@, target.0, item_id, item),
                pre.leaderboard@,
                pre.events@,
                pre.item_use_history@,
            )
            &&& r matches Ok(resp) && {
                &&& resp.kind == ResponseKind::Success
                &&& resp.message@ == "Gave "@ + item.name_spec() + " to player "@ + decimal(
                    target.0 as nat,
                ) + "."@
                &&& resp.data matches Some(ResponseData::ItemGranted { player_id, item_id: granted, item_name })
                    && player_id == target.0 && granted == item_id && item_name@ == item.name_spec()
            }
        }
}

impl AdminGiveItemCommand {
    /// Grants the item, storing it under `item_id`.
    pub fn execute_with(self, game: &mut Game, item_id: ItemId) -> (r: Result<Response, MrRollerError>)
        ensures
            refused_unless_admin(*old(game), *final(game), self.admin_id, r),
            may_administer(*old(game), self.admin_id) ==> give_spec(
                *old(game),
                *final(game),
                self.target_player_id,
                self.item,
                item_id,
                r,
            ),
            scores_consistent(*old(game)) ==> scores_consistent(*final(game)),
    {
        match require_admin(game, self.admin_id) {
            Ok(Some(response)) => return Ok(response),
            Ok(None) => {},
            Err(e) => return Err(e),
        }
        let target = self.target_player_id;
        let known = match game.players.contains(target) {
            Ok(b) => b,
            Err(e) => return Err(e),
        };
        if !known {
            match game.players.insert(Player::new(target)) {
                Ok(()) => {},
                Err(e) => return Err(e),
            }
        }
        let item = self.item.into_item();
        let ghost granted = item;
        let item_name = owned(item.name());
        game.inventory.add_item_with_id(target, item, item_id);
        let mut message = owned("Gave ");
        push_str(&mut message, item_name.as_str());
        push_str(&mut message, " to player ");
        push_decimal(&mut message, target.0);
        push_str(&mut message, ".");
        let r = Response {
            kind: ResponseKind::Success,
            message,
            data: Some(ResponseData::ItemGranted { player_id: target.0, item_id, item_name }),
        };
        proof {
            assert(self.item.grants(granted));
        }
        Ok(r)
    }
}

impl Command for AdminGiveItemCommand {
    open spec fn runnable(&self, game: Game) -> bool {
        true
    }

    open spec fn outcome(&self, pre: Game, post: Game, r: Result<Response, MrRollerError>) -> bool {
        &&& refused_unless_admin(pre, post, self.admin_id, r)
        &&& may_administer(pre, self.admin_id) ==> exists|item_id: ItemId|
            give_spec(pre, post, self.target_player_id, self.item, item_id, r)
    }

    fn execute(self, game: &mut Game) -> (r: Result<Response, MrRollerError>) {
        let item_id = new_uuid();
        self.execute_with(game, item_id)
    }
}

// ── AdminAdjustCoins ───────────────────────────────────────────────────────

pub struct AdminAdjustCoinsCommand {
    pub admin_id: PlayerId,
    pub target_player_id: PlayerId,
    pub amount: i64,
}

/// The record `p` holding `coins` coins.
pub open spec fn with_coins(p: Player, coins: int) -> Player {
    Player {
        id: p.id,
        last_roll_at: p.last_roll_at,
        luck: p.luck,
        coins: coins as u64,
        xp: p.xp,
        has_started: p.has_started,
        tutorial_completed: p.tutorial_completed,
        is_admin: p.is_admin,
    }
}

/// What adding `amount` coins (removing, if negative) to `target` does for
/// an admin. A player cannot be left with fewer than no coins.
pub open spec fn adjust_coins_spec(
    pre: Game,
    post: Game,
    target: PlayerId,
    amount: i64,
    r: Result<Response, MrRollerError>,
) -> bool {
    if !pre.players@.contains_key(target.0) {
        untouched(pre, post) && (r matches Err(e) && e is PlayerNotFound)
    } else {
        let p = pre.players@[target.0];
        if amount < 0 && p.coins < -amount {
            &&& untouched(pre, post)
            &&& r matches Ok(resp) && is_refusal(
                resp,
                "Player "@ + decimal(target.0 as nat) + " only has "@ + decimal(p.coins as nat)
                    + " coins."@,
            )
        } else {
            let q = with_coins(p, p.coins + amount);
            &&& stores_are(
                pre,
                post,
                pre.players@.insert(target.0, q),
                pre.inventory@,
                pre.leaderboard@.insert(target.0, leaderboard_score_spec(q)),
                pre.events@,
                pre.item_use_history@,
            )
            &&& r matches Ok(resp) && is_success(
                resp,
                "Player "@ + decimal(target.0 as nat) + " now has "@ + decimal(q.coins as nat)
                    + " coins."@,
            )
        }
    }
}

impl AdminAdjustCoinsCommand {
    /// Whether the command can run on `game` (see `runnable`).
    pub fn is_runnable(&self, game: &Game) -> (b: bool)
        ensures
            b == self.runnable(*game),
    {
        match require_admin(game, self.admin_id) {
            Ok(None) => match game.players.get(self.target_player_id) {
                Ok(p) => self.amount < 0 || p.coins as u128 + self.amount as u128
                    <= 0xffff_ffff_ffff_ffffu128,
                Err(_) => true,
            },
            _ => true,
        }
    }
}

impl Command for AdminAdjustCoinsCommand {
    /// Adding coins must not overflow the target's `u64` balance.
    open spec fn runnable(&self, game: Game) -> bool {
        may_administer(game, self.admin_id) && game.players@.contains_key(self.target_player_id.0)
            && self.amount >= 0 ==> game.players@[self.target_player_id.0].coins + self.amount
            <= u64::MAX
    }

    open spec fn outcome(&self, pre: Game, post: Game, r: Result<Response, MrRollerError>) -> bool {
        &&& refused_unless_admin(pre, post, self.admin_id, r)
        &&& may_administer(pre, self.admin_id) ==> adjust_coins_spec(
            pre,
            post,
            self.target_player_id,
            self.amount,
            r,
        )
    }

    fn execute(self, game: &mut Game) -> (r: Result<Response, MrRollerError>) {
        match require_admin(game, self.admin_id) {
            Ok(Some(response)) => return Ok(response),
            Ok(None) => {},
            Err(e) => return Err(e),
        }
        let id = self.target_player_id;
        let mut target = match game.players.get(id) {
            Ok(p) => p,
            Err(e) => return Err(e),
        };
        if self.amount < 0 {
            let amount_to_remove: u64 = if self.amount == i64::MIN {
                0x8000_0000_0000_0000u64
            } else {
                (-self.amount) as u64
            };
            if target.coins < amount_to_remove {
                let mut message = owned("Player ");
                push_decimal(&mut message, id.0);
                push_str(&mut message, " only has ");
                push_decimal(&mut message, target.coins);
                push_str(&mut message, " coins.");
                return Ok(Response::error(message));
            }
            target.coins = target.coins - amount_to_remove;
        } else {
            target.coins = target.coins + self.amount as u64;
        }
        match game.players.update(target) {
            Ok(()) => {},
            Err(e) => return Err(e),
        }
        match game.leaderboard.update_score(id, leaderboard_score(&target)) {
            Ok(()) => {},
            Err(e) => return Err(e),
        }
        let mut message = owned("Player ");
        push_decimal(&mut message, id.0);
        push_str(&mut message, " now has ");
        push_decimal(&mut message, target.coins);
        push_str(&mut message, " coins.");
        Ok(Response::success(message))
    }
}

// ── AdminSetAdmin ──────────────────────────────────────────────────────────

pub struct AdminSetAdminCommand {
    pub admin_id: PlayerId,
    pub target_player_id: PlayerId,
    pub is_admin: bool,
}

/// The record `p` with the admin flag set to `flag`.
pub open spec fn with_admin_flag(p: Player, flag: bool) -> Player {
    Player {
        id: p.id,
        last_roll_at: p.last_roll_at,
        luck: p.luck,
        coins: p.coins,
        xp: p.xp,
        has_started: p.has_started,
        tutorial_completed: p.tutorial_completed,
        is_admin: flag,
    }
}

pub open spec fn set_admin_message(target: PlayerId, flag: bool) -> Seq<char> {
    "Player "@ + decimal(target.0 as nat) + " is now "@ + (if flag {
        "an "@
    } else {
        "not an "@
    }) + "admin."@
}

impl Command for AdminSetAdminCommand {
    open spec fn runnable(&self, game: Game) -> bool {
        true
    }

    open spec fn outcome(&self, pre: Game, post: Game, r: Result<Response, MrRollerError>) -> bool {
        &&& refused_unless_admin(pre, post, self.admin_id, r)
        &&& may_administer(pre, self.admin_id) ==> if !pre.players@.contains_key(
            self.target_player_id.0,
        ) {
            untouched(pre, post) && (r matches Err(e) && e is PlayerNotFound)
        } else {
            &&& stores_are(
                pre,
                post,
                pre.players@.insert(
                    self.target_player_id.0,
                    with_admin_flag(pre.players@[self.target_player_id.0], self.is_admin),
                ),
                pre.inventory@,
                pre.leaderboard@,
                pre.events@,
                pre.item_use_history@,
            )
            &&& r matches Ok(resp) && is_success(
                resp,
                set_admin_message(self.target_player_id, self.is_admin),
            )
        }
    }

    fn execute(self, game: &mut Game) -> (r: Result<Response, MrRollerError>) {
        match require_admin(game, self.admin_id) {
            Ok(Some(response)) => return Ok(response),
            Ok(None) => {},
            Err(e) => return Err(e),
        }
        let id = self.target_player_id;
        let mut target = match game.players.get(id) {
            Ok(p) => p,
            Err(e) => return Err(e),
        };
        target.is_admin = self.is_admin;
        match game.players.update(target) {
            Ok(()) => {},
            Err(e) => return Err(e),
        }
        let mut message = owned("Player ");
        push_decimal(&mut message, id.0);
        push_str(&mut message, " is now ");
        push_str(&mut message, if self.is_admin { "an " } else { "not an " });
        push_str(&mut message, "admin.");
        proof {
            assert(message@ =~= set_admin_message(id, self.is_admin));
        }
        Ok(Response::success(message))
    }
}

} // verus!
