//! `/use`: use an item from the inventory.

use vstd::prelude::*;
use crate::command::{is_refusal, leaderboard_score, leaderboard_score_spec, stores_are, untouched, Command};
use crate::errors::MrRollerError;
use crate::game::{scores_consistent, Game};
use crate::item::{item_kind, item_kind_spec, Item, RollOutcome};
use crate::player::{Player, PlayerId};
use crate::response::{kind_name, kind_name_spec, Response, ResponseData, ResponseKind};
use crate::sources::{new_uuid, now_micros, MAX_UTC_MICROS};
use crate::store::history::ItemUseRecord;
use crate::store::inventory::{item_at, items_of, ItemId};
use crate::text::{decimal, owned, push_decimal, push_str};

verus! {

pub struct UseItemCommand {
    pub player_id: PlayerId,
    pub item_id: ItemId,
}

pub open spec fn cooldown_message_spec() -> Seq<char> {
    "You have already rolled. Your roll cooldown is still active."@
}

/// What a player's first roll adds to the roll message.
pub open spec fn tutorial_suffix(roll: nat) -> Seq<char> {
    "\n\nYou earned "@ + decimal(roll) + " XP and "@ + decimal(roll)
        + " gold. XP raises your leaderboard score, and gold can be spent in `/shop` on better dice and useful items. Try `/shop` to see what you can buy, or `/leaderboard` to see the top players."@
}

/// The record of `p` after rolling `roll` at `now`: the roll is earned as XP
/// and as coins, the cooldown starts, and a started player has completed the
/// tutorial.
pub open spec fn after_roll(p: Player, roll: int, now: i64) -> Player {
    Player {
        id: p.id,
        last_roll_at: Some(now),
        luck: p.luck,
        coins: (p.coins + roll) as u64,
        xp: (p.xp + roll) as u64,
        has_started: p.has_started,
        tutorial_completed: p.tutorial_completed || p.has_started,
        is_admin: p.is_admin,
    }
}

/// The record of `p` with the roll cooldown cleared.
pub open spec fn cooldown_cleared(p: Player) -> Player {
    Player {
        id: p.id,
        last_roll_at: None,
        luck: p.luck,
        coins: p.coins,
        xp: p.xp,
        has_started: p.has_started,
        tutorial_completed: p.tutorial_completed,
        is_admin: p.is_admin,
    }
}

/// Whether `rec` records the use of `item` (`item_id` of `player_id`) with
/// a response of `kind`, scoring `roll`, at `used_at`, under `record_id`.
pub open spec fn is_use_record(
    rec: ItemUseRecord,
    record_id: u128,
    player_id: PlayerId,
    item_id: ItemId,
    item: Item,
    kind: ResponseKind,
    roll: Option<u64>,
    used_at: i64,
) -> bool {
    &&& rec.id == record_id
    &&& rec.player_id == player_id
    &&& rec.item_id == item_id
    &&& rec.item_name@ == item.name_spec()
    &&& rec.item_kind@ == item_kind_spec(item)
    &&& rec.item == item
    &&& rec.response_kind@ == kind_name_spec(kind)
    &&& rec.roll == roll
    &&& rec.used_at == used_at
}

/// Whether `post`'s history is `pre`'s with one record appended, the record
/// of using `item` as `is_use_record` describes it.
pub open spec fn history_appended(
    pre: Seq<ItemUseRecord>,
    post: Seq<ItemUseRecord>,
    record_id: u128,
    player_id: PlayerId,
    item_id: ItemId,
    item: Item,
    kind: ResponseKind,
    roll: Option<u64>,
    used_at: i64,
) -> bool {
    &&& post.len() == pre.len() + 1
    &&& post.drop_last() == pre
    &&& is_use_record(post.last(), record_id, player_id, item_id, item, kind, roll, used_at)
}

/// Whether the roll cooldown of `p` blocks a dice roll at `now`.
pub open spec fn roll_blocked(game: Game, p: Player, now: i64) -> bool {
    p.last_roll_at matches Some(t) && game.cooldown.on_cooldown(t as int, now as int)
}

/// Whether using `item_id` of `id` on `game` with the draw `o` keeps XP and
/// coins within `u64` (they would overflow otherwise).
pub open spec fn use_fits(game: Game, id: PlayerId, item_id: ItemId, o: RollOutcome) -> bool {
    game.players@.contains_key(id.0) ==> match item_at(game.inventory@, id.0, item_id) {
        Some(item) => {
            &&& item.outcome_fits(o)
            &&& item.consumes_daily_roll_spec() ==> {
                let p = game.players@[id.0];
                &&& p.xp + item.rolled(o) <= u64::MAX
                &&& p.coins + item.rolled(o) <= u64::MAX
            }
        },
        None => true,
    }
}

/// What using item `item_id` of player `id` at `now`, with the draw `o`,
/// does to `pre`; the use is recorded under `record_id`.
///
/// The player and the item must exist. A dice is refused while the roll
/// cooldown is on; otherwise it is rolled, the roll is earned as XP and
/// coins, the cooldown restarts, the leaderboard follows, and a started
/// player's first roll completes the tutorial (the message then explains the
/// reward). Any other item (a reroll token) is consumed and clears the
/// cooldown. Each use is recorded.
pub open spec fn use_item_spec(
    pre: Game,
    post: Game,
    id: PlayerId,
    item_id: ItemId,
    now: i64,
    o: RollOutcome,
    record_id: u128,
    r: Result<Response, MrRollerError>,
) -> bool {
    let unchanged = untouched(pre, post);
    if !pre.players@.contains_key(id.0) {
        unchanged && (r matches Err(e) && e is PlayerNotFound)
    } else {
        let p = pre.players@[id.0];
        match item_at(pre.inventory@, id.0, item_id) {
            None => unchanged && (r matches Err(e) && e is ItemNotFound),
            Some(item) => if !item.consumes_daily_roll_spec() {
                &&& stores_are(
                    pre,
                    post,
                    pre.players@.insert(id.0, cooldown_cleared(p)),
                    pre.inventory@.insert(id.0, items_of(pre.inventory@, id.0).remove(item_id)),
                    pre.leaderboard@,
                    pre.events@,
                    post.item_use_history@,
                )
                &&& history_appended(
                    pre.item_use_history@,
                    post.item_use_history@,
                    record_id,
                    id,
                    item_id,
                    item,
                    item.use_kind(),
                    None,
                    now,
                )
                &&& r matches Ok(resp) && item.is_use_response(o, resp)
            } else if roll_blocked(pre, p, now) {
                unchanged && (r matches Ok(resp) && is_refusal(resp, cooldown_message_spec()))
            } else {
                let roll = item.rolled(o);
                let q = after_roll(p, roll as int, now);
                let first = p.has_started && !p.tutorial_completed;
                &&& stores_are(
                    pre,
                    post,
                    pre.players@.insert(id.0, q),
                    pre.inventory@,
                    pre.leaderboard@.insert(id.0, leaderboard_score_spec(q)),
                    pre.events@,
                    post.item_use_history@,
                )
                &&& history_appended(
                    pre.item_use_history@,
                    post.item_use_history@,
                    record_id,
                    id,
                    item_id,
                    item,
                    ResponseKind::DiceRoll,
                    Some(roll as u64),
                    now,
                )
                &&& r matches Ok(resp) && {
                    &&& resp.kind == ResponseKind::DiceRoll
                    &&& resp.data == item.use_data(o)
                    &&& resp.message@ == if first {
                        item.use_message(o) + tutorial_suffix(roll as nat)
                    } else {
                        item.use_message(o)
                    }
                }
            },
        }
    }
}

/// Appends to the game's history the record of one item use.
fn record_item_use(
    game: &mut Game,
    player_id: PlayerId,
    item_id: ItemId,
    item: &Item,
    response: &Response,
    roll: Option<u64>,
    used_at: i64,
    record_id: u128,
) -> (r: Result<(), MrRollerError>)
    ensures
        r is Ok,
        stores_are(
            *old(game),
            *final(game),
            old(game).players@,
            old(game).inventory@,
            old(game).leaderboard@,
            old(game).events@,
            final(game).item_use_history@,
        ),
        history_appended(
            old(game).item_use_history@,
            final(game).item_use_history@,
            record_id,
            player_id,
            item_id,
            *item,
            response.kind,
            roll,
            used_at,
        ),
{
    let record = ItemUseRecord::new_with_id(
        record_id,
        player_id,
        item_id,
        owned(item.name()),
        owned(item_kind(item)),
        item.clone(),
        owned(kind_name(response.kind)),
        roll,
        used_at,
    );
    let ghost before = game.item_use_history@;
    let r = game.item_use_history.record_item_use(record);
    proof {
        assert(game.item_use_history@.drop_last() =~= before);
    }
    r
}

impl UseItemCommand {
    /// Uses the item at `now`, with the draw `o`, recording the use under
    /// `record_id`.
    pub fn execute_with(self, game: &mut Game, now: i64, o: RollOutcome, record_id: u128) -> (r: Result<
        Response,
        MrRollerError,
    >)
        requires
            use_fits(*old(game), self.player_id, self.item_id, o),
        ensures
            use_item_spec(*old(game), *final(game), self.player_id, self.item_id, now, o, record_id, r),
            scores_consistent(*old(game)) ==> scores_consistent(*final(game)),
    {
        let ghost pre = *game;
        let id = self.player_id;
        let item_id = self.item_id;
        let mut player = match game.players.get(id) {
            Ok(p) => p,
            Err(e) => return Err(e),
        };
        let item = match game.inventory.get_item(id, item_id) {
            Ok(item) => item,
            Err(e) => return Err(e),
        };
        if item.consumes_daily_roll() {
            match player.last_roll_at {
                Some(last_roll_at) => {
                    if game.cooldown.is_on_cooldown(last_roll_at, now) {
                        return Ok(
                            Response::error(
                                owned("You have already rolled. Your roll cooldown is still active."),
                            ),
                        );
                    }
                },
                None => {},
            }
        } else {
            // Reroll-style items do not consume the daily roll: using one
            // clears the cooldown so the player can roll once more. The token
            // itself is consumed.
            player.last_roll_at = None;
            match game.players.update(player) {
                Ok(()) => {},
                Err(e) => return Err(e),
            }
            match game.inventory.remove_item(id, item_id) {
                Ok(()) => {},
                Err(e) => return Err(e),
            }
            let response = item.handle_with(o);
            match record_item_use(game, id, item_id, &item, &response, None, now, record_id) {
                Ok(()) => {},
                Err(e) => return Err(e),
            }
            return Ok(response);
        }
        let response = item.handle_with(o);
        let mut show_tutorial_complete = false;
        let mut roll_amount: Option<u64> = None;
        if response.kind == ResponseKind::DiceRoll {
            player.last_roll_at = Some(now);
            match &response.data {
                Some(ResponseData::Roll(roll)) => {
                    let roll = *roll as u64;
                    player.xp = player.xp + roll;
                    player.coins = player.coins + roll;
                    roll_amount = Some(roll);
                },
                _ => {},
            }
            show_tutorial_complete = player.has_started && !player.tutorial_completed;
            if show_tutorial_complete {
                player.tutorial_completed = true;
            }
            match game.players.update(player) {
                Ok(()) => {},
                Err(e) => return Err(e),
            }
            match game.leaderboard.update_score(id, leaderboard_score(&player)) {
                Ok(()) => {},
                Err(e) => return Err(e),
            }
        }
        match record_item_use(game, id, item_id, &item, &response, roll_amount, now, record_id) {
            Ok(()) => {},
            Err(e) => return Err(e),
        }
        if show_tutorial_complete && response.kind == ResponseKind::DiceRoll {
            match roll_amount {
                Some(roll) => {
                    let ghost base = response.message@;
                    let Response { kind, message, data } = response;
                    let mut message = message;
                    push_str(&mut message, "\n\nYou earned ");
                    push_decimal(&mut message, roll);
                    push_str(&mut message, " XP and ");
                    push_decimal(&mut message, roll);
                    push_str(
                        &mut message,
                        " gold. XP raises your leaderboard score, and gold can be spent in `/shop` on better dice and useful items. Try `/shop` to see what you can buy, or `/leaderboard` to see the top players.",
                    );
                    proof {
                        assert(message@ =~= base + tutorial_suffix(roll as nat));
                    }
                    return Ok(Response { kind, message, data });
                },
                None => {},
            }
        }
        Ok(response)
    }
}

impl UseItemCommand {
    /// Whether the command can run on `game` (see `runnable`).
    pub fn is_runnable(&self, game: &Game) -> (b: bool)
        ensures
            b == self.runnable(*game),
    {
        let p = match game.players.get(self.player_id) {
            Ok(p) => p,
            Err(_) => return true,
        };
        let item = match game.inventory.get_item(self.player_id, self.item_id) {
            Ok(item) => item,
            Err(_) => return true,
        };
        let max = item.max_roll_score() as u128;
        item.can_be_used() && (!item.consumes_daily_roll() || (p.xp as u128 + max
            <= 0xffff_ffff_ffff_ffffu128 && p.coins as u128 + max <= 0xffff_ffff_ffff_ffffu128))
    }
}

impl Command for UseItemCommand {
    /// The item, where the player holds it, can be used, and no roll of it
    /// can overflow the player's XP or coins.
    open spec fn runnable(&self, game: Game) -> bool {
        game.players@.contains_key(self.player_id.0) ==> match item_at(
            game.inventory@,
            self.player_id.0,
            self.item_id,
        ) {
            Some(item) => {
                &&& item.can_handle_spec()
                &&& item.consumes_daily_roll_spec() ==> {
                    let p = game.players@[self.player_id.0];
                    &&& p.xp + item.max_score() <= u64::MAX
                    &&& p.coins + item.max_score() <= u64::MAX
                }
            },
            None => true,
        }
    }

    open spec fn outcome(&self, pre: Game, post: Game, r: Result<Response, MrRollerError>) -> bool {
        exists|now: i64, o: RollOutcome, record_id: u128|
            {
                &&& 0 <= now <= MAX_UTC_MICROS
                &&& use_fits(pre, self.player_id, self.item_id, o)
                &&& use_item_spec(pre, post, self.player_id, self.item_id, now, o, record_id, r)
            }
    }

    fn execute(self, game: &mut Game) -> (r: Result<Response, MrRollerError>) {
        let now = now_micros();
        let o = match game.players.get(self.player_id) {
            Ok(_) => match game.inventory.get_item(self.player_id, self.item_id) {
                Ok(item) => item.draw_outcome(),
                Err(_) => RollOutcome { raw: 0, bonus: false },
            },
            Err(_) => RollOutcome { raw: 0, bonus: false },
        };
        proof {
            if game.players@.contains_key(self.player_id.0) {
                match item_at(game.inventory@, self.player_id.0, self.item_id) {
                    Some(item) => item.lemma_rolled_bounded(o),
                    None => {},
                }
            }
        }
        let record_id = new_uuid();
        self.execute_with(game, now, o, record_id)
    }
}

} // verus!
