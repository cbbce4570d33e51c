//! The game: its stores and settings, and the dispatcher frontends use.

use vstd::prelude::*;
use crate::command::Command;
use crate::config::{is_default_events, EventsConfig};
use crate::cooldown::CooldownConfig;
use crate::errors::MrRollerError;
use crate::player::PlayerId;
use crate::response::{Response, ResponseKind};
use crate::store::event::InMemoryEventStore;
use crate::store::history::InMemoryItemUseHistoryStore;
use crate::store::inventory::InMemoryInventoryStore;
use crate::store::leaderboard::InMemoryLeaderboardStore;
use crate::store::player::InMemoryPlayerStore;
use crate::command::leaderboard_score_spec;

verus! {

/// Top-level game state and dispatcher. Frontends (CLI, Discord) interact
/// with `Game::execute(command)`.
pub struct Game {
    pub players: InMemoryPlayerStore,
    pub inventory: InMemoryInventoryStore,
    pub leaderboard: InMemoryLeaderboardStore,
    pub events: InMemoryEventStore,
    pub item_use_history: InMemoryItemUseHistoryStore,
    pub cooldown: CooldownConfig,
    pub bootstrap_admin_ids: Vec<PlayerId>,
    pub event_config: EventsConfig,
}

/// Whether `id` is one of the configured bootstrap admins.
pub open spec fn is_bootstrap(game: Game, id: PlayerId) -> bool {
    game.bootstrap_admin_ids@.contains(id)
}

/// Whether the stored player `id` may use admin commands.
pub open spec fn may_administer(game: Game, id: PlayerId) -> bool {
    game.players@.contains_key(id.0) && (game.players@[id.0].is_admin || is_bootstrap(game, id))
}

/// Every leaderboard entry belongs to a stored player and holds that
/// player's current XP and coins.
pub open spec fn scores_consistent(game: Game) -> bool {
    forall|k: u64|
        #[trigger] game.leaderboard@.contains_key(k) ==> game.players@.contains_key(k)
            && game.leaderboard@[k] == leaderboard_score_spec(game.players@[k])
}

/// A response's error form: the text of `e`, no payload.
pub open spec fn is_error_response(r: Response, e: MrRollerError) -> bool {
    r.kind == ResponseKind::Error && r.message@ == e.message_spec() && r.data is None
}

/// Whether `resp` is what a frontend receives for the command result `r`:
/// the response itself, or the error's text as an error response.
pub open spec fn answers(r: Result<Response, MrRollerError>, resp: Response) -> bool {
    match r {
        Ok(x) => resp == x,
        Err(e) => is_error_response(resp, e),
    }
}

impl Game {
    /// A game over the given stores with the default cooldown (24 hours,
    /// reset at midnight UTC), no bootstrap admins and the default event
    /// settings.
    pub fn new(
        players: InMemoryPlayerStore,
        inventory: InMemoryInventoryStore,
        leaderboard: InMemoryLeaderboardStore,
    ) -> (g: Game)
        ensures
            g.players == players,
            g.inventory == inventory,
            g.leaderboard == leaderboard,
            g.events@ == Map::<u128, crate::event::ActiveEvent>::empty(),
            g.item_use_history@ == Seq::<crate::store::history::ItemUseRecord>::empty(),
            g.cooldown == CooldownConfig::default_spec(),
            g.bootstrap_admin_ids@.len() == 0,
            is_default_events(g.event_config),
    {
        Game::with_cooldown(players, inventory, leaderboard, CooldownConfig::default())
    }

    /// A game over the given stores with an explicit cooldown config.
    pub fn with_cooldown(
        players: InMemoryPlayerStore,
        inventory: InMemoryInventoryStore,
        leaderboard: InMemoryLeaderboardStore,
        cooldown: CooldownConfig,
    ) -> (g: Game)
        ensures
            g.players == players,
            g.inventory == inventory,
            g.leaderboard == leaderboard,
            g.events@ == Map::<u128, crate::event::ActiveEvent>::empty(),
            g.item_use_history@ == Seq::<crate::store::history::ItemUseRecord>::empty(),
            g.cooldown == cooldown,
            g.bootstrap_admin_ids@.len() == 0,
            is_default_events(g.event_config),
    {
        Game {
            players,
            inventory,
            leaderboard,
            events: InMemoryEventStore::new(),
            item_use_history: InMemoryItemUseHistoryStore::new(),
            cooldown,
            bootstrap_admin_ids: Vec::new(),
            event_config: EventsConfig::default(),
        }
    }

    /// A game with configured bootstrap admin player ids.
    pub fn with_bootstrap_admin_ids(
        players: InMemoryPlayerStore,
        inventory: InMemoryInventoryStore,
        leaderboard: InMemoryLeaderboardStore,
        bootstrap_admin_ids: Vec<PlayerId>,
    ) -> (g: Game)
        ensures
            g.players == players,
            g.inventory == inventory,
            g.leaderboard == leaderboard,
            g.events@ == Map::<u128, crate::event::ActiveEvent>::empty(),
            g.item_use_history@ == Seq::<crate::store::history::ItemUseRecord>::empty(),
            g.cooldown == CooldownConfig::default_spec(),
            g.bootstrap_admin_ids == bootstrap_admin_ids,
            is_default_events(g.event_config),
    {
        let mut game = Game::new(players, inventory, leaderboard);
        game.bootstrap_admin_ids = bootstrap_admin_ids;
        game
    }

    /// A game over the given stores, event store and event settings.
    pub fn with_event_store(
        players: InMemoryPlayerStore,
        inventory: InMemoryInventoryStore,
        leaderboard: InMemoryLeaderboardStore,
        events: InMemoryEventStore,
        bootstrap_admin_ids: Vec<PlayerId>,
        event_config: EventsConfig,
    ) -> (g: Game)
        ensures
            g.players == players,
            g.inventory == inventory,
            g.leaderboard == leaderboard,
            g.events == events,
            g.item_use_history@ == Seq::<crate::store::history::ItemUseRecord>::empty(),
            g.cooldown == CooldownConfig::default_spec(),
            g.bootstrap_admin_ids == bootstrap_admin_ids,
            g.event_config == event_config,
    {
        Game {
            players,
            inventory,
            leaderboard,
            events,
            item_use_history: InMemoryItemUseHistoryStore::new(),
            cooldown: CooldownConfig::default(),
            bootstrap_admin_ids,
            event_config,
        }
    }

    /// A game over the given stores, including the item-use history.
    pub fn with_event_store_and_history(
        players: InMemoryPlayerStore,
        inventory: InMemoryInventoryStore,
        leaderboard: InMemoryLeaderboardStore,
        events: InMemoryEventStore,
        item_use_history: InMemoryItemUseHistoryStore,
        bootstrap_admin_ids: Vec<PlayerId>,
        event_config: EventsConfig,
    ) -> (g: Game)
        ensures
            g.players == players,
            g.inventory == inventory,
            g.leaderboard == leaderboard,
            g.events == events,
            g.item_use_history == item_use_history,
            g.cooldown == CooldownConfig::default_spec(),
            g.bootstrap_admin_ids == bootstrap_admin_ids,
            g.event_config == event_config,
    {
        Game {
            players,
            inventory,
            leaderboard,
            events,
            item_use_history,
            cooldown: CooldownConfig::default(),
            bootstrap_admin_ids,
            event_config,
        }
    }

    /// Executes a command and returns a `Response`. Errors from stores or
    /// validation are turned into error responses, so frontends always
    /// receive a renderable result.
    pub fn execute<C: Command>(&mut self, cmd: C) -> (resp: Response)
        requires
            cmd.runnable(*old(self)),
        ensures
            exists|r: Result<Response, MrRollerError>|
                {
                    &&& #[trigger] cmd.outcome(*old(self), *final(self), r)
                    &&& answers(r, resp)
                },
            scores_consistent(*old(self)) ==> scores_consistent(*final(self)),
    {
        let r = cmd.execute(self);
        match r {
            Ok(output) => output,
            Err(e) => Response { kind: ResponseKind::Error, message: e.message(), data: None },
        }
    }
}

} // verus!
