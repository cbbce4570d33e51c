//! Persistence of the game: players, inventories, the leaderboard, events and
//! the record of item uses. Each kind of store is a trait, for persistent
//! stores to implement; the in-memory stores implement them all.

use vstd::prelude::*;
use crate::errors::MrRollerError;
use crate::event::{ActiveEvent, EventId};
use crate::item::Item;
use crate::player::{Player, PlayerId};
use crate::store::event::{is_event_not_found, InMemoryEventStore};
use crate::store::history::{is_recent_uses, InMemoryItemUseHistoryStore, ItemUseRecord};
use crate::store::inventory::{item_at, items_of, InMemoryInventoryStore, ItemId};
use crate::store::player::InMemoryPlayerStore;

pub mod player;
pub mod inventory;
pub mod leaderboard;
pub mod event;
pub mod history;

pub use crate::store::leaderboard::LeaderboardStore;

verus! {

/// Persistence of player records. A store may fail (`Err`); what a success
/// means is stated.
pub trait PlayerStore {
    /// The stored players, by id.
    spec fn players(&self) -> Map<u64, Player>;

    /// The player stored under `id`.
    fn get(&self, id: PlayerId) -> (r: Result<Player, MrRollerError>)
        ensures
            r matches Ok(p) ==> self.players().contains_key(id.0) && p == self.players()[id.0],
    ;

    /// Stores a new player.
    fn insert(&mut self, player: Player) -> (r: Result<(), MrRollerError>)
        ensures
            r is Ok ==> !old(self).players().contains_key(player.id.0) && final(self).players()
                == old(self).players().insert(player.id.0, player),
    ;

    /// Replaces a stored player's record.
    fn update(&mut self, player: Player) -> (r: Result<(), MrRollerError>)
        ensures
            r is Ok ==> old(self).players().contains_key(player.id.0) && final(self).players()
                == old(self).players().insert(player.id.0, player),
    ;

    /// Removes a stored player.
    fn remove(&mut self, id: PlayerId) -> (r: Result<(), MrRollerError>)
        ensures
            r is Ok ==> old(self).players().contains_key(id.0) && final(self).players()
                == old(self).players().remove(id.0),
    ;

    /// Whether a player is stored under `id`.
    fn contains(&self, id: PlayerId) -> (r: Result<bool, MrRollerError>)
        ensures
            r matches Ok(b) ==> b == self.players().contains_key(id.0),
    ;

    /// Every stored player, each once.
    fn all(&self) -> (r: Result<Vec<Player>, MrRollerError>)
        ensures
            r matches Ok(v) ==> {
                &&& v@.len() == self.players().dom().len()
                &&& forall|i: int|
                    0 <= i < v@.len() ==> #[trigger] self.players().contains_key(v@[i].id.0)
                        && self.players()[v@[i].id.0] == v@[i]
            },
    ;
}

impl PlayerStore for InMemoryPlayerStore {
    open spec fn players(&self) -> Map<u64, Player> {
        self@
    }

    fn get(&self, id: PlayerId) -> (r: Result<Player, MrRollerError>)
        ensures
            match r {
                Ok(p) => self@.contains_key(id.0) && p == self@[id.0] && p.id == id,
                Err(e) => !self@.contains_key(id.0) && e is PlayerNotFound,
            },
    {
        InMemoryPlayerStore::get(self, id)
    }

    fn insert(&mut self, player: Player) -> (r: Result<(), MrRollerError>)
        ensures
            match r {
                Ok(()) => !old(self)@.contains_key(player.id.0) && final(self)@ == old(self)@.insert(
                    player.id.0,
                    player,
                ),
                Err(e) => old(self)@.contains_key(player.id.0) && e is PlayerAlreadyInGame
                    && final(self)@ == old(self)@,
            },
    {
        InMemoryPlayerStore::insert(self, player)
    }

    fn update(&mut self, player: Player) -> (r: Result<(), MrRollerError>)
        ensures
            match r {
                Ok(()) => old(self)@.contains_key(player.id.0) && final(self)@ == old(self)@.insert(
                    player.id.0,
                    player,
                ),
                Err(e) => !old(self)@.contains_key(player.id.0) && e is PlayerNotFound
                    && final(self)@ == old(self)@,
            },
    {
        InMemoryPlayerStore::update(self, player)
    }

    fn remove(&mut self, id: PlayerId) -> (r: Result<(), MrRollerError>)
        ensures
            match r {
                Ok(()) => old(self)@.contains_key(id.0) && final(self)@ == old(self)@.remove(id.0),
                Err(e) => !old(self)@.contains_key(id.0) && e is PlayerNotFound && final(self)@
                    == old(self)@,
            },
    {
        InMemoryPlayerStore::remove(self, id)
    }

    fn contains(&self, id: PlayerId) -> (r: Result<bool, MrRollerError>)
        ensures
            r == Ok::<bool, MrRollerError>(self@.contains_key(id.0)),
    {
        InMemoryPlayerStore::contains(self, id)
    }

    fn all(&self) -> (r: Result<Vec<Player>, MrRollerError>)
        ensures
            r matches Ok(v) && {
                &&& v@.len() == self@.dom().len()
                &&& forall|i: int|
                    0 <= i < v@.len() ==> #[trigger] self@.contains_key(v@[i].id.0) && self@[v@[i].id.0]
                        == v@[i]
                &&& forall|i: int, j: int|
                    0 <= i < j < v@.len() ==> #[trigger] v@[i].id != #[trigger] v@[j].id
            },
    {
        InMemoryPlayerStore::all(self)
    }
}

/// Persistence of inventories.
pub trait InventoryStore {
    /// The items of every player, by player id and item id.
    spec fn inventories(&self) -> Map<u64, Map<ItemId, Item>>;

    /// Item `item_id` of the player.
    fn get_item(&self, player_id: PlayerId, item_id: ItemId) -> (r: Result<Item, MrRollerError>)
        ensures
            r matches Ok(item) ==> item_at(self.inventories(), player_id.0, item_id) == Some(item),
    ;

    /// Adds an item to the player's inventory, returning the id it is
    /// stored under.
    fn add_item(&mut self, player_id: PlayerId, item: Item) -> (r: Result<ItemId, MrRollerError>)
        ensures
            r matches Ok(id) ==> final(self).inventories() == old(self).inventories().insert(
                player_id.0,
                items_of(old(self).inventories(), player_id.0).insert(id, item),
            ),
    ;

    /// Removes item `item_id` of the player.
    fn remove_item(&mut self, player_id: PlayerId, item_id: ItemId) -> (r: Result<(), MrRollerError>)
        ensures
            r is Ok ==> item_at(old(self).inventories(), player_id.0, item_id) is Some
                && final(self).inventories() == old(self).inventories().insert(
                player_id.0,
                items_of(old(self).inventories(), player_id.0).remove(item_id),
            ),
    ;

    /// The player's items with their ids, each once.
    fn list_items(&self, player_id: PlayerId) -> (r: Result<Vec<(ItemId, Item)>, MrRollerError>)
        ensures
            r matches Ok(v) ==> {
                let items = items_of(self.inventories(), player_id.0);
                &&& v@.len() == items.dom().len()
                &&& forall|i: int|
                    0 <= i < v@.len() ==> #[trigger] items.contains_key(v@[i].0) && items[v@[i].0]
                        == v@[i].1
            },
    ;
}

impl InventoryStore for InMemoryInventoryStore {
    open spec fn inventories(&self) -> Map<u64, Map<ItemId, Item>> {
        self@
    }

    fn get_item(&self, player_id: PlayerId, item_id: ItemId) -> (r: Result<Item, MrRollerError>)
        ensures
            match r {
                Ok(item) => item_at(self@, player_id.0, item_id) == Some(item),
                Err(e) => item_at(self@, player_id.0, item_id) is None && e is ItemNotFound,
            },
    {
        InMemoryInventoryStore::get_item(self, player_id, item_id)
    }

    fn add_item(&mut self, player_id: PlayerId, item: Item) -> (r: Result<ItemId, MrRollerError>)
        ensures
            r matches Ok(id) && final(self)@ == old(self)@.insert(
                player_id.0,
                items_of(old(self)@, player_id.0).insert(id, item),
            ),
    {
        InMemoryInventoryStore::add_item(self, player_id, item)
    }

    fn remove_item(&mut self, player_id: PlayerId, item_id: ItemId) -> (r: Result<(), MrRollerError>)
        ensures
            match r {
                Ok(()) => item_at(old(self)@, player_id.0, item_id) is Some
                    && final(self)@ == old(self)@.insert(
                    player_id.0,
                    items_of(old(self)@, player_id.0).remove(item_id),
                ),
                Err(e) => item_at(old(self)@, player_id.0, item_id) is None && e is ItemNotFound
                    && final(self)@ == old(self)@,
            },
    {
        InMemoryInventoryStore::remove_item(self, player_id, item_id)
    }

    fn list_items(&self, player_id: PlayerId) -> (r: Result<Vec<(ItemId, Item)>, MrRollerError>)
        ensures
            r matches Ok(v) && {
                let items = items_of(self@, player_id.0);
                &&& v@.len() == items.dom().len()
                &&& forall|i: int|
                    0 <= i < v@.len() ==> #[trigger] items.contains_key(v@[i].0) && items[v@[i].0]
                        == v@[i].1
                &&& forall|i: int, j: int|
                    0 <= i < j < v@.len() ==> #[trigger] v@[i].0 != #[trigger] v@[j].0
            },
    {
        InMemoryInventoryStore::list_items(self, player_id)
    }
}

/// Persistence of events.
pub trait EventStore {
    /// The stored events, by id.
    spec fn events(&self) -> Map<EventId, ActiveEvent>;

    /// Stores an event under its id.
    fn insert_event(&mut self, event: ActiveEvent) -> (r: Result<(), MrRollerError>)
        ensures
            r is Ok ==> final(self).events() == old(self).events().insert(event.id, event),
    ;

    /// The event stored under `id`.
    fn get_event(&self, id: EventId) -> (r: Result<ActiveEvent, MrRollerError>)
        ensures
            r matches Ok(e) ==> self.events().contains_key(id) && e == self.events()[id],
    ;

    /// Replaces a stored event.
    fn update_event(&mut self, event: ActiveEvent) -> (r: Result<(), MrRollerError>)
        ensures
            r is Ok ==> old(self).events().contains_key(event.id) && final(self).events()
                == old(self).events().insert(event.id, event),
    ;

    /// Every stored event, each once.
    fn list_events(&self) -> (r: Result<Vec<ActiveEvent>, MrRollerError>)
        ensures
            r matches Ok(v) ==> {
                &&& v@.len() == self.events().dom().len()
                &&& forall|i: int|
                    0 <= i < v@.len() ==> #[trigger] self.events().contains_key(v@[i].id)
                        && self.events()[v@[i].id] == v@[i]
            },
    ;
}

impl EventStore for InMemoryEventStore {
    open spec fn events(&self) -> Map<EventId, ActiveEvent> {
        self@
    }

    fn insert_event(&mut self, event: ActiveEvent) -> (r: Result<(), MrRollerError>)
        ensures
            r is Ok,
            final(self)@ == old(self)@.insert(event.id, event),
    {
        InMemoryEventStore::insert_event(self, event)
    }

    fn get_event(&self, id: EventId) -> (r: Result<ActiveEvent, MrRollerError>)
        ensures
            match r {
                Ok(e) => self@.contains_key(id) && e == self@[id] && e.id == id,
                Err(e) => !self@.contains_key(id) && is_event_not_found(e),
            },
    {
        InMemoryEventStore::get_event(self, id)
    }

    fn update_event(&mut self, event: ActiveEvent) -> (r: Result<(), MrRollerError>)
        ensures
            match r {
                Ok(()) => old(self)@.contains_key(event.id) && final(self)@ == old(self)@.insert(
                    event.id,
                    event,
                ),
                Err(e) => !old(self)@.contains_key(event.id) && is_event_not_found(e)
                    && final(self)@ == old(self)@,
            },
    {
        InMemoryEventStore::update_event(self, event)
    }

    fn list_events(&self) -> (r: Result<Vec<ActiveEvent>, MrRollerError>)
        ensures
            r matches Ok(v) && {
                &&& v@.len() == self@.dom().len()
                &&& forall|i: int|
                    0 <= i < v@.len() ==> #[trigger] self@.contains_key(v@[i].id) && self@[v@[i].id]
                        == v@[i]
                &&& forall|i: int, j: int|
                    0 <= i < j < v@.len() ==> #[trigger] v@[i].id != #[trigger] v@[j].id
                &&& forall|k: EventId|
                    #[trigger] self@.contains_key(k) ==> exists|i: int|
                        0 <= i < v@.len() && v@[i].id == k
            },
    {
        InMemoryEventStore::list_events(self)
    }
}

/// Persistence of the record of item uses.
pub trait ItemUseHistoryStore {
    /// The records, oldest first.
    spec fn records(&self) -> Seq<ItemUseRecord>;

    /// Appends a record.
    fn record_item_use(&mut self, record: ItemUseRecord) -> (r: Result<(), MrRollerError>)
        ensures
            r is Ok ==> final(self).records() == old(self).records().push(record),
    ;

    /// The player's most recent `limit` item uses, most recent first.
    fn list_item_uses(&self, player_id: PlayerId, limit: usize) -> (r: Result<
        Vec<ItemUseRecord>,
        MrRollerError,
    >)
        ensures
            r matches Ok(v) ==> is_recent_uses(v@, self.records(), player_id, limit as int),
    ;
}

impl ItemUseHistoryStore for InMemoryItemUseHistoryStore {
    open spec fn records(&self) -> Seq<ItemUseRecord> {
        self@
    }

    fn record_item_use(&mut self, record: ItemUseRecord) -> (r: Result<(), MrRollerError>)
        ensures
            r is Ok,
            final(self)@ == old(self)@.push(record),
    {
        InMemoryItemUseHistoryStore::record_item_use(self, record)
    }

    fn list_item_uses(&self, player_id: PlayerId, limit: usize) -> (r: Result<
        Vec<ItemUseRecord>,
        MrRollerError,
    >)
        ensures
            r matches Ok(v) && is_recent_uses(v@, self@, player_id, limit as int),
    {
        InMemoryItemUseHistoryStore::list_item_uses(self, player_id, limit)
    }
}

} // verus!
