//! In-memory inventory storage.

use vstd::prelude::*;
use std::collections::HashMap;
use crate::errors::MrRollerError;
use crate::item::Item;
use crate::player::PlayerId;
use crate::sources::new_uuid;

verus! {

broadcast use vstd::std_specs::hash::group_hash_axioms;

/// Identifies one item in a player's inventory.
pub type ItemId = u128;

/// The items a player holds, in an inventory view (none where the player has
/// no entry).
pub open spec fn items_of(inv: Map<u64, Map<ItemId, Item>>, player: u64) -> Map<ItemId, Item> {
    if inv.contains_key(player) {
        inv[player]
    } else {
        Map::empty()
    }
}

/// The item `item_id` of `player`, where the player holds it.
pub open spec fn item_at(inv: Map<u64, Map<ItemId, Item>>, player: u64, item_id: ItemId) -> Option<
    Item,
> {
    if items_of(inv, player).contains_key(item_id) {
        Some(items_of(inv, player)[item_id])
    } else {
        None
    }
}

/// In-memory inventory store backed by a `HashMap` of per-player `HashMap`s.
pub struct InMemoryInventoryStore {
    inventories: HashMap<u64, HashMap<ItemId, Item>>,
}

impl View for InMemoryInventoryStore {
    type V = Map<u64, Map<ItemId, Item>>;

    closed spec fn view(&self) -> Map<u64, Map<ItemId, Item>> {
        self.inventories@.map_values(|inv: HashMap<ItemId, Item>| inv@)
    }
}

impl InMemoryInventoryStore {
    pub fn new() -> (s: InMemoryInventoryStore)
        ensures
            s@ == Map::<u64, Map<ItemId, Item>>::empty(),
    {
        let s = InMemoryInventoryStore { inventories: HashMap::new() };
        proof {
            assert(s@ =~= Map::<u64, Map<ItemId, Item>>::empty());
        }
        s
    }

    /// Get a specific item from a player's inventory.
    pub fn get_item(&self, player_id: PlayerId, item_id: ItemId) -> (r: Result<Item, MrRollerError>)
        ensures
            match r {
                Ok(item) => item_at(self@, player_id.0, item_id) == Some(item),
                Err(e) => item_at(self@, player_id.0, item_id) is None && e is ItemNotFound,
            },
    {
        match self.inventories.get(&player_id.0) {
            Some(inv) => match inv.get(&item_id) {
                Some(item) => Ok(item.clone()),
                None => Err(MrRollerError::ItemNotFound),
            },
            None => Err(MrRollerError::ItemNotFound),
        }
    }

    /// Adds an item to a player's inventory under the id `item_id`.
    pub fn add_item_with_id(&mut self, player_id: PlayerId, item: Item, item_id: ItemId)
        ensures
            final(self)@ == old(self)@.insert(
                player_id.0,
                items_of(old(self)@, player_id.0).insert(item_id, item),
            ),
    {
        let ghost old_view = self@;
        let mut inv = match self.inventories.remove(&player_id.0) {
            Some(inv) => inv,
            None => HashMap::new(),
        };
        proof {
            assert(inv@ == items_of(old_view, player_id.0));
        }
        inv.insert(item_id, item);
        self.inventories.insert(player_id.0, inv);
        proof {
            assert(self@ =~= old_view.insert(
                player_id.0,
                items_of(old_view, player_id.0).insert(item_id, item),
            ));
        }
    }

    /// Add an item to a player's inventory, returning the fresh `ItemId` it
    /// was stored under.
    pub fn add_item(&mut self, player_id: PlayerId, item: Item) -> (r: Result<ItemId, MrRollerError>)
        ensures
            r matches Ok(id) && final(self)@ == old(self)@.insert(
                player_id.0,
                items_of(old(self)@, player_id.0).insert(id, item),
            ),
    {
        let id = new_uuid();
        self.add_item_with_id(player_id, item, id);
        Ok(id)
    }

    /// Remove a specific item from a player's inventory.
    pub fn remove_item(&mut self, player_id: PlayerId, item_id: ItemId) -> (r: Result<
        (),
        MrRollerError,
    >)
        ensures
            match r {
                Ok(()) => item_at(old(self)@, player_id.0, item_id) is Some
                    && final(self)@ == old(self)@.insert(
                    player_id.0,
                    items_of(old(self)@, player_id.0).remove(item_id),
                ),
                Err(e) => item_at(old(self)@, player_id.0, item_id) is None && e is ItemNotFound
                    && final(self)@ == old(self)@,
            },
    {
        let ghost old_view = self@;
        match self.inventories.remove(&player_id.0) {
            Some(mut inv) => {
                proof {
                    assert(inv@ == items_of(old_view, player_id.0));
                }
                let removed = inv.remove(&item_id);
                self.inventories.insert(player_id.0, inv);
                match removed {
                    Some(_) => {
                        proof {
                            assert(self@ =~= old_view.insert(
                                player_id.0,
                                items_of(old_view, player_id.0).remove(item_id),
                            ));
                        }
                        Ok(())
                    },
                    None => {
                        proof {
                            assert(inv@ =~= items_of(old_view, player_id.0));
                            assert(self@ =~= old_view);
                        }
                        Err(MrRollerError::ItemNotFound)
                    },
                }
            },
            None => {
                proof {
                    assert(self@ =~= old_view);
                }
                Err(MrRollerError::ItemNotFound)
            },
        }
    }

    /// List all items (with their IDs) in a player's inventory, each once, in
    /// no particular order.
    pub fn list_items(&self, player_id: PlayerId) -> (r: Result<Vec<(ItemId, Item)>, MrRollerError>)
        ensures
            r matches Ok(v) && {
                let items = items_of(self@, player_id.0);
                &&& v@.len() == items.dom().len()
                &&& forall|i: int|
                    0 <= i < v@.len() ==> #[trigger] items.contains_key(v@[i].0) && items[v@[i].0]
                        == v@[i].1
                &&& forall|i: int, j: int|
                    0 <= i < j < v@.len() ==> #[trigger] v@[i].0 != #[trigger] v@[j].0
            },
    {
        let mut out: Vec<(ItemId, Item)> = Vec::new();
        match self.inventories.get(&player_id.0) {
            Some(inv) => {
                for k in it: inv.keys()
                    invariant
                        it.seq().no_duplicates(),
                        inv@ == items_of(self@, player_id.0),
                        out@.len() == it.index(),
                        forall|i: int| 0 <= i < out@.len() ==> out@[i].0 == *it.seq()[i],
                        forall|i: int|
                            0 <= i < out@.len() ==> #[trigger] inv@.contains_key(out@[i].0)
                                && inv@[out@[i].0] == out@[i].1,
                        forall|i: int, j: int|
                            0 <= i < j < out@.len() ==> #[trigger] out@[i].0 != #[trigger] out@[j].0,
                {
                    match inv.get(k) {
                        Some(item) => {
                            proof {
                                let ghost n = out@.len() as int;
                                assert forall|i: int| 0 <= i < n implies out@[i].0 != *k by {
                                    assert(it.seq()[i] != it.seq()[n]);
                                }
                            }
                            out.push((*k, item.clone()));
                        },
                        None => {},
                    }
                }
            },
            None => {},
        }
        Ok(out)
    }
}

impl Default for InMemoryInventoryStore {
    fn default() -> (s: Self)
        ensures
            s@ == Map::<u64, Map<ItemId, Item>>::empty(),
    {
        InMemoryInventoryStore::new()
    }
}

} // verus!
