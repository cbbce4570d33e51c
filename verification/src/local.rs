//! A minimal single-process game state: players and one inventory held in
//! plain maps, a simple output shape, and rollable dice. For embedders that
//! want plain maps rather than the store-backed `Game`.

use vstd::prelude::*;
use std::collections::HashMap;
use std::collections::hash_map::Entry;
use crate::errors::MrRollerError;
use crate::item::{BasicDice, Item};
use crate::player::{Player, PlayerId};
use crate::sources::{new_uuid, random_in_range};
use crate::store::inventory::ItemId;

verus! {

broadcast use vstd::std_specs::hash::group_hash_axioms;

/// Players kept in memory, by id.
pub enum MrRollerState {
    LocalState(HashMap<u64, Player>),
}

impl View for MrRollerState {
    type V = Map<u64, Player>;

    open spec fn view(&self) -> Map<u64, Player> {
        match self {
            MrRollerState::LocalState(state) => state@,
        }
    }
}

/// A fresh game state with no players.
pub fn init() -> (s: MrRollerState)
    ensures
        s@ == Map::<u64, Player>::empty(),
{
    MrRollerState::LocalState(HashMap::new())
}

impl MrRollerState {
    /// The player stored under `player_id`.
    pub fn get_player(&self, player_id: PlayerId) -> (r: Result<Player, MrRollerError>)
        ensures
            match r {
                Ok(p) => self@.contains_key(player_id.0) && p == self@[player_id.0],
                Err(e) => !self@.contains_key(player_id.0) && e is PlayerNotFound,
            },
    {
        match self {
            MrRollerState::LocalState(state) => match state.get(&player_id.0) {
                Some(player) => Ok(*player),
                None => Err(MrRollerError::PlayerNotFound),
            },
        }
    }

    /// The player stored under `player_id`, to be changed in place: what the
    /// caller leaves behind the reference is what the state then holds.
    pub fn get_player_mut(&mut self, player_id: PlayerId) -> (r: Result<&mut Player, MrRollerError>)
        ensures
            match r {
                Ok(p) => {
                    &&& old(self)@.contains_key(player_id.0)
                    &&& *p == old(self)@[player_id.0]
                    &&& final(self)@ == old(self)@.insert(player_id.0, *final(p))
                },
                Err(e) => {
                    &&& !old(self)@.contains_key(player_id.0)
                    &&& e is PlayerNotFound
                    &&& final(self)@ == old(self)@
                },
            },
    {
        match self {
            MrRollerState::LocalState(state) => match state.entry(player_id.0) {
                Entry::Occupied(entry) => Ok(entry.into_mut()),
                Entry::Vacant(_) => Err(MrRollerError::PlayerNotFound),
            },
        }
    }

    /// Stores `player` under its id, replacing any record there.
    pub fn add_player(&mut self, player: Player) -> (r: Result<(), MrRollerError>)
        ensures
            r is Ok,
            final(self)@ == old(self)@.insert(player.id.0, player),
    {
        match self {
            MrRollerState::LocalState(state) => {
                state.insert(player.id.0, player);
                Ok(())
            },
        }
    }
}

/// One inventory kept in memory, by item id.
pub enum Inventory {
    LocalInventory(HashMap<ItemId, Item>),
}

impl View for Inventory {
    type V = Map<ItemId, Item>;

    open spec fn view(&self) -> Map<ItemId, Item> {
        match self {
            Inventory::LocalInventory(inventory) => inventory@,
        }
    }
}

impl Inventory {
    pub fn local_inventory() -> (i: Inventory)
        ensures
            i@ == Map::<ItemId, Item>::empty(),
    {
        Inventory::LocalInventory(HashMap::new())
    }

    /// Adds `item` under `item_id`.
    pub fn add_item_with_id(&mut self, item: Item, item_id: ItemId)
        ensures
            final(self)@ == old(self)@.insert(item_id, item),
    {
        match self {
            Inventory::LocalInventory(inventory) => {
                inventory.insert(item_id, item);
            },
        }
    }

    /// Adds `item` under a fresh id, which is returned.
    pub fn add_item(&mut self, item: Item) -> (id: ItemId)
        ensures
            final(self)@ == old(self)@.insert(id, item),
    {
        let id = new_uuid();
        self.add_item_with_id(item, id);
        id
    }

    pub fn get_item(&self, item_id: ItemId) -> (r: Result<Item, MrRollerError>)
        ensures
            match r {
                Ok(item) => self@.contains_key(item_id) && item == self@[item_id],
                Err(e) => !self@.contains_key(item_id) && e is ItemNotFound,
            },
    {
        match self {
            Inventory::LocalInventory(inventory) => match inventory.get(&item_id) {
                Some(item) => Ok(item.clone()),
                None => Err(MrRollerError::ItemNotFound),
            },
        }
    }

    /// Every item held, in no particular order.
    pub fn list_items(&self) -> (v: Vec<Item>)
        ensures
            v@.len() == self@.dom().len(),
            forall|i: int| 0 <= i < v@.len() ==> self@.values().contains(#[trigger] v@[i]),
    {
        let inventory = match self {
            Inventory::LocalInventory(inventory) => inventory,
        };
        let mut out: Vec<Item> = Vec::new();
        for k in it: inventory.keys()
            invariant
                out@.len() == it.index(),
                forall|i: int| 0 <= i < out@.len() ==> inventory@.values().contains(#[trigger] out@[i]),
        {
            match inventory.get(k) {
                Some(item) => {
                    let c = item.clone();
                    proof {
                        assert(inventory@.contains_key(*k) && inventory@[*k] == c);
                        assert(inventory@.values().contains(c));
                    }
                    out.push(c);
                },
                None => {
                    proof {
                        assert(inventory@.contains_key(*k));
                    }
                    out.push(Item::BasicDice(BasicDice::regular_dice()));
                },
            }
        }
        out
    }
}

/// The text and colour of a message shown to a player.
pub struct Base {
    pub message: String,
    pub color: String,
}

/// The value of a roll.
pub struct DiceRoll {
    pub roll: u32,
}

/// What an action produced.
pub enum MrRollerOutput {
    Basic(Base),
    DiceRoll(Base, DiceRoll),
}

/// Something that can be rolled.
pub trait Dice {
    /// Whether `roll` can run (a non-empty range of faces).
    spec fn can_roll(&self) -> bool;

    /// The faces a roll can show.
    spec fn shows(&self, roll: u32) -> bool;

    fn roll(&self) -> (r: u32)
        requires
            self.can_roll(),
        ensures
            self.shows(r),
    ;
}

impl Dice for BasicDice {
    open spec fn can_roll(&self) -> bool {
        self.min_roll <= self.max_roll
    }

    open spec fn shows(&self, roll: u32) -> bool {
        self.min_roll <= roll <= self.max_roll
    }

    /// A value drawn uniformly in `min_roll..=max_roll`.
    fn roll(&self) -> (r: u32) {
        random_in_range(self.min_roll, self.max_roll)
    }
}

} // verus!
