//! In-memory player storage.

use vstd::prelude::*;
use std::collections::HashMap;
use crate::errors::MrRollerError;
use crate::player::{Player, PlayerId};

verus! {

broadcast use vstd::std_specs::hash::group_hash_axioms;

/// In-memory player store backed by a `HashMap` keyed by player id.
pub struct InMemoryPlayerStore {
    players: HashMap<u64, Player>,
}

impl View for InMemoryPlayerStore {
    type V = Map<u64, Player>;

    closed spec fn view(&self) -> Map<u64, Player> {
        self.players@
    }
}

impl InMemoryPlayerStore {
    /// Every player is stored under its own id.
    #[verifier::type_invariant]
    closed spec fn keyed_by_id(&self) -> bool {
        forall|k: u64| #[trigger] self.players@.contains_key(k) ==> self.players@[k].id.0 == k
    }

    pub fn new() -> (s: InMemoryPlayerStore)
        ensures
            s@ == Map::<u64, Player>::empty(),
    {
        InMemoryPlayerStore { players: HashMap::new() }
    }

    /// Returns the player if they exist.
    pub fn get(&self, id: PlayerId) -> (r: Result<Player, MrRollerError>)
        ensures
            match r {
                Ok(p) => self@.contains_key(id.0) && p == self@[id.0] && p.id == id,
                Err(e) => !self@.contains_key(id.0) && e is PlayerNotFound,
            },
    {
        proof {
            use_type_invariant(self);
        }
        match self.players.get(&id.0) {
            Some(p) => Ok(*p),
            None => Err(MrRollerError::PlayerNotFound),
        }
    }

    /// Inserts a new player. Errors if they already exist.
    pub fn insert(&mut self, player: Player) -> (r: Result<(), MrRollerError>)
        ensures
            match r {
                Ok(()) => !old(self)@.contains_key(player.id.0) && final(self)@ == old(self)@.insert(
                    player.id.0,
                    player,
                ),
                Err(e) => old(self)@.contains_key(player.id.0) && e is PlayerAlreadyInGame
                    && final(self)@ == old(self)@,
            },
    {
        proof {
            use_type_invariant(&*self);
        }
        if self.players.contains_key(&player.id.0) {
            return Err(MrRollerError::PlayerAlreadyInGame);
        }
        let mut players = HashMap::new();
        std::mem::swap(&mut players, &mut self.players);
        players.insert(player.id.0, player);
        self.players = players;
        Ok(())
    }

    /// Replaces a stored player's record. Errors if they are not stored.
    pub fn update(&mut self, player: Player) -> (r: Result<(), MrRollerError>)
        ensures
            match r {
                Ok(()) => old(self)@.contains_key(player.id.0) && final(self)@ == old(self)@.insert(
                    player.id.0,
                    player,
                ),
                Err(e) => !old(self)@.contains_key(player.id.0) && e is PlayerNotFound
                    && final(self)@ == old(self)@,
            },
    {
        proof {
            use_type_invariant(&*self);
        }
        if !self.players.contains_key(&player.id.0) {
            return Err(MrRollerError::PlayerNotFound);
        }
        let mut players = HashMap::new();
        std::mem::swap(&mut players, &mut self.players);
        players.insert(player.id.0, player);
        self.players = players;
        Ok(())
    }

    /// Removes a player. Errors if not found.
    pub fn remove(&mut self, id: PlayerId) -> (r: Result<(), MrRollerError>)
        ensures
            match r {
                Ok(()) => old(self)@.contains_key(id.0) && final(self)@ == old(self)@.remove(id.0),
                Err(e) => !old(self)@.contains_key(id.0) && e is PlayerNotFound && final(self)@
                    == old(self)@,
            },
    {
        proof {
            use_type_invariant(&*self);
        }
        let mut players = HashMap::new();
        std::mem::swap(&mut players, &mut self.players);
        let removed = players.remove(&id.0);
        self.players = players;
        match removed {
            Some(_) => Ok(()),
            None => Err(MrRollerError::PlayerNotFound),
        }
    }

    /// Returns true if the player exists.
    pub fn contains(&self, id: PlayerId) -> (r: Result<bool, MrRollerError>)
        ensures
            r == Ok::<bool, MrRollerError>(self@.contains_key(id.0)),
    {
        Ok(self.players.contains_key(&id.0))
    }

    /// Returns all players, each once, in no particular order.
    pub fn all(&self) -> (r: Result<Vec<Player>, MrRollerError>)
        ensures
            r matches Ok(v) && {
                &&& v@.len() == self@.dom().len()
                &&& forall|i: int|
                    0 <= i < v@.len() ==> #[trigger] self@.contains_key(v@[i].id.0) && self@[v@[i].id.0]
                        == v@[i]
                &&& forall|i: int, j: int|
                    0 <= i < j < v@.len() ==> #[trigger] v@[i].id != #[trigger] v@[j].id
            },
    {
        proof {
            use_type_invariant(self);
        }
        let mut out: Vec<Player> = Vec::new();
        for k in it: self.players.keys()
            invariant
                forall|k: u64| #[trigger] self.players@.contains_key(k) ==> self.players@[k].id.0 == k,
                it.seq().no_duplicates(),
                out@.len() == it.index(),
                forall|i: int, j: int|
                    0 <= i < j < out@.len() ==> #[trigger] out@[i].id != #[trigger] out@[j].id,
                forall|i: int| 0 <= i < out@.len() ==> out@[i].id.0 == *it.seq()[i],
                forall|i: int|
                    0 <= i < out@.len() ==> #[trigger] self.players@.contains_key(out@[i].id.0)
                        && self.players@[out@[i].id.0] == out@[i],
        {
            let p = match self.players.get(k) {
                Some(p) => *p,
                None => Player::new(PlayerId(*k)),
            };
            proof {
                let ghost n = out@.len() as int;
                assert forall|i: int| 0 <= i < n implies out@[i].id != p.id by {
                    assert(it.seq()[i] != it.seq()[n]);
                }
            }
            out.push(p);
        }
        Ok(out)
    }
}

impl Default for InMemoryPlayerStore {
    fn default() -> (s: Self)
        ensures
            s@ == Map::<u64, Player>::empty(),
    {
        InMemoryPlayerStore::new()
    }
}

} // verus!
