//! Players and their identifiers.

use vstd::prelude::*;

verus! {

/// Uniquely identifies a player in the game.
#[derive(Debug, Clone, Copy, PartialEq, Eq, Hash, Structural)]
pub struct PlayerId(pub u64);

impl PlayerId {
    pub fn new(id: u64) -> (r: PlayerId)
        ensures
            r == PlayerId(id),
    {
        PlayerId(id)
    }
}

/// Player is a plain data record. Inventory is kept separately by the
/// inventory store, scores by the leaderboard store.
#[derive(Debug, Clone, Copy, PartialEq, Eq, Structural)]
pub struct Player {
    pub id: PlayerId,
    /// When the player last rolled a dice, in microseconds since the Unix
    /// epoch. `None` if they have not rolled yet (or a reroll token cleared it).
    pub last_roll_at: Option<i64>,
    pub luck: u64,
    pub coins: u64,
    pub xp: u64,
    /// Whether the player has run `/start` and received their starter dice.
    pub has_started: bool,
    /// Whether the player has completed the tutorial by rolling once.
    pub tutorial_completed: bool,
    pub is_admin: bool,
}

impl Player {
    /// The record of a player who has not started and holds nothing.
    pub open spec fn fresh(id: PlayerId) -> Player {
        Player {
            id,
            last_roll_at: None,
            luck: 0,
            coins: 0,
            xp: 0,
            has_started: false,
            tutorial_completed: false,
            is_admin: false,
        }
    }

    pub fn new(id: PlayerId) -> (p: Player)
        ensures
            p == Player::fresh(id),
    {
        Player {
            id,
            last_roll_at: None,
            luck: 0,
            coins: 0,
            xp: 0,
            has_started: false,
            tutorial_completed: false,
            is_admin: false,
        }
    }
}

} // verus!
