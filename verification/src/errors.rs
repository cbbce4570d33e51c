//! The error type of every fallible game operation.

use vstd::prelude::*;
use crate::text::owned;

verus! {

#[derive(Debug)]
pub enum MrRollerError {
    PlayerNotFound,
    PlayerAlreadyInGame,
    ItemNotFound,
    Storage(String),
}

impl MrRollerError {
    /// The text the error is shown with.
    pub open spec fn message_spec(&self) -> Seq<char> {
        match self {
            MrRollerError::PlayerNotFound => "Player not found"@,
            MrRollerError::PlayerAlreadyInGame => "Player already in game"@,
            MrRollerError::ItemNotFound => "Item not found"@,
            MrRollerError::Storage(message) => "Storage error: "@ + message@,
        }
    }

    /// The text the error is shown with (its `Display` form).
    pub fn message(&self) -> (s: String)
        ensures
            s@ == self.message_spec(),
    {
        match self {
            MrRollerError::PlayerNotFound => owned("Player not found"),
            MrRollerError::PlayerAlreadyInGame => owned("Player already in game"),
            MrRollerError::ItemNotFound => owned("Item not found"),
            MrRollerError::Storage(message) => {
                let mut s = owned("Storage error: ");
                s.append(message.as_str());
                s
            },
        }
    }

    /// A storage error carrying the given text.
    pub fn storage(message: &str) -> (e: MrRollerError)
        ensures
            e matches MrRollerError::Storage(m) && m@ == message@,
    {
        MrRollerError::Storage(owned(message))
    }
}

} // verus!
