//! The structured response returned by every game command. Frontends (CLI,
//! Discord) render these without knowing game internals.

use vstd::prelude::*;

verus! {

/// Categorises the response so frontends can render appropriately.
#[derive(Debug, Clone, Copy, PartialEq, Eq, Structural)]
pub enum ResponseKind {
    Success,
    Error,
    DiceRoll,
    Inventory,
    Leaderboard,
    Shop,
    Event,
}

/// The name a kind is shown with in records (its `Debug` form).
pub open spec fn kind_name_spec(kind: ResponseKind) -> Seq<char> {
    match kind {
        ResponseKind::Success => "Success"@,
        ResponseKind::Error => "Error"@,
        ResponseKind::DiceRoll => "DiceRoll"@,
        ResponseKind::Inventory => "Inventory"@,
        ResponseKind::Leaderboard => "Leaderboard"@,
        ResponseKind::Shop => "Shop"@,
        ResponseKind::Event => "Event"@,
    }
}

pub fn kind_name(kind: ResponseKind) -> (s: &'static str)
    ensures
        s@ == kind_name_spec(kind),
{
    match kind {
        ResponseKind::Success => "Success",
        ResponseKind::Error => "Error",
        ResponseKind::DiceRoll => "DiceRoll",
        ResponseKind::Inventory => "Inventory",
        ResponseKind::Leaderboard => "Leaderboard",
        ResponseKind::Shop => "Shop",
        ResponseKind::Event => "Event",
    }
}

/// One item of an inventory listing.
#[derive(Debug)]
pub struct InventoryEntry {
    pub id: u128,
    pub name: String,
    pub description: String,
}

/// One row of the leaderboard.
#[derive(Debug, Clone, Copy, PartialEq, Eq, Structural)]
pub struct LeaderboardEntry {
    pub player_id: u64,
    pub xp: u64,
    pub coins: u64,
}

/// One item on sale in the shop.
#[derive(Debug)]
pub struct ShopEntry {
    pub key: String,
    pub name: String,
    pub description: String,
    pub price: u64,
}

/// The public description of an event.
#[derive(Debug)]
pub struct EventSummary {
    pub id: u128,
    pub title: String,
    pub description: String,
    /// `active`, `claimed`, `trashed` or `expired`.
    pub status: String,
    /// The player who claimed or trashed the event.
    pub actor_id: Option<u64>,
    pub item_name: Option<String>,
    /// Expiry instant in microseconds since the Unix epoch.
    pub expires_at: i64,
}

/// The structured payload of a response.
#[derive(Debug)]
pub enum ResponseData {
    /// A dice roll result.
    Roll(u32),
    Inventory(Vec<InventoryEntry>),
    Leaderboard(Vec<LeaderboardEntry>),
    Shop(Vec<ShopEntry>),
    /// A single event.
    Event(EventSummary),
    /// A list of events.
    Events(Vec<EventSummary>),
    /// An explicit empty payload (rendered as JSON `null`).
    Null,
    /// The receipt of an admin grant.
    ItemGranted { player_id: u64, item_id: u128, item_name: String },
}

impl ResponseData {
    /// Whether the payload is a single object (an event or a grant receipt).
    pub open spec fn is_object_spec(&self) -> bool {
        self is Event || self is ItemGranted
    }

    pub fn is_object(&self) -> (r: bool)
        ensures
            r == self.is_object_spec(),
    {
        match self {
            ResponseData::Event(_) => true,
            ResponseData::ItemGranted { .. } => true,
            _ => false,
        }
    }
}

/// A structured response returned by every game command.
#[derive(Debug)]
pub struct Response {
    pub kind: ResponseKind,
    pub message: String,
    pub data: Option<ResponseData>,
}

impl Response {
    pub fn success(message: String) -> (r: Response)
        ensures
            r.kind == ResponseKind::Success,
            r.message == message,
            r.data is None,
    {
        Response { kind: ResponseKind::Success, message, data: None }
    }

    pub fn error(message: String) -> (r: Response)
        ensures
            r.kind == ResponseKind::Error,
            r.message == message,
            r.data is None,
    {
        Response { kind: ResponseKind::Error, message, data: None }
    }

    pub fn dice_roll(message: String, roll: u32) -> (r: Response)
        ensures
            r.kind == ResponseKind::DiceRoll,
            r.message == message,
            r.data == Some(ResponseData::Roll(roll)),
    {
        Response { kind: ResponseKind::DiceRoll, message, data: Some(ResponseData::Roll(roll)) }
    }

    pub fn inventory(message: String, items: Vec<InventoryEntry>) -> (r: Response)
        ensures
            r.kind == ResponseKind::Inventory,
            r.message == message,
            r.data == Some(ResponseData::Inventory(items)),
    {
        Response {
            kind: ResponseKind::Inventory,
            message,
            data: Some(ResponseData::Inventory(items)),
        }
    }

    pub fn leaderboard(message: String, entries: Vec<LeaderboardEntry>) -> (r: Response)
        ensures
            r.kind == ResponseKind::Leaderboard,
            r.message == message,
            r.data == Some(ResponseData::Leaderboard(entries)),
    {
        Response {
            kind: ResponseKind::Leaderboard,
            message,
            data: Some(ResponseData::Leaderboard(entries)),
        }
    }

    pub fn shop(message: String, entries: Vec<ShopEntry>) -> (r: Response)
        ensures
            r.kind == ResponseKind::Shop,
            r.message == message,
            r.data == Some(ResponseData::Shop(entries)),
    {
        Response { kind: ResponseKind::Shop, message, data: Some(ResponseData::Shop(entries)) }
    }

    pub fn event(message: String, data: ResponseData) -> (r: Response)
        ensures
            r.kind == ResponseKind::Event,
            r.message == message,
            r.data == Some(data),
    {
        Response { kind: ResponseKind::Event, message, data: Some(data) }
    }
}

} // verus!
