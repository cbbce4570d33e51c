//! Global random events.

use vstd::prelude::*;
use crate::item::Item;
use crate::player::PlayerId;
use crate::response::EventSummary;
use crate::sources::{new_uuid, now_micros, MAX_UTC_MICROS, MIN_UTC_MICROS};
use crate::text::{owned, push_str};

verus! {

pub type EventId = u128;

#[derive(Debug)]
pub enum EventKind {
    RandomItemSpawn { item: Item },
}

impl Clone for EventKind {
    fn clone(&self) -> (r: Self)
        ensures
            r == *self,
    {
        match self {
            EventKind::RandomItemSpawn { item } => EventKind::RandomItemSpawn { item: item.clone() },
        }
    }
}

#[derive(Debug, Clone, Copy, PartialEq, Eq, Structural)]
pub enum EventStatus {
    Active,
    Claimed { player_id: PlayerId },
    Trashed { player_id: PlayerId },
    Expired,
}

/// An event and its state. Instants are microseconds since the Unix epoch.
#[derive(Debug)]
pub struct ActiveEvent {
    pub id: EventId,
    pub kind: EventKind,
    pub status: EventStatus,
    pub created_at: i64,
    pub expires_at: i64,
}

impl Clone for ActiveEvent {
    fn clone(&self) -> (r: Self)
        ensures
            r == *self,
    {
        ActiveEvent {
            id: self.id,
            kind: self.kind.clone(),
            status: self.status,
            created_at: self.created_at,
            expires_at: self.expires_at,
        }
    }
}

/// Whole seconds of the largest `chrono::TimeDelta`.
pub const MAX_DELTA_SECS: i64 = 9_223_372_036_854_775;

/// The number of seconds `timeout_seconds as i64` gives (the cast wraps).
pub open spec fn timeout_as_secs(timeout_seconds: u64) -> int {
    if timeout_seconds <= i64::MAX {
        timeout_seconds as int
    } else {
        timeout_seconds - 0x1_0000_0000_0000_0000
    }
}

/// When an event created at `now` with the given timeout expires:
/// `now + chrono::Duration::seconds(timeout_seconds as i64)`, or `None` where
/// chrono refuses that duration or that instant (and panics).
pub open spec fn expiry_of(now: int, timeout_seconds: u64) -> Option<int> {
    let secs = timeout_as_secs(timeout_seconds);
    let expires = now + secs * 1_000_000;
    if -MAX_DELTA_SECS <= secs <= MAX_DELTA_SECS && MIN_UTC_MICROS <= expires <= MAX_UTC_MICROS {
        Some(expires)
    } else {
        None
    }
}

/// Computes `expiry_of(now, timeout_seconds)`.
pub fn expiry(now: i64, timeout_seconds: u64) -> (r: Option<i64>)
    ensures
        r matches Some(e) ==> expiry_of(now as int, timeout_seconds) == Some(e as int),
        r is None ==> expiry_of(now as int, timeout_seconds) is None,
{
    let secs: i128 = if timeout_seconds <= 0x7fff_ffff_ffff_ffffu64 {
        timeout_seconds as i128
    } else {
        timeout_seconds as i128 - 0x1_0000_0000_0000_0000i128
    };
    if secs < -(MAX_DELTA_SECS as i128) || secs > MAX_DELTA_SECS as i128 {
        return None;
    }
    let expires: i128 = now as i128 + secs * 1_000_000;
    if expires < MIN_UTC_MICROS as i128 || expires > MAX_UTC_MICROS as i128 {
        return None;
    }
    Some(expires as i64)
}

pub open spec fn event_title_spec() -> Seq<char> {
    "Random Item Spawn"@
}

pub open spec fn status_key_spec(status: EventStatus) -> Seq<char> {
    match status {
        EventStatus::Active => "active"@,
        EventStatus::Claimed { .. } => "claimed"@,
        EventStatus::Trashed { .. } => "trashed"@,
        EventStatus::Expired => "expired"@,
    }
}

pub open spec fn status_actor(status: EventStatus) -> Option<u64> {
    match status {
        EventStatus::Claimed { player_id } => Some(player_id.0),
        EventStatus::Trashed { player_id } => Some(player_id.0),
        _ => None,
    }
}

/// The key a status is stored and shown under.
pub fn event_status_key(status: &EventStatus) -> (s: &'static str)
    ensures
        s@ == status_key_spec(*status),
{
    match status {
        EventStatus::Active => "active",
        EventStatus::Claimed { .. } => "claimed",
        EventStatus::Trashed { .. } => "trashed",
        EventStatus::Expired => "expired",
    }
}

impl ActiveEvent {
    /// The item the event hands out.
    pub open spec fn item_spec(&self) -> Item {
        match self.kind {
            EventKind::RandomItemSpawn { item } => item,
        }
    }

    /// Whether the event can still be claimed or trashed at `now`.
    pub open spec fn active_at(&self, now: int) -> bool {
        self.status == EventStatus::Active && self.expires_at > now
    }

    pub open spec fn description_spec(&self) -> Seq<char> {
        "A "@ + self.item_spec().name_spec() + " has spawned! Claim it before someone else does."@
    }

    /// Whether `s` is the public description of this event.
    pub open spec fn is_summary(&self, s: EventSummary) -> bool {
        &&& s.id == self.id
        &&& s.title@ == event_title_spec()
        &&& s.description@ == self.description_spec()
        &&& s.status@ == status_key_spec(self.status)
        &&& s.actor_id == status_actor(self.status)
        &&& s.item_name matches Some(n) && n@ == self.item_spec().name_spec()
        &&& s.expires_at == self.expires_at
    }

    /// A new active event spawning `item`, with the given id, created at `now`.
    pub fn random_item_spawn_at(item: Item, timeout_seconds: u64, id: EventId, now: i64) -> (e:
        ActiveEvent)
        requires
            expiry_of(now as int, timeout_seconds) is Some,
        ensures
            e.id == id,
            e.kind == (EventKind::RandomItemSpawn { item }),
            e.status == EventStatus::Active,
            e.created_at == now,
            Some(e.expires_at as int) == expiry_of(now as int, timeout_seconds),
    {
        let expires_at = match expiry(now, timeout_seconds) {
            Some(t) => t,
            None => now,
        };
        ActiveEvent {
            id,
            kind: EventKind::RandomItemSpawn { item },
            status: EventStatus::Active,
            created_at: now,
            expires_at,
        }
    }

    /// A new active event spawning `item` now, under a fresh id; `None` where
    /// the clock and the timeout give an expiry that `chrono` cannot hold.
    pub fn random_item_spawn(item: Item, timeout_seconds: u64) -> (r: Option<ActiveEvent>)
        ensures
            r matches Some(e) ==> {
                &&& e.kind == (EventKind::RandomItemSpawn { item })
                &&& e.status == EventStatus::Active
                &&& MIN_UTC_MICROS <= e.created_at <= MAX_UTC_MICROS
                &&& Some(e.expires_at as int) == expiry_of(e.created_at as int, timeout_seconds)
            },
            r is None ==> exists|now: i64|
                MIN_UTC_MICROS <= now <= MAX_UTC_MICROS && #[trigger] expiry_of(
                    now as int,
                    timeout_seconds,
                ) is None,
    {
        let now = now_micros();
        let id = new_uuid();
        match expiry(now, timeout_seconds) {
            Some(_) => Some(ActiveEvent::random_item_spawn_at(item, timeout_seconds, id, now)),
            None => None,
        }
    }

    pub fn is_active(&self, now: i64) -> (r: bool)
        ensures
            r == self.active_at(now as int),
    {
        match self.status {
            EventStatus::Active => self.expires_at > now,
            _ => false,
        }
    }

    pub fn title(&self) -> (s: &'static str)
        ensures
            s@ == event_title_spec(),
    {
        match self.kind {
            EventKind::RandomItemSpawn { .. } => "Random Item Spawn",
        }
    }

    pub fn description(&self) -> (s: String)
        ensures
            s@ == self.description_spec(),
    {
        match &self.kind {
            EventKind::RandomItemSpawn { item } => {
                let mut s = owned("A ");
                push_str(&mut s, item.name());
                push_str(&mut s, " has spawned! Claim it before someone else does.");
                s
            },
        }
    }

    /// The public description of the event.
    pub fn summary(&self) -> (s: EventSummary)
        ensures
            self.is_summary(s),
    {
        let item_name = match &self.kind {
            EventKind::RandomItemSpawn { item } => owned(item.name()),
        };
        let actor_id = match self.status {
            EventStatus::Claimed { player_id } => Some(player_id.0),
            EventStatus::Trashed { player_id } => Some(player_id.0),
            _ => None,
        };
        EventSummary {
            id: self.id,
            title: owned(self.title()),
            description: self.description(),
            status: owned(event_status_key(&self.status)),
            actor_id,
            item_name: Some(item_name),
            expires_at: self.expires_at,
        }
    }
}

} // verus!
