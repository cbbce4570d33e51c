//! Global random events: listing, spawning, claiming and trashing.

use vstd::prelude::*;
use crate::command::admin::{refused_unless_admin, require_admin};
use crate::command::kinds::{admin_kind_of, unknown_admin_item_message, AdminItemKind};
use crate::command::{is_refusal, stores_are, untouched, with_item, Command};
use crate::config::{EventsConfig, RandomItemSpawnEntry};
use crate::errors::MrRollerError;
use crate::event::{expiry, expiry_of, ActiveEvent, EventId, EventKind, EventStatus};
use crate::game::{may_administer, scores_consistent, Game};
use crate::item::Item;
use crate::player::PlayerId;
use crate::response::{EventSummary, Response, ResponseData, ResponseKind};
use crate::sources::{new_uuid, now_micros, random_below, MAX_UTC_MICROS};
use crate::store::event::is_event_not_found;
use crate::store::inventory::ItemId;
use crate::text::{normalize_key_spec, owned};

verus! {

// ── Weighted choice of the spawned item ────────────────────────────────────

/// The sum of the weights of `entries`.
pub open spec fn total_weight(entries: Seq<RandomItemSpawnEntry>) -> nat
    decreases entries.len(),
{
    if entries.len() == 0 {
        0
    } else {
        total_weight(entries.drop_last()) + entries.last().weight as nat
    }
}

/// Whether a draw of `pick` (below the total weight) falls on entry `j`:
/// the weights laid end to end, `pick` lands in the span of entry `j`.
pub open spec fn picked(entries: Seq<RandomItemSpawnEntry>, pick: int, j: int) -> bool {
    &&& 0 <= j < entries.len()
    &&& total_weight(entries.take(j)) <= pick < total_weight(entries.take(j + 1))
}

pub open spec fn no_items_message() -> Seq<char> {
    "Random item spawn has no configured items"@
}

/// Whether `e` is a storage error with the text `m`.
pub open spec fn is_storage_error(e: MrRollerError, m: Seq<char>) -> bool {
    e matches MrRollerError::Storage(t) && t@ == m
}

/// Whether `r` is the item the configured weights choose with the draw
/// `pick`: an error where every weight is zero or the chosen key is no item.
pub open spec fn is_configured_item(
    entries: Seq<RandomItemSpawnEntry>,
    pick: int,
    r: Result<Item, MrRollerError>,
) -> bool {
    if total_weight(entries) == 0 {
        r matches Err(e) && is_storage_error(e, no_items_message())
    } else {
        exists|j: int|
            #[trigger] picked(entries, pick, j) && {
                let key = normalize_key_spec(entries[j].kind@);
                match admin_kind_of(key) {
                    Some(kind) => r matches Ok(item) && kind.grants(item),
                    None => r matches Err(e) && is_storage_error(e, unknown_admin_item_message(key)),
                }
            }
    }
}

proof fn lemma_total_weight_step(s: Seq<RandomItemSpawnEntry>, i: int)
    requires
        0 <= i < s.len(),
    ensures
        total_weight(s.take(i + 1)) == total_weight(s.take(i)) + s[i].weight,
{
    assert(s.take(i + 1).drop_last() =~= s.take(i));
}

proof fn lemma_total_weight_prefix(s: Seq<RandomItemSpawnEntry>, i: int)
    requires
        0 <= i <= s.len(),
    ensures
        total_weight(s.take(i)) <= total_weight(s),
    decreases s.len() - i,
{
    if i == s.len() {
        assert(s.take(i) =~= s);
    } else {
        lemma_total_weight_step(s, i);
        lemma_total_weight_prefix(s, i + 1);
    }
}

/// The sum of the configured weights.
fn total_weight_of(entries: &Vec<RandomItemSpawnEntry>) -> (t: u32)
    requires
        total_weight(entries@) <= u32::MAX,
    ensures
        t == total_weight(entries@),
{
    let mut total: u32 = 0;
    let mut i: usize = 0;
    while i < entries.len()
        invariant
            i <= entries@.len(),
            total_weight(entries@) <= u32::MAX,
            total == total_weight(entries@.take(i as int)),
        decreases entries@.len() - i,
    {
        proof {
            lemma_total_weight_step(entries@, i as int);
            lemma_total_weight_prefix(entries@, i + 1);
        }
        if entries[i].weight > 0 {
            total = total + entries[i].weight;
        }
        i = i + 1;
    }
    proof {
        assert(entries@.take(entries@.len() as int) =~= entries@);
    }
    total
}

/// Whether the configured weights sum within `u32`, as spawning needs.
pub fn weights_fit(entries: &Vec<RandomItemSpawnEntry>) -> (r: bool)
    ensures
        r == (total_weight(entries@) <= u32::MAX),
{
    let mut total: u64 = 0;
    let mut i: usize = 0;
    while i < entries.len()
        invariant
            i <= entries@.len(),
            total == total_weight(entries@.take(i as int)),
            total <= u32::MAX,
        decreases entries@.len() - i,
    {
        proof {
            lemma_total_weight_step(entries@, i as int);
        }
        total = total + entries[i].weight as u64;
        if total > 0xffff_ffffu64 {
            proof {
                lemma_total_weight_prefix(entries@, i + 1);
            }
            return false;
        }
        i = i + 1;
    }
    proof {
        assert(entries@.take(entries@.len() as int) =~= entries@);
    }
    true
}

/// The item the configured weights choose with the draw `pick`, a number
/// below the total weight.
pub fn configured_item_with(config: &EventsConfig, pick: u32) -> (r: Result<Item, MrRollerError>)
    requires
        total_weight(config.random_item_spawn.items@) <= u32::MAX,
        total_weight(config.random_item_spawn.items@) > 0 ==> pick < total_weight(
            config.random_item_spawn.items@,
        ),
    ensures
        is_configured_item(config.random_item_spawn.items@, pick as int, r),
{
    let entries = &config.random_item_spawn.items;
    let total = total_weight_of(entries);
    if total == 0 {
        return Err(MrRollerError::storage("Random item spawn has no configured items"));
    }
    let mut roll = pick;
    let mut i: usize = 0;
    while i < entries.len()
        invariant
            i <= entries@.len(),
            entries@ == config.random_item_spawn.items@,
            pick < total_weight(entries@),
            total_weight(entries@.take(i as int)) <= pick,
            roll == pick - total_weight(entries@.take(i as int)),
        decreases entries@.len() - i,
    {
        proof {
            lemma_total_weight_step(entries@, i as int);
        }
        let weight = entries[i].weight;
        if weight > 0 {
            if roll < weight {
                let r = match AdminItemKind::parse(entries[i].kind.as_str()) {
                    Ok(kind) => Ok(kind.into_item()),
                    Err(message) => Err(MrRollerError::Storage(message)),
                };
                proof {
                    let key = normalize_key_spec(entries@[i as int].kind@);
                    assert(picked(entries@, pick as int, i as int));
                    match admin_kind_of(key) {
                        Some(kind) => assert(r matches Ok(item) && kind.grants(item)),
                        None => assert(r matches Err(e) && is_storage_error(e, unknown_admin_item_message(key))),
                    }
                }
                return r;
            }
            roll = roll - weight;
        }
        i = i + 1;
    }
    proof {
        assert(entries@.take(entries@.len() as int) =~= entries@);
    }
    Err(MrRollerError::storage("Failed to choose random event item"))
}

// ── Event summaries ────────────────────────────────────────────────────────

/// Whether `v` describes the events of `events` active at `now`, each once
/// (in no particular order).
pub open spec fn lists_active(v: Seq<EventSummary>, events: Map<EventId, ActiveEvent>, now: int) -> bool {
    &&& forall|j: int|
        0 <= j < v.len() ==> #[trigger] events.contains_key(v[j].id) && events[v[j].id].active_at(now)
            && events[v[j].id].is_summary(v[j])
    &&& forall|a: int, b: int| 0 <= a < b < v.len() ==> #[trigger] v[a].id != #[trigger] v[b].id
    &&& forall|k: EventId|
        #[trigger] events.contains_key(k) && events[k].active_at(now) ==> exists|j: int|
            0 <= j < v.len() && v[j].id == k
}

/// The number of events active at `now`.
pub open spec fn active_count(events: Map<EventId, ActiveEvent>, now: int) -> nat {
    events.dom().filter(|k: EventId| events[k].active_at(now)).len()
}

/// Describes the events active at `now`.
fn active_summaries(game: &Game, now: i64) -> (r: Result<Vec<EventSummary>, MrRollerError>)
    ensures
        r matches Ok(v) && lists_active(v@, game.events@, now as int),
{
    let events = match game.events.list_events() {
        Ok(v) => v,
        Err(e) => return Err(e),
    };
    let ghost m = game.events@;
    let mut out: Vec<EventSummary> = Vec::new();
    let mut i: usize = 0;
    while i < events.len()
        invariant
            i <= events@.len(),
            forall|j: int|
                0 <= j < events@.len() ==> #[trigger] m.contains_key(events@[j].id) && m[events@[j].id]
                    == events@[j],
            forall|a: int, b: int|
                0 <= a < b < events@.len() ==> #[trigger] events@[a].id != #[trigger] events@[b].id,
            forall|j: int|
                0 <= j < out@.len() ==> #[trigger] m.contains_key(out@[j].id) && m[out@[j].id].active_at(
                    now as int,
                ) && m[out@[j].id].is_summary(out@[j]),
            forall|a: int, b: int| 0 <= a < b < out@.len() ==> #[trigger] out@[a].id != #[trigger] out@[b].id,
            forall|j: int| 0 <= j < out@.len() ==> exists|p: int| 0 <= p < i && events@[p].id == #[trigger] out@[j].id,
            forall|p: int|
                0 <= p < i && #[trigger] events@[p].active_at(now as int) ==> exists|j: int|
                    0 <= j < out@.len() && out@[j].id == events@[p].id,
        decreases events@.len() - i,
    {
        if events[i].is_active(now) {
            let s = events[i].summary();
            let ghost before = out@;
            proof {
                assert forall|j: int| 0 <= j < before.len() implies before[j].id != s.id by {
                    let p = choose|p: int| 0 <= p < i && events@[p].id == #[trigger] before[j].id;
                    assert(events@[p].id != events@[i as int].id);
                }
            }
            out.push(s);
            proof {
                assert forall|a: int, b: int| 0 <= a < b < out@.len() implies #[trigger] out@[a].id
                    != #[trigger] out@[b].id by {
                    if b == before.len() {
                        assert(out@[a] == before[a]);
                    } else {
                        assert(out@[a] == before[a]);
                        assert(out@[b] == before[b]);
                    }
                }
                assert forall|j: int| 0 <= j < out@.len() implies exists|p: int|
                    0 <= p < i + 1 && events@[p].id == #[trigger] out@[j].id by {
                    if j == before.len() {
                        assert(events@[i as int].id == out@[j].id);
                    } else {
                        assert(out@[j] == before[j]);
                    }
                }
                assert forall|p: int|
                    0 <= p < i + 1 && #[trigger] events@[p].active_at(now as int) implies exists|j: int|
                    0 <= j < out@.len() && out@[j].id == events@[p].id by {
                    if p == i {
                        assert(out@[before.len() as int].id == events@[p].id);
                    } else {
                        let j = choose|j: int| 0 <= j < before.len() && before[j].id == events@[p].id;
                        assert(out@[j] == before[j]);
                    }
                }
            }
        }
        i = i + 1;
    }
    proof {
        assert forall|k: EventId| #[trigger] m.contains_key(k) && m[k].active_at(now as int) implies exists|
            j: int,
        | 0 <= j < out@.len() && out@[j].id == k by {
            let p = choose|p: int| 0 <= p < events@.len() && events@[p].id == k;
            assert(events@[p].active_at(now as int));
        }
    }
    Ok(out)
}

/// Counts the events active at `now`.
fn count_active(game: &Game, now: i64) -> (r: Result<usize, MrRollerError>)
    ensures
        r matches Ok(n) && n == active_count(game.events@, now as int),
{
    let events = match game.events.list_events() {
        Ok(v) => v,
        Err(e) => return Err(e),
    };
    let ghost m = game.events@;
    let ghost mut counted: Set<EventId> = Set::empty();
    let mut count: usize = 0;
    let mut i: usize = 0;
    while i < events.len()
        invariant
            i <= events@.len(),
            forall|j: int|
                0 <= j < events@.len() ==> #[trigger] m.contains_key(events@[j].id) && m[events@[j].id]
                    == events@[j],
            forall|a: int, b: int|
                0 <= a < b < events@.len() ==> #[trigger] events@[a].id != #[trigger] events@[b].id,
            counted.finite(),
            count == counted.len(),
            count <= i,
            forall|k: EventId|
                #[trigger] counted.contains(k) <==> exists|p: int|
                    0 <= p < i && events@[p].id == k && events@[p].active_at(now as int),
        decreases events@.len() - i,
    {
        if events[i].is_active(now) {
            proof {
                let k = events@[i as int].id;
                if counted.contains(k) {
                    let p = choose|p: int|
                        0 <= p < i && events@[p].id == k && events@[p].active_at(now as int);
                    assert(events@[p].id != events@[i as int].id);
                }
                counted = counted.insert(k);
            }
            count = count + 1;
        }
        i = i + 1;
    }
    proof {
        let active = m.dom().filter(|k: EventId| m[k].active_at(now as int));
        assert forall|k: EventId| #[trigger] counted.contains(k) <==> active.contains(k) by {
            if active.contains(k) {
                let p = choose|p: int| 0 <= p < events@.len() && events@[p].id == k;
                assert(events@[p].active_at(now as int));
            }
            if counted.contains(k) {
                let p = choose|p: int|
                    0 <= p < events@.len() && events@[p].id == k && events@[p].active_at(now as int);
                assert(m.contains_key(events@[p].id));
            }
        }
        assert(counted =~= active);
    }
    Ok(count)
}

// ── Listing ────────────────────────────────────────────────────────────────

pub struct ListActiveEventsCommand;

/// What listing the events at `now` gives: every event still active.
pub open spec fn list_active_spec(pre: Game, post: Game, now: i64, r: Result<Response, MrRollerError>) -> bool {
    &&& untouched(pre, post)
    &&& r matches Ok(resp) && {
        &&& resp.kind == ResponseKind::Event
        &&& resp.data matches Some(ResponseData::Events(v)) && lists_active(v@, pre.events@, now as int)
            && resp.message@ == if v@.len() == 0 {
            "No active events."@
        } else {
            "Active events:"@
        }
    }
}

impl ListActiveEventsCommand {
    /// Lists the events active at `now`.
    pub fn execute_with(self, game: &mut Game, now: i64) -> (r: Result<Response, MrRollerError>)
        ensures
            list_active_spec(*old(game), *final(game), now, r),
    {
        let events = match active_summaries(game, now) {
            Ok(v) => v,
            Err(e) => return Err(e),
        };
        if events.len() == 0 {
            Ok(Response::event(owned("No active events."), ResponseData::Events(events)))
        } else {
            Ok(Response::event(owned("Active events:"), ResponseData::Events(events)))
        }
    }
}

impl Command for ListActiveEventsCommand {
    open spec fn runnable(&self, game: Game) -> bool {
        true
    }

    open spec fn outcome(&self, pre: Game, post: Game, r: Result<Response, MrRollerError>) -> bool {
        exists|now: i64| 0 <= now <= MAX_UTC_MICROS && list_active_spec(pre, post, now, r)
    }

    fn execute(self, game: &mut Game) -> (r: Result<Response, MrRollerError>) {
        let now = now_micros();
        self.execute_with(game, now)
    }
}

// ── Spawning ───────────────────────────────────────────────────────────────

pub open spec fn expiry_error_message() -> Seq<char> {
    "Event expiry is out of range"@
}

/// Whether `r` is an event response with the message `m` and no payload.
pub open spec fn is_event_notice(r: Response, m: Seq<char>) -> bool {
    r.kind == ResponseKind::Event && r.message@ == m && r.data == Some(ResponseData::Null)
}

/// What spawning a random item event does, with the weighted draw `pick`,
/// the new event's id and the time `now`.
///
/// The configured weights choose the item; the event is active, created at
/// `now`, expires after the configured timeout, and is announced with its
/// summary. Where the weights choose nothing, the chosen key is no item, or
/// the expiry cannot be represented, nothing changes and the error is
/// returned.
pub open spec fn spawn_spec(
    pre: Game,
    post: Game,
    pick: int,
    event_id: EventId,
    now: i64,
    r: Result<Response, MrRollerError>,
) -> bool {
    let spawn = pre.event_config.random_item_spawn;
    let entries = spawn.items@;
    if total_weight(entries) == 0 {
        untouched(pre, post) && (r matches Err(e) && is_storage_error(e, no_items_message()))
    } else {
        exists|j: int|
            #[trigger] picked(entries, pick, j) && {
                let key = normalize_key_spec(entries[j].kind@);
                match admin_kind_of(key) {
                    None => untouched(pre, post) && (r matches Err(e) && is_storage_error(
                        e,
                        unknown_admin_item_message(key),
                    )),
                    Some(kind) => match expiry_of(now as int, spawn.timeout_seconds) {
                        None => untouched(pre, post) && (r matches Err(e) && is_storage_error(
                            e,
                            expiry_error_message(),
                        )),
                        Some(expires) => {
                            let ev = post.events@[event_id];
                            &&& kind.grants(ev.item_spec())
                            &&& ev.id == event_id
                            &&& ev.status == EventStatus::Active
                            &&& ev.created_at == now
                            &&& ev.expires_at == expires
                            &&& stores_are(
                                pre,
                                post,
                                pre.players@,
                                pre.inventory@,
                                pre.leaderboard@,
                                pre.events@.insert(event_id, ev),
                                pre.item_use_history@,
                            )
                            &&& r matches Ok(resp) && {
                                &&& resp.kind == ResponseKind::Event
                                &&& resp.message@ == "Random item event spawned."@
                                &&& resp.data matches Some(ResponseData::Event(s)) && ev.is_summary(s)
                            }
                        },
                    },
                }
            }
    }
}

/// Spawns a random item event with the weighted draw `pick`, under
/// `event_id`, at `now`.
fn spawn_random_item_event_with(game: &mut Game, pick: u32, event_id: EventId, now: i64) -> (r: Result<
    Response,
    MrRollerError,
>)
    requires
        total_weight(old(game).event_config.random_item_spawn.items@) <= u32::MAX,
        total_weight(old(game).event_config.random_item_spawn.items@) > 0 ==> pick < total_weight(
            old(game).event_config.random_item_spawn.items@,
        ),
    ensures
        spawn_spec(*old(game), *final(game), pick as int, event_id, now, r),
        scores_consistent(*old(game)) ==> scores_consistent(*final(game)),
{
    let item = match configured_item_with(&game.event_config, pick) {
        Ok(item) => item,
        Err(e) => return Err(e),
    };
    let timeout = game.event_config.random_item_spawn.timeout_seconds;
    match expiry(now, timeout) {
        Some(_) => {},
        None => return Err(MrRollerError::storage("Event expiry is out of range")),
    }
    let event = ActiveEvent::random_item_spawn_at(item, timeout, event_id, now);
    let summary = event.summary();
    match game.events.insert_event(event) {
        Ok(()) => {},
        Err(e) => return Err(e),
    }
    Ok(Response::event(owned("Random item event spawned."), ResponseData::Event(summary)))
}

/// Spawns a random item event now, with a fresh id and a random draw.
fn spawn_random_item_event(game: &mut Game) -> (r: Result<Response, MrRollerError>)
    requires
        total_weight(old(game).event_config.random_item_spawn.items@) <= u32::MAX,
    ensures
        exists|pick: int, event_id: EventId, now: i64|
            {
                &&& 0 <= now <= MAX_UTC_MICROS
                &&& total_weight(old(game).event_config.random_item_spawn.items@) > 0 ==> 0 <= pick
                    < total_weight(old(game).event_config.random_item_spawn.items@)
                &&& #[trigger] spawn_spec(*old(game), *final(game), pick, event_id, now, r)
            },
        scores_consistent(*old(game)) ==> scores_consistent(*final(game)),
{
    let total = total_weight_of(&game.event_config.random_item_spawn.items);
    let pick = if total > 0 {
        random_below(total)
    } else {
        0
    };
    let event_id = new_uuid();
    let now = now_micros();
    spawn_random_item_event_with(game, pick, event_id, now)
}

pub struct MaybeSpawnRandomItemEventCommand {
    /// Whether the configured per-check chance came up (drawn by the caller,
    /// which holds that probability).
    pub chance_hit: bool,
}

/// What a scheduled check does at `now`: with events enabled, room under
/// the active event limit and the chance come up, it spawns an event.
pub open spec fn maybe_spawn_spec(
    pre: Game,
    post: Game,
    chance_hit: bool,
    pick: int,
    event_id: EventId,
    now: i64,
    r: Result<Response, MrRollerError>,
) -> bool {
    if !pre.event_config.enabled || !pre.event_config.random_item_spawn.enabled {
        untouched(pre, post) && (r matches Ok(resp) && is_event_notice(resp, "Events are disabled."@))
    } else if active_count(pre.events@, now as int) >= pre.event_config.max_active_events {
        untouched(pre, post) && (r matches Ok(resp) && is_event_notice(
            resp,
            "No event spawned because the active event limit has been reached."@,
        ))
    } else if !chance_hit {
        untouched(pre, post) && (r matches Ok(resp) && is_event_notice(resp, "No event spawned."@))
    } else {
        spawn_spec(pre, post, pick, event_id, now, r)
    }
}

/// Whether a check at `now` gets as far as spawning: events enabled, room
/// under the active event limit, and the chance come up.
pub open spec fn spawn_reached(game: Game, chance_hit: bool, now: int) -> bool {
    &&& chance_hit
    &&& game.event_config.enabled
    &&& game.event_config.random_item_spawn.enabled
    &&& active_count(game.events@, now) < game.event_config.max_active_events
}

/// Fewer events are active later: an event active at `t2` is active at any
/// earlier `t1`.
proof fn lemma_active_count_later(m: Map<EventId, ActiveEvent>, t1: int, t2: int)
    requires
        m.dom().finite(),
        t1 <= t2,
    ensures
        active_count(m, t2) <= active_count(m, t1),
{
    let a1 = m.dom().filter(|k: EventId| m[k].active_at(t1));
    let a2 = m.dom().filter(|k: EventId| m[k].active_at(t2));
    m.dom().lemma_len_filter(|k: EventId| m[k].active_at(t1));
    assert(a2.subset_of(a1));
    vstd::set_lib::lemma_len_subset(a2, a1);
}

impl MaybeSpawnRandomItemEventCommand {
    /// Runs the check at `now`, with the weighted draw `pick` and the id the
    /// new event would get.
    pub fn execute_with(self, game: &mut Game, pick: u32, event_id: EventId, now: i64) -> (r: Result<
        Response,
        MrRollerError,
    >)
        requires
            spawn_reached(*old(game), self.chance_hit, now as int) ==> total_weight(
                old(game).event_config.random_item_spawn.items@,
            ) <= u32::MAX,
            total_weight(old(game).event_config.random_item_spawn.items@) > 0 ==> pick < total_weight(
                old(game).event_config.random_item_spawn.items@,
            ),
        ensures
            maybe_spawn_spec(*old(game), *final(game), self.chance_hit, pick as int, event_id, now, r),
            scores_consistent(*old(game)) ==> scores_consistent(*final(game)),
    {
        if !game.event_config.enabled || !game.event_config.random_item_spawn.enabled {
            return Ok(Response::event(owned("Events are disabled."), ResponseData::Null));
        }
        let active_count = match count_active(game, now) {
            Ok(n) => n,
            Err(e) => return Err(e),
        };
        if active_count >= game.event_config.max_active_events {
            return Ok(
                Response::event(
                    owned("No event spawned because the active event limit has been reached."),
                    ResponseData::Null,
                ),
            );
        }
        if !self.chance_hit {
            return Ok(Response::event(owned("No event spawned."), ResponseData::Null));
        }
        spawn_random_item_event_with(game, pick, event_id, now)
    }

    /// Whether the check can run on `game` (see `runnable`).
    pub fn is_runnable(&self, game: &Game) -> (b: bool)
        ensures
            b == self.runnable(*game),
    {
        if !(self.chance_hit && game.event_config.enabled
            && game.event_config.random_item_spawn.enabled) {
            return true;
        }
        let latest = match count_active(game, MAX_UTC_MICROS) {
            Ok(n) => n,
            Err(_) => return true,
        };
        latest >= game.event_config.max_active_events || weights_fit(
            &game.event_config.random_item_spawn.items,
        )
    }
}

impl Command for MaybeSpawnRandomItemEventCommand {
    /// A check that gets as far as spawning sums the item weights, which must
    /// fit in `u32`. The clock reads no later than `MAX_UTC_MICROS`, and fewer
    /// events are active later, so a check can spawn only if it would at that
    /// instant.
    open spec fn runnable(&self, game: Game) -> bool {
        spawn_reached(game, self.chance_hit, MAX_UTC_MICROS as int) ==> total_weight(
            game.event_config.random_item_spawn.items@,
        ) <= u32::MAX
    }

    open spec fn outcome(&self, pre: Game, post: Game, r: Result<Response, MrRollerError>) -> bool {
        exists|pick: int, event_id: EventId, now: i64|
            {
                &&& 0 <= now <= MAX_UTC_MICROS
                &&& #[trigger] maybe_spawn_spec(pre, post, self.chance_hit, pick, event_id, now, r)
            }
    }

    fn execute(self, game: &mut Game) -> (r: Result<Response, MrRollerError>) {
        let now = now_micros();
        proof {
            game.events.lemma_finite();
            lemma_active_count_later(game.events@, now as int, MAX_UTC_MICROS as int);
        }
        let entries = &game.event_config.random_item_spawn.items;
        let pick = if self.chance_hit && weights_fit(entries) {
            let total = total_weight_of(entries);
            if total > 0 {
                random_below(total)
            } else {
                0
            }
        } else {
            0
        };
        let event_id = new_uuid();
        self.execute_with(game, pick, event_id, now)
    }
}

pub struct SpawnRandomItemEventCommand {
    pub admin_id: PlayerId,
}

impl SpawnRandomItemEventCommand {
    /// Whether the command can run on `game` (see `runnable`).
    pub fn is_runnable(&self, game: &Game) -> (b: bool)
        ensures
            b == self.runnable(*game),
    {
        match require_admin(game, self.admin_id) {
            Ok(None) => weights_fit(&game.event_config.random_item_spawn.items),
            _ => true,
        }
    }
}

impl Command for SpawnRandomItemEventCommand {
    open spec fn runnable(&self, game: Game) -> bool {
        may_administer(game, self.admin_id) ==> total_weight(
            game.event_config.random_item_spawn.items@,
        ) <= u32::MAX
    }

    open spec fn outcome(&self, pre: Game, post: Game, r: Result<Response, MrRollerError>) -> bool {
        &&& refused_unless_admin(pre, post, self.admin_id, r)
        &&& may_administer(pre, self.admin_id) ==> exists|pick: int, event_id: EventId, now: i64|
            {
                &&& 0 <= now <= MAX_UTC_MICROS
                &&& total_weight(pre.event_config.random_item_spawn.items@) > 0 ==> 0 <= pick
                    < total_weight(pre.event_config.random_item_spawn.items@)
                &&& #[trigger] spawn_spec(pre, post, pick, event_id, now, r)
            }
    }

    fn execute(self, game: &mut Game) -> (r: Result<Response, MrRollerError>) {
        match require_admin(game, self.admin_id) {
            Ok(Some(response)) => return Ok(response),
            Ok(None) => {},
            Err(e) => return Err(e),
        }
        spawn_random_item_event(game)
    }
}

// ── Claiming and trashing ──────────────────────────────────────────────────

pub open spec fn no_longer_active_spec() -> Seq<char> {
    "This event is no longer active."@
}

/// The event `ev` with the status `status`.
pub open spec fn with_status(ev: ActiveEvent, status: EventStatus) -> ActiveEvent {
    ActiveEvent {
        id: ev.id,
        kind: ev.kind,
        status,
        created_at: ev.created_at,
        expires_at: ev.expires_at,
    }
}

/// The checks shared by claiming and trashing at `now`: the player and the
/// event must exist, and the event must still be active. Holds when one fails
/// and the result is the refusal or error it calls for; `false` when all pass.
pub open spec fn event_action_refused(
    pre: Game,
    post: Game,
    player_id: PlayerId,
    event_id: EventId,
    now: i64,
    r: Result<Response, MrRollerError>,
) -> bool {
    if !pre.players@.contains_key(player_id.0) {
        untouched(pre, post) && (r matches Err(e) && e is PlayerNotFound)
    } else if !pre.events@.contains_key(event_id) {
        untouched(pre, post) && (r matches Err(e) && is_event_not_found(e))
    } else if !pre.events@[event_id].active_at(now as int) {
        untouched(pre, post) && (r matches Ok(resp) && is_refusal(resp, no_longer_active_spec()))
    } else {
        false
    }
}

/// Whether all the checks of claiming or trashing pass.
pub open spec fn event_action_allowed(pre: Game, player_id: PlayerId, event_id: EventId, now: i64) -> bool {
    &&& pre.players@.contains_key(player_id.0)
    &&& pre.events@.contains_key(event_id)
    &&& pre.events@[event_id].active_at(now as int)
}

/// Whether `r` answers an event action with `message` and the summary of `ev`.
pub open spec fn is_event_answer(r: Result<Response, MrRollerError>, message: Seq<char>, ev: ActiveEvent) -> bool {
    r matches Ok(resp) && {
        &&& resp.kind == ResponseKind::Event
        &&& resp.message@ == message
        &&& resp.data matches Some(ResponseData::Event(s)) && ev.is_summary(s)
    }
}

pub struct ClaimEventCommand {
    pub player_id: PlayerId,
    pub event_id: EventId,
}

/// What claiming at `now` does: the event's item goes to the player (stored
/// under `item_id`) and the event is marked claimed by them.
pub open spec fn claim_spec(
    pre: Game,
    post: Game,
    player_id: PlayerId,
    event_id: EventId,
    now: i64,
    item_id: ItemId,
    r: Result<Response, MrRollerError>,
) -> bool {
    if !event_action_allowed(pre, player_id, event_id, now) {
        event_action_refused(pre, post, player_id, event_id, now, r)
    } else {
        let ev = pre.events@[event_id];
        let claimed = with_status(ev, EventStatus::Claimed { player_id });
        &&& stores_are(
            pre,
            post,
            pre.players@,
            with_item(pre.inventory@, player_id.0, item_id, ev.item_spec()),
            pre.leaderboard@,
            pre.events@.insert(event_id, claimed),
            pre.item_use_history@,
        )
        &&& is_event_answer(r, "Event claimed."@, claimed)
    }
}

impl ClaimEventCommand {
    /// Claims the event at `now`, storing its item under `item_id`.
    pub fn execute_with(self, game: &mut Game, now: i64, item_id: ItemId) -> (r: Result<
        Response,
        MrRollerError,
    >)
        ensures
            claim_spec(*old(game), *final(game), self.player_id, self.event_id, now, item_id, r),
            scores_consistent(*old(game)) ==> scores_consistent(*final(game)),
    {
        match game.players.get(self.player_id) {
            Ok(_) => {},
            Err(e) => return Err(e),
        }
        let mut event = match game.events.get_event(self.event_id) {
            Ok(e) => e,
            Err(e) => return Err(e),
        };
        if !event.is_active(now) {
            return Ok(Response::error(owned("This event is no longer active.")));
        }
        match &event.kind {
            EventKind::RandomItemSpawn { item } => {
                game.inventory.add_item_with_id(self.player_id, item.clone(), item_id);
            },
        }
        event.status = EventStatus::Claimed { player_id: self.player_id };
        let summary = event.summary();
        match game.events.update_event(event) {
            Ok(()) => {},
            Err(e) => return Err(e),
        }
        Ok(Response::event(owned("Event claimed."), ResponseData::Event(summary)))
    }
}

impl Command for ClaimEventCommand {
    open spec fn runnable(&self, game: Game) -> bool {
        true
    }

    open spec fn outcome(&self, pre: Game, post: Game, r: Result<Response, MrRollerError>) -> bool {
        exists|now: i64, item_id: ItemId|
            {
                &&& 0 <= now <= MAX_UTC_MICROS
                &&& #[trigger] claim_spec(pre, post, self.player_id, self.event_id, now, item_id, r)
            }
    }

    fn execute(self, game: &mut Game) -> (r: Result<Response, MrRollerError>) {
        let now = now_micros();
        let item_id = new_uuid();
        self.execute_with(game, now, item_id)
    }
}

pub struct TrashEventCommand {
    pub player_id: PlayerId,
    pub event_id: EventId,
}

/// What trashing at `now` does: the event is marked trashed by the player,
/// and nobody gets its item.
pub open spec fn trash_spec(
    pre: Game,
    post: Game,
    player_id: PlayerId,
    event_id: EventId,
    now: i64,
    r: Result<Response, MrRollerError>,
) -> bool {
    if !event_action_allowed(pre, player_id, event_id, now) {
        event_action_refused(pre, post, player_id, event_id, now, r)
    } else {
        let trashed = with_status(pre.events@[event_id], EventStatus::Trashed { player_id });
        &&& stores_are(
            pre,
            post,
            pre.players@,
            pre.inventory@,
            pre.leaderboard@,
            pre.events@.insert(event_id, trashed),
            pre.item_use_history@,
        )
        &&& is_event_answer(r, "Event trashed."@, trashed)
    }
}

impl TrashEventCommand {
    /// Trashes the event at `now`.
    pub fn execute_with(self, game: &mut Game, now: i64) -> (r: Result<Response, MrRollerError>)
        ensures
            trash_spec(*old(game), *final(game), self.player_id, self.event_id, now, r),
            scores_consistent(*old(game)) ==> scores_consistent(*final(game)),
    {
        match game.players.get(self.player_id) {
            Ok(_) => {},
            Err(e) => return Err(e),
        }
        let mut event = match game.events.get_event(self.event_id) {
            Ok(e) => e,
            Err(e) => return Err(e),
        };
        if !event.is_active(now) {
            return Ok(Response::error(owned("This event is no longer active.")));
        }
        event.status = EventStatus::Trashed { player_id: self.player_id };
        let summary = event.summary();
        match game.events.update_event(event) {
            Ok(()) => {},
            Err(e) => return Err(e),
        }
        Ok(Response::event(owned("Event trashed."), ResponseData::Event(summary)))
    }
}

impl Command for TrashEventCommand {
    open spec fn runnable(&self, game: Game) -> bool {
        true
    }

    open spec fn outcome(&self, pre: Game, post: Game, r: Result<Response, MrRollerError>) -> bool {
        exists|now: i64|
            0 <= now <= MAX_UTC_MICROS && #[trigger] trash_spec(
                pre,
                post,
                self.player_id,
                self.event_id,
                now,
                r,
            )
    }

    fn execute(self, game: &mut Game) -> (r: Result<Response, MrRollerError>) {
        let now = now_micros();
        self.execute_with(game, now)
    }
}

} // verus!
