//! Frontend-agnostic random event scheduler.
//!
//! The scheduler only decides when to ask the game to maybe spawn an event;
//! it does not know how events are published. A frontend runs the timer
//! loop, calls `tick` on each check, and renders what it returns.

use vstd::prelude::*;
use crate::command::events::{maybe_spawn_spec, MaybeSpawnRandomItemEventCommand};
use crate::command::Command;
use crate::game::{scores_consistent, Game};
use crate::response::{Response, ResponseKind};
use crate::sources::MAX_UTC_MICROS;
use crate::text::{chars_eq_str, str_chars};

verus! {

#[derive(Debug)]
pub struct EventScheduler {
    /// Seconds between two checks.
    pub check_interval_seconds: u64,
}

pub open spec fn spawned_message() -> Seq<char> {
    "Random item event spawned."@
}

/// Whether a response announces a newly spawned event.
pub open spec fn is_spawned_event_spec(r: Response) -> bool {
    &&& r.kind == ResponseKind::Event
    &&& r.message@ == spawned_message()
    &&& r.data matches Some(d) && d.is_object_spec()
}

/// Whether a response announces a newly spawned event.
pub fn is_spawned_event_response(response: &Response) -> (b: bool)
    ensures
        b == is_spawned_event_spec(*response),
{
    response.kind == ResponseKind::Event && chars_eq_str(
        &str_chars(response.message.as_str()),
        "Random item event spawned.",
    ) && match &response.data {
        Some(data) => data.is_object(),
        None => false,
    }
}

impl EventScheduler {
    pub fn new(check_interval_seconds: u64) -> (s: EventScheduler)
        ensures
            s.check_interval_seconds == check_interval_seconds,
    {
        EventScheduler { check_interval_seconds }
    }

    /// A scheduler checking every `check_interval_seconds`, at least every
    /// second.
    pub fn from_seconds(check_interval_seconds: u64) -> (s: EventScheduler)
        ensures
            s.check_interval_seconds == if check_interval_seconds < 1 {
                1
            } else {
                check_interval_seconds
            },
    {
        let secs = if check_interval_seconds < 1 {
            1
        } else {
            check_interval_seconds
        };
        EventScheduler::new(secs)
    }

    /// One check: asks the game to maybe spawn an event (`chance_hit` says
    /// whether the per-check chance came up) and returns the announcement if
    /// one spawned.
    pub fn tick(&self, game: &mut Game, chance_hit: bool) -> (spawned: Option<Response>)
        requires
            (MaybeSpawnRandomItemEventCommand { chance_hit }).runnable(*old(game)),
        ensures
            exists|pick: int, event_id: u128, now: i64, r: Result<Response, crate::errors::MrRollerError>|
                {
                    &&& 0 <= now <= MAX_UTC_MICROS
                    &&& #[trigger] maybe_spawn_spec(*old(game), *final(game), chance_hit, pick, event_id, now, r)
                    &&& match spawned {
                        Some(resp) => is_spawned_event_spec(resp) && r == Ok::<
                            Response,
                            crate::errors::MrRollerError,
                        >(resp),
                        None => match r {
                            Ok(resp) => !is_spawned_event_spec(resp),
                            Err(_) => true,
                        },
                    }
                },
            scores_consistent(*old(game)) ==> scores_consistent(*final(game)),
    {
        let cmd = MaybeSpawnRandomItemEventCommand { chance_hit };
        let response = game.execute(cmd);
        if is_spawned_event_response(&response) {
            Some(response)
        } else {
            None
        }
    }
}

} // verus!
