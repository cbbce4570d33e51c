//! In-memory event storage.

use vstd::prelude::*;
use std::collections::HashMap;
use crate::errors::MrRollerError;
use crate::event::{ActiveEvent, EventId};

verus! {

broadcast use vstd::std_specs::hash::group_hash_axioms;

/// In-memory event store backed by a `HashMap` keyed by event id.
pub struct InMemoryEventStore {
    events: HashMap<EventId, ActiveEvent>,
}

impl View for InMemoryEventStore {
    type V = Map<EventId, ActiveEvent>;

    closed spec fn view(&self) -> Map<EventId, ActiveEvent> {
        self.events@
    }
}

/// Whether `e` is the text of the missing-event error.
pub open spec fn is_event_not_found(e: MrRollerError) -> bool {
    e matches MrRollerError::Storage(m) && m@ == "Event not found"@
}

impl InMemoryEventStore {
    /// Every event is stored under its own id.
    #[verifier::type_invariant]
    closed spec fn keyed_by_id(&self) -> bool {
        forall|k: EventId| #[trigger] self.events@.contains_key(k) ==> self.events@[k].id == k
    }

    /// The store holds finitely many events.
    pub proof fn lemma_finite(&self)
        ensures
            self@.dom().finite(),
    {
    }

    pub fn new() -> (s: InMemoryEventStore)
        ensures
            s@ == Map::<EventId, ActiveEvent>::empty(),
    {
        InMemoryEventStore { events: HashMap::new() }
    }

    pub fn insert_event(&mut self, event: ActiveEvent) -> (r: Result<(), MrRollerError>)
        ensures
            r is Ok,
            final(self)@ == old(self)@.insert(event.id, event),
    {
        proof {
            use_type_invariant(&*self);
        }
        let mut events = HashMap::new();
        std::mem::swap(&mut events, &mut self.events);
        events.insert(event.id, event);
        self.events = events;
        Ok(())
    }

    pub fn get_event(&self, id: EventId) -> (r: Result<ActiveEvent, MrRollerError>)
        ensures
            match r {
                Ok(e) => self@.contains_key(id) && e == self@[id] && e.id == id,
                Err(e) => !self@.contains_key(id) && is_event_not_found(e),
            },
    {
        proof {
            use_type_invariant(self);
        }
        match self.events.get(&id) {
            Some(e) => Ok(e.clone()),
            None => Err(MrRollerError::storage("Event not found")),
        }
    }

    /// Replaces a stored event. Errors if no event has its id.
    pub fn update_event(&mut self, event: ActiveEvent) -> (r: Result<(), MrRollerError>)
        ensures
            match r {
                Ok(()) => old(self)@.contains_key(event.id) && final(self)@ == old(self)@.insert(
                    event.id,
                    event,
                ),
                Err(e) => !old(self)@.contains_key(event.id) && is_event_not_found(e)
                    && final(self)@ == old(self)@,
            },
    {
        proof {
            use_type_invariant(&*self);
        }
        if !self.events.contains_key(&event.id) {
            return Err(MrRollerError::storage("Event not found"));
        }
        let mut events = HashMap::new();
        std::mem::swap(&mut events, &mut self.events);
        events.insert(event.id, event);
        self.events = events;
        Ok(())
    }

    /// Every stored event, each once, in no particular order.
    pub fn list_events(&self) -> (r: Result<Vec<ActiveEvent>, MrRollerError>)
        ensures
            r matches Ok(v) && {
                &&& v@.len() == self@.dom().len()
                &&& forall|i: int|
                    0 <= i < v@.len() ==> #[trigger] self@.contains_key(v@[i].id) && self@[v@[i].id]
                        == v@[i]
                &&& forall|i: int, j: int|
                    0 <= i < j < v@.len() ==> #[trigger] v@[i].id != #[trigger] v@[j].id
                &&& forall|k: EventId|
                    #[trigger] self@.contains_key(k) ==> exists|i: int|
                        0 <= i < v@.len() && v@[i].id == k
            },
    {
        proof {
            use_type_invariant(self);
        }
        let mut out: Vec<ActiveEvent> = Vec::new();
        for k in it: self.events.keys()
            invariant
                forall|k: EventId| #[trigger] self.events@.contains_key(k) ==> self.events@[k].id == k,
                it.seq().unref().to_set() == self.events@.dom(),
                it.seq().no_duplicates(),
                out@.len() == it.index(),
                forall|i: int| 0 <= i < out@.len() ==> out@[i].id == *it.seq()[i],
                forall|i: int|
                    0 <= i < out@.len() ==> #[trigger] self.events@.contains_key(out@[i].id)
                        && self.events@[out@[i].id] == out@[i],
                forall|i: int, j: int|
                    0 <= i < j < out@.len() ==> #[trigger] out@[i].id != #[trigger] out@[j].id,
        {
            match self.events.get(k) {
                Some(e) => {
                    proof {
                        let ghost n = out@.len() as int;
                        assert forall|i: int| 0 <= i < n implies out@[i].id != *k by {
                            assert(it.seq()[i] != it.seq()[n]);
                        }
                    }
                    out.push(e.clone());
                },
                None => {},
            }
        }
        Ok(out)
    }
}

impl Default for InMemoryEventStore {
    fn default() -> (s: Self)
        ensures
            s@ == Map::<EventId, ActiveEvent>::empty(),
    {
        InMemoryEventStore::new()
    }
}

} // verus!
