//! What a drone remembers of its backends: the latest state of each one, and
//! the events the controller has not acknowledged yet, which are replayed to
//! every new listener in the order of their timestamps.
use crate::names::BackendName;
use crate::plane2::protocol::{BackendEventId, BackendStateMessage};
use crate::plane2::types::{BackendState, LoggableTime};
use crate::text::push_str;
use vstd::prelude::*;

verus! {

/// An event as the store holds it: its id, backend, state and timestamp
/// (milliseconds since the epoch).
pub type EventRecord = (i64, Seq<char>, BackendState, i64);

/// The abstract state of a store.
pub struct StoreState {
    /// The latest state of each backend, by name.
    pub statuses: Map<Seq<char>, BackendState>,
    /// The events not yet acknowledged, in the order they are replayed.
    pub events: Seq<EventRecord>,
    /// The id the next event gets.
    pub next_id: i64,
    /// Whether a listener is registered.
    pub listening: bool,
}

/// `a` is replayed before `b`: it is older, or as old and registered earlier.
pub open spec fn replayed_before(a: EventRecord, b: EventRecord) -> bool {
    a.3 < b.3 || (a.3 == b.3 && a.0 < b.0)
}

/// The events are in replay order, their ids are distinct, and every id is
/// below the next one to be given.
pub open spec fn events_consistent(events: Seq<EventRecord>, next_id: i64) -> bool {
    &&& forall|i: int, j: int| 0 <= i < j < events.len() ==> replayed_before(#[trigger] events[i], #[trigger] events[j])
    &&& forall|i: int, j: int| 0 <= i < events.len() && 0 <= j < events.len() && i != j ==> #[trigger] events[i].0 != #[trigger] events[j].0
    &&& forall|i: int| 0 <= i < events.len() ==> #[trigger] events[i].0 < next_id
}

/// Where an event with timestamp `time` goes among `events`: after every event
/// that is not newer.
pub open spec fn insert_pos(events: Seq<EventRecord>, time: i64) -> int
    decreases events.len(),
{
    if events.len() == 0 {
        0
    } else if events.last().3 <= time {
        events.len() as int
    } else {
        insert_pos(events.drop_last(), time)
    }
}

/// The store after the event `(backend, state, time)` is registered.
pub open spec fn registered(s: StoreState, backend: Seq<char>, state: BackendState, time: i64) -> StoreState {
    StoreState {
        statuses: s.statuses.insert(backend, state),
        events: s.events.insert(insert_pos(s.events, time), (s.next_id, backend, state, time)),
        next_id: (s.next_id + 1) as i64,
        listening: s.listening,
    }
}

/// Whether an event with id `id` is held.
pub open spec fn holds_event(events: Seq<EventRecord>, id: i64) -> bool {
    exists|k: int| 0 <= k < events.len() && events[k].0 == id
}

/// The position of the event with id `id`.
pub open spec fn event_position(events: Seq<EventRecord>, id: i64) -> int {
    choose|k: int| 0 <= k < events.len() && events[k].0 == id
}

/// The store after the event with id `id` is acknowledged: the event is dropped.
pub open spec fn acked(s: StoreState, id: i64) -> StoreState {
    if holds_event(s.events, id) {
        StoreState { events: s.events.remove(event_position(s.events, id)), ..s }
    } else {
        s
    }
}

/// `m` is the message that announces the event `e`.
pub open spec fn announces(m: BackendStateMessage, e: EventRecord) -> bool {
    &&& m.event_id@ == e.0
    &&& m.backend_id@ == e.1
    &&& m.status == e.2.status
    &&& m.address == e.2.address
    &&& m.exit_code == e.2.exit_code
    &&& m.timestamp.0 == e.3
}

/// Why a read from the store failed.
#[derive(Clone, Debug)]
pub enum StateStoreError {
    /// No event was ever registered for the backend.
    NoSuchBackend(BackendName),
}

impl StateStoreError {
    pub fn to_string(&self) -> (r: String)
        ensures
            match self {
                StateStoreError::NoSuchBackend(b) => r@ == "No backend with id "@ + b@
                    + " found in state store."@,
            },
    {
        match self {
            StateStoreError::NoSuchBackend(b) => {
                let mut s = String::new();
                push_str(&mut s, "No backend with id ");
                push_str(&mut s, b.as_str());
                push_str(&mut s, " found in state store.");
                s
            },
        }
    }
}

struct StoredEvent {
    id: i64,
    backend_id: BackendName,
    state: BackendState,
    timestamp: LoggableTime,
}

spec fn record_of(e: StoredEvent) -> EventRecord {
    (e.id, e.backend_id@, e.state, e.timestamp.0)
}

/// Stores state information about running backends.
pub struct StateStore {
    names: Vec<BackendName>,
    states: Vec<BackendState>,
    events: Vec<StoredEvent>,
    next_id: i64,
    listening: bool,
}

/// The index of the backend named `k` among `names`.
spec fn name_position(names: Seq<BackendName>, k: Seq<char>) -> int {
    choose|i: int| 0 <= i < names.len() && names[i]@ == k
}

spec fn names_distinct(names: Seq<BackendName>) -> bool {
    forall|i: int, j: int| 0 <= i < names.len() && 0 <= j < names.len() && i != j ==> names[i]@ != names[j]@
}

spec fn statuses_of(names: Seq<BackendName>, states: Seq<BackendState>) -> Map<Seq<char>, BackendState> {
    Map::new(
        |k: Seq<char>| exists|i: int| 0 <= i < names.len() && names[i]@ == k,
        |k: Seq<char>| states[name_position(names, k)],
    )
}

impl View for StateStore {
    type V = StoreState;

    closed spec fn view(&self) -> StoreState {
        StoreState {
            statuses: statuses_of(self.names@, self.states@),
            events: self.events@.map_values(|e: StoredEvent| record_of(e)),
            next_id: self.next_id,
            listening: self.listening,
        }
    }
}

/// Looking at the events up to position `i` finds the same place for a new
/// event as looking at all of them, once every later event is newer.
proof fn lemma_insert_pos_prefix(events: Seq<EventRecord>, time: i64, i: int)
    requires
        0 <= i <= events.len(),
        forall|j: int| i <= j < events.len() ==> #[trigger] events[j].3 > time,
    ensures
        insert_pos(events, time) == insert_pos(events.take(i), time),
    decreases events.len() - i,
{
    if i < events.len() {
        assert(events.drop_last().take(i) =~= events.take(i));
        lemma_insert_pos_prefix(events.drop_last(), time, i);
    } else {
        assert(events.take(i) =~= events);
    }
}

impl StateStore {
    /// The representation is consistent and the events are in replay order.
    pub closed spec fn wf(&self) -> bool {
        &&& self.names@.len() == self.states@.len()
        &&& names_distinct(self.names@)
        &&& events_consistent(self@.events, self.next_id)
        &&& self.next_id >= 1
    }

    proof fn lemma_status_at(&self, i: int)
        requires
            self.names@.len() == self.states@.len(),
            names_distinct(self.names@),
            0 <= i < self.names@.len(),
        ensures
            self@.statuses.dom().contains(self.names@[i]@),
            self@.statuses[self.names@[i]@] == self.states@[i],
            name_position(self.names@, self.names@[i]@) == i,
    {
        let k = self.names@[i]@;
        assert(exists|j: int| 0 <= j < self.names@.len() && self.names@[j]@ == k);
        let j = name_position(self.names@, k);
        assert(self.names@[j]@ == k);
    }

    /// An empty store: no backend, no event, and the first event gets id 1.
    pub fn new() -> (r: Self)
        ensures
            r.wf(),
            r@.statuses == Map::<Seq<char>, BackendState>::empty(),
            r@.events.len() == 0,
            r@.next_id == 1,
            !r@.listening,
    {
        let r = StateStore { names: Vec::new(), states: Vec::new(), events: Vec::new(), next_id: 1, listening: false };
        proof {
            assert(r@.statuses =~= Map::<Seq<char>, BackendState>::empty());
        }
        r
    }

    fn find(&self, backend_id: &BackendName) -> (r: Option<usize>)
        requires
            self.names@.len() == self.states@.len(),
            names_distinct(self.names@),
        ensures
            match r {
                Some(i) => i < self.names@.len() && self.names@[i as int]@ == backend_id@,
                None => !self@.statuses.dom().contains(backend_id@),
            },
    {
        let mut i: usize = 0;
        while i < self.names.len()
            invariant
                self.names@.len() == self.states@.len(),
                i <= self.names@.len(),
                forall|j: int| 0 <= j < i ==> self.names@[j]@ != backend_id@,
            decreases self.names@.len() - i,
        {
            if self.names[i].same_as(backend_id) {
                return Some(i);
            }
            i = i + 1;
        }
        None
    }

    /// Records `state` as the latest state of the backend.
    fn set_status(&mut self, backend_id: &BackendName, state: BackendState)
        requires
            old(self).names@.len() == old(self).states@.len(),
            names_distinct(old(self).names@),
        ensures
            final(self).names@.len() == final(self).states@.len(),
            names_distinct(final(self).names@),
            final(self)@.statuses == old(self)@.statuses.insert(backend_id@, state),
            final(self).events@ == old(self).events@,
            final(self).next_id == old(self).next_id,
            final(self).listening == old(self).listening,
    {
        let ghost old_names = self.names@;
        match self.find(backend_id) {
            Some(i) => {
                proof {
                    self.lemma_status_at(i as int);
                }
                self.states.set(i, state);
                proof {
                    let k = backend_id@;
                    assert(self@.statuses =~= old(self)@.statuses.insert(k, state)) by {
                        assert forall|x: Seq<char>| #[trigger] self@.statuses.dom().contains(x) implies self@.statuses[x]
                            == old(self)@.statuses.insert(k, state)[x] by {
                            let j = name_position(self.names@, x);
                            assert(self.names@[j]@ == x);
                            if x == k {
                                self.lemma_status_at(i as int);
                            } else {
                                assert(j != i);
                                old(self).lemma_status_at(j);
                            }
                        }
                        assert forall|x: Seq<char>| #[trigger] old(self)@.statuses.insert(k, state).dom().contains(x) implies self@.statuses.dom().contains(x) by {
                            if x != k {
                                let j = name_position(old_names, x);
                                assert(old_names[j]@ == x);
                                assert(self.names@[j]@ == x);
                            }
                        }
                    }
                }
            },
            None => {
                self.names.push(backend_id.clone());
                self.states.push(state);
                proof {
                    let n = old_names.len() as int;
                    assert(self.names@[n]@ == backend_id@);
                    assert forall|a: int, b: int|
                        0 <= a < self.names@.len() && 0 <= b < self.names@.len() && a != b implies self.names@[a]@
                        != self.names@[b]@ by {
                        if a == n {
                            old(self).lemma_status_at(b);
                        } else if b == n {
                            old(self).lemma_status_at(a);
                        }
                    }
                    let k = backend_id@;
                    assert(self@.statuses =~= old(self)@.statuses.insert(k, state)) by {
                        assert forall|x: Seq<char>| #[trigger] self@.statuses.dom().contains(x) implies self@.statuses[x]
                            == old(self)@.statuses.insert(k, state)[x] by {
                            let j = name_position(self.names@, x);
                            assert(self.names@[j]@ == x);
                            if x == k {
                                self.lemma_status_at(n);
                            } else {
                                assert(j < n);
                                old(self).lemma_status_at(j);
                            }
                        }
                        assert forall|x: Seq<char>| #[trigger] old(self)@.statuses.insert(k, state).dom().contains(x) implies self@.statuses.dom().contains(x) by {
                            if x != k {
                                let j = name_position(old_names, x);
                                assert(old_names[j]@ == x);
                                assert(self.names@[j]@ == x);
                            }
                        }
                    }
                }
            },
        }
    }

    /// Records an event: the backend's latest state becomes `state`, and the
    /// event is held until it is acknowledged. Returns the message to hand to
    /// the listener, when one is registered.
    pub fn register_event(&mut self, backend_id: &BackendName, state: &BackendState, timestamp: LoggableTime) -> (r:
        Option<BackendStateMessage>)
        requires
            old(self).wf(),
            old(self)@.next_id < i64::MAX,
        ensures
            final(self).wf(),
            final(self)@ == registered(old(self)@, backend_id@, *state, timestamp.0),
            match r {
                Some(m) => old(self)@.listening && announces(
                    m,
                    (old(self)@.next_id, backend_id@, *state, timestamp.0),
                ),
                None => !old(self)@.listening,
            },
    {
        let ghost old_events = self@.events;
        self.set_status(backend_id, *state);
        let id = self.next_id;
        let mut i: usize = self.events.len();
        while i > 0 && self.events[i - 1].timestamp.0 > timestamp.0
            invariant
                i <= self.events@.len(),
                self@.events == old_events,
                forall|j: int| i <= j < old_events.len() ==> #[trigger] old_events[j].3 > timestamp.0,
            decreases i,
        {
            proof {
                assert(old_events[i - 1] == record_of(self.events@[i - 1]));
            }
            i = i - 1;
        }
        proof {
            lemma_insert_pos_prefix(old_events, timestamp.0, i as int);
            if i > 0 {
                assert(old_events[i - 1] == record_of(self.events@[i - 1]));
                assert(old_events.take(i as int).drop_last() =~= old_events.take(i - 1));
            }
        }
        let e = StoredEvent { id, backend_id: backend_id.clone(), state: *state, timestamp };
        self.events.insert(i, e);
        self.next_id = id + 1;
        proof {
            let k = i as int;
            let rec = (id, backend_id@, *state, timestamp.0);
            assert(self@.events =~= old_events.insert(k, rec));
            let t = self@.events;
            assert forall|a: int, b: int| 0 <= a < b < t.len() implies replayed_before(#[trigger] t[a], #[trigger] t[b]) by {
                if b < k {
                    assert(t[a] == old_events[a] && t[b] == old_events[b]);
                } else if b == k {
                    assert(t[a] == old_events[a]);
                    assert(old_events[k - 1].3 <= timestamp.0);
                    if a < k - 1 {
                        assert(replayed_before(old_events[a], old_events[k - 1]));
                    }
                } else if a < k {
                    assert(t[a] == old_events[a] && t[b] == old_events[b - 1]);
                } else if a == k {
                    assert(t[b] == old_events[b - 1]);
                } else {
                    assert(t[a] == old_events[a - 1] && t[b] == old_events[b - 1]);
                }
            }
            assert forall|a: int, b: int| 0 <= a < t.len() && 0 <= b < t.len() && a != b implies #[trigger] t[a].0
                != #[trigger] t[b].0 by {
                if a != k && b != k {
                    let a0 = if a < k { a } else { a - 1 };
                    let b0 = if b < k { b } else { b - 1 };
                    assert(t[a] == old_events[a0] && t[b] == old_events[b0]);
                } else if a == k {
                    let b0 = if b < k { b } else { b - 1 };
                    assert(t[b] == old_events[b0]);
                } else {
                    let a0 = if a < k { a } else { a - 1 };
                    assert(t[a] == old_events[a0]);
                }
            }
            assert forall|a: int| 0 <= a < t.len() implies #[trigger] t[a].0 < self.next_id by {
                if a < k {
                    assert(t[a] == old_events[a]);
                } else if a > k {
                    assert(t[a] == old_events[a - 1]);
                }
            }
        }
        if self.listening {
            Some(BackendStateMessage {
                event_id: BackendEventId::from_i64(id),
                backend_id: backend_id.clone(),
                status: state.status,
                address: state.address,
                exit_code: state.exit_code,
                timestamp,
            })
        } else {
            None
        }
    }

    /// The latest state registered for the backend.
    pub fn backend_status(&self, backend_id: &BackendName) -> (r: Result<BackendState, StateStoreError>)
        requires
            self.wf(),
        ensures
            match r {
                Ok(s) => self@.statuses.dom().contains(backend_id@) && s == self@.statuses[backend_id@],
                Err(StateStoreError::NoSuchBackend(b)) => !self@.statuses.dom().contains(backend_id@) && b@
                    == backend_id@,
            },
    {
        match self.find(backend_id) {
            Some(i) => {
                proof {
                    self.lemma_status_at(i as int);
                }
                Ok(self.states[i])
            },
            None => Err(StateStoreError::NoSuchBackend(backend_id.clone())),
        }
    }

    /// The events not yet acknowledged, in replay order.
    fn unacked_events(&self) -> (r: Vec<BackendStateMessage>)
        ensures
            r@.len() == self@.events.len(),
            forall|i: int| 0 <= i < r@.len() ==> announces(#[trigger] r@[i], self@.events[i]),
    {
        let mut r: Vec<BackendStateMessage> = Vec::new();
        let mut i: usize = 0;
        while i < self.events.len()
            invariant
                i <= self.events@.len(),
                r@.len() == i,
                forall|j: int| 0 <= j < i ==> announces(#[trigger] r@[j], self@.events[j]),
            decreases self.events@.len() - i,
        {
            let e = &self.events[i];
            r.push(
                BackendStateMessage {
                    event_id: BackendEventId::from_i64(e.id),
                    backend_id: e.backend_id.clone(),
                    status: e.state.status,
                    address: e.state.address,
                    exit_code: e.state.exit_code,
                    timestamp: e.timestamp,
                },
            );
            proof {
                assert(self@.events[i as int] == record_of(self.events@[i as int]));
            }
            i = i + 1;
        }
        r
    }

    /// Registers a listener: from now on each new event is announced to it.
    /// Returns the messages of the events not yet acknowledged, for the listener,
    /// oldest first.
    pub fn register_listener(&mut self) -> (r: Vec<BackendStateMessage>)
        requires
            old(self).wf(),
        ensures
            final(self).wf(),
            final(self)@ == (StoreState { listening: true, ..old(self)@ }),
            r@.len() == old(self)@.events.len(),
            forall|i: int| 0 <= i < r@.len() ==> announces(#[trigger] r@[i], old(self)@.events[i]),
    {
        let r = self.unacked_events();
        self.listening = true;
        r
    }

    /// Acknowledges an event: it is no longer held, and no longer replayed.
    pub fn ack_event(&mut self, event_id: BackendEventId)
        requires
            old(self).wf(),
        ensures
            final(self).wf(),
            final(self)@ == acked(old(self)@, event_id@),
    {
        let ghost old_events = self@.events;
        let id = event_id.as_i64();
        let mut i: usize = 0;
        while i < self.events.len()
            invariant
                i <= self.events@.len(),
                self@.events == old_events,
                self.wf(),
                old_events == old(self)@.events,
                id == event_id@,
                self.names@ == old(self).names@,
                self.states@ == old(self).states@,
                self.next_id == old(self).next_id,
                self.listening == old(self).listening,
                forall|j: int| 0 <= j < i ==> #[trigger] old_events[j].0 != id,
            decreases self.events@.len() - i,
        {
            proof {
                assert(old_events[i as int] == record_of(self.events@[i as int]));
            }
            if self.events[i].id == id {
                let ghost k = i as int;
                proof {
                    assert(holds_event(old_events, id));
                    let c = event_position(old_events, id);
                    assert(old_events[c].0 == id);
                    assert(old_events[k].0 == id);
                    assert(events_consistent(old_events, self.next_id));
                    if c != k {
                        assert(old_events[c].0 != old_events[k].0);
                    }
                }
                self.events.remove(i);
                proof {
                    assert(self@.events =~= old_events.remove(k));
                    let t = self@.events;
                    assert forall|a: int, b: int| 0 <= a < b < t.len() implies replayed_before(#[trigger] t[a], #[trigger] t[b]) by {
                        let a0 = if a < k { a } else { a + 1 };
                        let b0 = if b < k { b } else { b + 1 };
                        assert(t[a] == old_events[a0] && t[b] == old_events[b0]);
                    }
                    assert forall|a: int, b: int| 0 <= a < t.len() && 0 <= b < t.len() && a != b implies #[trigger] t[a].0
                        != #[trigger] t[b].0 by {
                        let a0 = if a < k { a } else { a + 1 };
                        let b0 = if b < k { b } else { b + 1 };
                        assert(t[a] == old_events[a0] && t[b] == old_events[b0]);
                    }
                    assert forall|a: int| 0 <= a < t.len() implies #[trigger] t[a].0 < self.next_id by {
                        let a0 = if a < k { a } else { a + 1 };
                        assert(t[a] == old_events[a0]);
                    }
                    assert(self@.statuses == old(self)@.statuses);
                    assert(holds_event(old(self)@.events, event_id@));
                    assert(self@ == acked(old(self)@, event_id@));
                }
                return;
            }
            i = i + 1;
        }
        proof {
            assert(!holds_event(old_events, id));
        }
    }
}

/// A read gives back the last write: after an event for a backend, its state is
/// the event's state; the states of other backends are unchanged.
pub proof fn law_status_reads_last_event(
    s: StoreState,
    backend: Seq<char>,
    state: BackendState,
    time: i64,
    other: Seq<char>,
)
    requires
        other != backend,
    ensures
        registered(s, backend, state, time).statuses.dom().contains(backend),
        registered(s, backend, state, time).statuses[backend] == state,
        registered(s, backend, state, time).statuses.dom().contains(other) == s.statuses.dom().contains(other),
        registered(s, backend, state, time).statuses[other] == s.statuses[other],
{
}

/// Every registered event is held, with the next id, until it is acknowledged;
/// acknowledging it drops it and keeps the other events in their order.
pub proof fn law_events_held_until_acked(s: StoreState, backend: Seq<char>, state: BackendState, time: i64)
    requires
        events_consistent(s.events, s.next_id),
    ensures
        ({
            let r = registered(s, backend, state, time);
            &&& holds_event(r.events, s.next_id)
            &&& !holds_event(acked(r, s.next_id).events, s.next_id)
            &&& acked(r, s.next_id).events == s.events
        }),
{
    let r = registered(s, backend, state, time);
    let k = insert_pos(s.events, time);
    lemma_insert_pos_bounds(s.events, time);
    let rec = (s.next_id, backend, state, time);
    assert(r.events[k] == rec);
    assert(holds_event(r.events, s.next_id));
    let c = event_position(r.events, s.next_id);
    assert(r.events[c].0 == s.next_id);
    if c != k {
        let c0 = if c < k { c } else { c - 1 };
        assert(r.events[c] == s.events[c0]);
    }
    assert(r.events.remove(k) =~= s.events);
    assert(!holds_event(s.events, s.next_id)) by {
        if holds_event(s.events, s.next_id) {
            let j = choose|j: int| 0 <= j < s.events.len() && s.events[j].0 == s.next_id;
            assert(s.events[j].0 < s.next_id);
        }
    }
}

proof fn lemma_insert_pos_bounds(events: Seq<EventRecord>, time: i64)
    ensures
        0 <= insert_pos(events, time) <= events.len(),
    decreases events.len(),
{
    if events.len() > 0 && events.last().3 > time {
        lemma_insert_pos_bounds(events.drop_last(), time);
    }
}

/// Events are replayed oldest first: a consistent store's events come in the
/// order of their timestamps.
pub proof fn law_replay_is_oldest_first(events: Seq<EventRecord>, next_id: i64, i: int, j: int)
    requires
        events_consistent(events, next_id),
        0 <= i < j < events.len(),
    ensures
        events[i].3 <= events[j].3,
{
    assert(replayed_before(events[i], events[j]));
}

} // verus!
