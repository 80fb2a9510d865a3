//! Tracks which backends have live or recent connections, so that the proxy
//! can keep them alive, and forgets backends that have gone quiet.
//!
//! Each tracked backend is visited once per heartbeat interval. A visit keeps a
//! backend (and asks for a keep-alive) if it has open connections or has been
//! used since the last visit; otherwise the backend is forgotten.
use crate::names::BackendName;
use vstd::prelude::*;

verus! {

/// How long after a visit (or after it was first seen) a backend is visited again.
pub const HEARTBEAT_INTERVAL_MILLIS: u64 = 30_000;

#[derive(Clone, Copy, Debug, PartialEq, Eq, Structural)]
pub struct BackendEntry {
    /// The current number of active connections to the backend.
    pub active_connections: u32,
    /// Whether the backend has had a recent connection (since this value was last checked).
    pub had_recent_connection: bool,
}

/// The abstract state of a monitor.
pub struct MonitorState {
    /// Pending visits, in order: when (milliseconds) and which backend.
    pub queue: Seq<(u64, Seq<char>)>,
    /// The tracked backends.
    pub backends: Map<Seq<char>, BackendEntry>,
    /// Whether a backend first seen through `touch_backend` counts as recently used.
    pub new_entries_recent: bool,
}

/// What a visit did.
#[derive(Clone, Debug)]
pub enum VisitOutcome {
    /// No visit was pending.
    NothingQueued,
    /// The visited backend is no longer tracked.
    Unknown(BackendName),
    /// The backend had no connections and no recent use, and was forgotten.
    Removed(BackendName),
    /// The backend is in use: the listener should be told, and it will be visited again.
    KeptAlive(BackendName),
}

/// The state after `touch_backend(id)` at `now`.
pub open spec fn touched(s: MonitorState, id: Seq<char>, now: u64) -> MonitorState {
    if s.backends.dom().contains(id) {
        MonitorState {
            backends: s.backends.insert(
                id,
                BackendEntry { had_recent_connection: true, ..s.backends[id] },
            ),
            ..s
        }
    } else {
        MonitorState {
            queue: s.queue.push(((now + HEARTBEAT_INTERVAL_MILLIS) as u64, id)),
            backends: s.backends.insert(
                id,
                BackendEntry { active_connections: 0, had_recent_connection: s.new_entries_recent },
            ),
            ..s
        }
    }
}

/// The state after `inc_connection(id)` at `now`.
pub open spec fn incremented(s: MonitorState, id: Seq<char>, now: u64) -> MonitorState {
    if s.backends.dom().contains(id) {
        MonitorState {
            backends: s.backends.insert(
                id,
                BackendEntry {
                    active_connections: (s.backends[id].active_connections + 1) as u32,
                    had_recent_connection: true,
                },
            ),
            ..s
        }
    } else {
        MonitorState {
            queue: s.queue.push(((now + HEARTBEAT_INTERVAL_MILLIS) as u64, id)),
            backends: s.backends.insert(
                id,
                BackendEntry { active_connections: 1, had_recent_connection: s.new_entries_recent },
            ),
            ..s
        }
    }
}

/// The state after `dec_connection(id)`.
pub open spec fn decremented(s: MonitorState, id: Seq<char>) -> MonitorState {
    if s.backends.dom().contains(id) {
        MonitorState {
            backends: s.backends.insert(
                id,
                BackendEntry {
                    active_connections: (s.backends[id].active_connections - 1) as u32,
                    ..s.backends[id]
                },
            ),
            ..s
        }
    } else {
        s
    }
}

/// Whether a visit keeps a backend: it has open connections or was used recently.
pub open spec fn keeps(e: BackendEntry) -> bool {
    e.active_connections > 0 || e.had_recent_connection
}

/// The state after visiting the first queued backend at `now`.
pub open spec fn visited(s: MonitorState, now: u64) -> MonitorState {
    if s.queue.len() == 0 {
        s
    } else {
        let id = s.queue[0].1;
        let rest = s.queue.skip(1);
        if !s.backends.dom().contains(id) {
            MonitorState { queue: rest, ..s }
        } else if keeps(s.backends[id]) {
            MonitorState {
                queue: rest.push(((now + HEARTBEAT_INTERVAL_MILLIS) as u64, id)),
                backends: s.backends.insert(
                    id,
                    BackendEntry { had_recent_connection: false, ..s.backends[id] },
                ),
                ..s
            }
        } else {
            MonitorState { queue: rest, backends: s.backends.remove(id), ..s }
        }
    }
}

pub struct ConnectionMonitor {
    visit_queue: std::collections::VecDeque<(u64, BackendName)>,
    names: Vec<BackendName>,
    entries: Vec<BackendEntry>,
    new_entries_recent: bool,
}

/// The index of the backend named `k` among `names`.
pub closed spec fn name_index(names: Seq<BackendName>, k: Seq<char>) -> int {
    choose|i: int| 0 <= i < names.len() && names[i]@ == k
}

/// The names in `names` are pairwise distinct.
pub closed spec fn names_unique(names: Seq<BackendName>) -> bool {
    forall|i: int, j: int| 0 <= i < names.len() && 0 <= j < names.len() && i != j ==> names[i]@ != names[j]@
}

/// The tracked backends, keyed by name.
pub closed spec fn entries_map(names: Seq<BackendName>, entries: Seq<BackendEntry>) -> Map<
    Seq<char>,
    BackendEntry,
> {
    Map::new(
        |k: Seq<char>| exists|i: int| 0 <= i < names.len() && names[i]@ == k,
        |k: Seq<char>| entries[name_index(names, k)],
    )
}

impl View for ConnectionMonitor {
    type V = MonitorState;

    closed spec fn view(&self) -> MonitorState {
        MonitorState {
            queue: self.visit_queue@.map_values(|p: (u64, BackendName)| (p.0, p.1@)),
            backends: entries_map(self.names@, self.entries@),
            new_entries_recent: self.new_entries_recent,
        }
    }
}

/// Every tracked backend has a pending visit.
pub open spec fn visits_pending(s: MonitorState) -> bool {
    forall|k: Seq<char>| #[trigger] s.backends.dom().contains(k) ==> exists|j: int|
        0 <= j < s.queue.len() && s.queue[j].1 == k
}

proof fn lemma_pending_kept(s0: MonitorState, s1: MonitorState)
    requires
        visits_pending(s0),
        s1.queue == s0.queue,
        s1.backends.dom() == s0.backends.dom(),
    ensures
        visits_pending(s1),
{
    assert forall|k: Seq<char>| #[trigger] s1.backends.dom().contains(k) implies exists|j: int|
        0 <= j < s1.queue.len() && s1.queue[j].1 == k by {
        assert(s0.backends.dom().contains(k));
        let j = choose|j: int| 0 <= j < s0.queue.len() && s0.queue[j].1 == k;
        assert(s1.queue[j].1 == k);
    }
}

impl ConnectionMonitor {
    /// The monitor's internal representation is consistent, and every tracked
    /// backend has a pending visit.
    pub closed spec fn well_formed(&self) -> bool {
        &&& self.names@.len() == self.entries@.len()
        &&& names_unique(self.names@)
        &&& visits_pending(self@)
    }

    proof fn lemma_lookup(&self, i: int)
        requires
            self.names@.len() == self.entries@.len(),
            names_unique(self.names@),
            0 <= i < self.names@.len(),
        ensures
            self@.backends.dom().contains(self.names@[i]@),
            self@.backends[self.names@[i]@] == self.entries@[i],
            name_index(self.names@, self.names@[i]@) == i,
    {
        let k = self.names@[i]@;
        assert(exists|j: int| 0 <= j < self.names@.len() && self.names@[j]@ == k);
        let j = name_index(self.names@, k);
        assert(self.names@[j]@ == k);
    }

    /// A monitor that tracks no backend.
    pub fn new() -> (r: Self)
        ensures
            r.well_formed(),
            r@.queue.len() == 0,
            r@.backends == Map::<Seq<char>, BackendEntry>::empty(),
            r@.new_entries_recent,
    {
        Self::with_new_entries_recent(true)
    }

    /// A monitor that tracks no backend; `new_entries_recent` says whether a backend
    /// first seen through `touch_backend` counts as recently used.
    pub fn with_new_entries_recent(new_entries_recent: bool) -> (r: Self)
        ensures
            r.well_formed(),
            r@.queue.len() == 0,
            r@.backends == Map::<Seq<char>, BackendEntry>::empty(),
            r@.new_entries_recent == new_entries_recent,
    {
        let r = ConnectionMonitor {
            visit_queue: std::collections::VecDeque::new(),
            names: Vec::new(),
            entries: Vec::new(),
            new_entries_recent,
        };
        proof {
            assert(r@.backends =~= Map::<Seq<char>, BackendEntry>::empty());
        }
        r
    }

    fn find(&self, id: &BackendName) -> (r: Option<usize>)
        requires
            self.names@.len() == self.entries@.len(),
            names_unique(self.names@),
        ensures
            match r {
                Some(i) => i < self.names@.len() && self.names@[i as int]@ == id@,
                None => !self@.backends.dom().contains(id@),
            },
            r is Some <==> self@.backends.dom().contains(id@),
    {
        let mut i: usize = 0;
        while i < self.names.len()
            invariant
                self.names@.len() == self.entries@.len(),
                names_unique(self.names@),
                i <= self.names@.len(),
                forall|j: int| 0 <= j < i ==> self.names@[j]@ != id@,
            decreases self.names@.len() - i,
        {
            if self.names[i].same_as(id) {
                proof {
                    self.lemma_lookup(i as int);
                }
                return Some(i);
            }
            i = i + 1;
        }
        None
    }

    /// Updates the entry at `i`.
    fn set_entry(&mut self, i: usize, e: BackendEntry)
        requires
            old(self).names@.len() == old(self).entries@.len(),
            names_unique(old(self).names@),
            i < old(self).names@.len(),
        ensures
            final(self).names@ == old(self).names@,
            final(self).visit_queue@ == old(self).visit_queue@,
            final(self).new_entries_recent == old(self).new_entries_recent,
            final(self).entries@ == old(self).entries@.update(i as int, e),
            final(self)@.backends == old(self)@.backends.insert(old(self).names@[i as int]@, e),
    {
        proof {
            self.lemma_lookup(i as int);
        }
        self.entries.set(i, e);
        proof {
            let k = self.names@[i as int]@;
            assert(self@.backends =~= old(self)@.backends.insert(k, e)) by {
                assert forall|x: Seq<char>| #[trigger] self@.backends.dom().contains(x) implies self@.backends[x]
                    == old(self)@.backends.insert(k, e)[x] by {
                    let j = name_index(self.names@, x);
                    if x == k {
                        self.lemma_lookup(i as int);
                    } else {
                        assert(self.names@[j]@ == x);
                        assert(j != i);
                    }
                }
            }
        }
    }

    /// Starts tracking `id` with entry `e`, and queues its first visit for `visit_at`.
    fn add_entry(&mut self, id: &BackendName, e: BackendEntry, visit_at: u64)
        requires
            old(self).names@.len() == old(self).entries@.len(),
            names_unique(old(self).names@),
            visits_pending(old(self)@),
            !old(self)@.backends.dom().contains(id@),
        ensures
            final(self).well_formed(),
            final(self).new_entries_recent == old(self).new_entries_recent,
            final(self)@.backends == old(self)@.backends.insert(id@, e),
            final(self)@.queue == old(self)@.queue.push((visit_at, id@)),
    {
        let ghost old_names = self.names@;
        self.visit_queue.push_back((visit_at, id.clone()));
        self.names.push(id.clone());
        self.entries.push(e);
        proof {
            let n = old_names.len() as int;
            assert(self.names@[n]@ == id@);
            assert forall|a: int, b: int|
                0 <= a < self.names@.len() && 0 <= b < self.names@.len() && a != b implies self.names@[a]@
                != self.names@[b]@ by {
                if a == n {
                    old(self).lemma_lookup(b);
                } else if b == n {
                    old(self).lemma_lookup(a);
                }
            }
            assert(self@.queue =~= old(self)@.queue.push((visit_at, id@)));
            assert(self@.backends =~= old(self)@.backends.insert(id@, e)) by {
                assert forall|x: Seq<char>| #[trigger] self@.backends.dom().contains(x) implies self@.backends[x]
                    == old(self)@.backends.insert(id@, e)[x] by {
                    let j = name_index(self.names@, x);
                    assert(self.names@[j]@ == x);
                    if x == id@ {
                        assert(j == n);
                    } else {
                        assert(j < n);
                        assert(old(self)@.backends.dom().contains(x));
                        let j0 = name_index(old_names, x);
                        assert(old_names[j0]@ == x);
                        assert(j0 == j);
                    }
                }
                assert forall|x: Seq<char>| #[trigger] old(self)@.backends.insert(id@, e).dom().contains(x) implies self@.backends.dom().contains(x) by {
                    if x == id@ {
                        assert(self.names@[n]@ == x);
                    } else {
                        let j0 = name_index(old_names, x);
                        assert(old_names[j0]@ == x);
                        assert(self.names@[j0]@ == x);
                    }
                }
            }
            assert forall|k: Seq<char>| #[trigger] self@.backends.dom().contains(k) implies exists|j: int|
                0 <= j < self@.queue.len() && self@.queue[j].1 == k by {
                if k == id@ {
                    assert(self@.queue[old(self)@.queue.len() as int].1 == k);
                } else {
                    assert(old(self)@.backends.dom().contains(k));
                    let j = choose|j: int| 0 <= j < old(self)@.queue.len() && old(self)@.queue[j].1 == k;
                    assert(self@.queue[j].1 == k);
                }
            }
        }
    }

    /// The entry tracked for `backend_id`, if any.
    pub fn get_backend_entry(&self, backend_id: &BackendName) -> (r: Option<BackendEntry>)
        requires
            self.well_formed(),
        ensures
            r == (if self@.backends.dom().contains(backend_id@) {
                Some(self@.backends[backend_id@])
            } else {
                None
            }),
    {
        match self.find(backend_id) {
            Some(i) => {
                proof {
                    self.lemma_lookup(i as int);
                }
                Some(self.entries[i])
            },
            None => None,
        }
    }

    /// Records a request to `backend_id` at time `now` (milliseconds). Returns
    /// whether the backend was not tracked before, in which case the listener
    /// should be told of it.
    pub fn touch_backend(&mut self, backend_id: &BackendName, now: u64) -> (notify: bool)
        requires
            old(self).well_formed(),
            now + HEARTBEAT_INTERVAL_MILLIS <= u64::MAX,
        ensures
            final(self).well_formed(),
            final(self)@ == touched(old(self)@, backend_id@, now),
            notify == !old(self)@.backends.dom().contains(backend_id@),
    {
        match self.find(backend_id) {
            Some(i) => {
                proof {
                    self.lemma_lookup(i as int);
                }
                let e = BackendEntry { had_recent_connection: true, ..self.entries[i] };
                self.set_entry(i, e);
                proof {
                    assert(self@.backends.dom() =~= old(self)@.backends.dom());
                    assert(self@.queue =~= old(self)@.queue);
                    lemma_pending_kept(old(self)@, self@);
                }
                false
            },
            None => {
                let e = BackendEntry {
                    active_connections: 0,
                    had_recent_connection: self.new_entries_recent,
                };
                self.add_entry(backend_id, e, now + HEARTBEAT_INTERVAL_MILLIS);
                true
            },
        }
    }

    /// Records a new connection to `backend_id` at time `now` (milliseconds).
    /// Returns whether the backend was not tracked before, in which case the
    /// listener should be told of it.
    pub fn inc_connection(&mut self, backend_id: &BackendName, now: u64) -> (notify: bool)
        requires
            old(self).well_formed(),
            now + HEARTBEAT_INTERVAL_MILLIS <= u64::MAX,
            old(self)@.backends.dom().contains(backend_id@) ==> old(self)@.backends[backend_id@].active_connections
                < u32::MAX,
        ensures
            final(self).well_formed(),
            final(self)@ == incremented(old(self)@, backend_id@, now),
            notify == !old(self)@.backends.dom().contains(backend_id@),
    {
        match self.find(backend_id) {
            Some(i) => {
                proof {
                    self.lemma_lookup(i as int);
                }
                let old_e = self.entries[i];
                let e = BackendEntry {
                    active_connections: old_e.active_connections + 1,
                    had_recent_connection: true,
                };
                self.set_entry(i, e);
                proof {
                    assert(self@.backends.dom() =~= old(self)@.backends.dom());
                    assert(self@.queue =~= old(self)@.queue);
                    lemma_pending_kept(old(self)@, self@);
                }
                false
            },
            None => {
                let e = BackendEntry {
                    active_connections: 1,
                    had_recent_connection: self.new_entries_recent,
                };
                self.add_entry(backend_id, e, now + HEARTBEAT_INTERVAL_MILLIS);
                true
            },
        }
    }

    /// Records that a connection to `backend_id` closed. An untracked backend is
    /// left untracked.
    pub fn dec_connection(&mut self, backend_id: &BackendName)
        requires
            old(self).well_formed(),
            old(self)@.backends.dom().contains(backend_id@) ==> old(self)@.backends[backend_id@].active_connections
                > 0,
        ensures
            final(self).well_formed(),
            final(self)@ == decremented(old(self)@, backend_id@),
    {
        match self.find(backend_id) {
            Some(i) => {
                proof {
                    self.lemma_lookup(i as int);
                }
                let old_e = self.entries[i];
                let e = BackendEntry {
                    active_connections: old_e.active_connections - 1,
                    ..old_e
                };
                self.set_entry(i, e);
                proof {
                    assert(self@.backends.dom() =~= old(self)@.backends.dom());
                    assert(self@.queue =~= old(self)@.queue);
                    lemma_pending_kept(old(self)@, self@);
                }
            },
            None => {},
        }
    }

    /// When the next visit is due (milliseconds), if one is queued.
    pub fn next_visit_time(&self) -> (r: Option<u64>)
        ensures
            r == (if self@.queue.len() > 0 { Some(self@.queue[0].0) } else { None }),
    {
        if self.visit_queue.len() > 0 {
            Some(self.visit_queue[0].0)
        } else {
            None
        }
    }

    /// Performs the first queued visit at time `now` (milliseconds): a backend with
    /// open connections or recent use is kept, marked as not recently used, and
    /// queued again; any other is forgotten.
    pub fn visit_next(&mut self, now: u64) -> (r: VisitOutcome)
        requires
            old(self).well_formed(),
            now + HEARTBEAT_INTERVAL_MILLIS <= u64::MAX,
        ensures
            final(self).well_formed(),
            final(self)@ == visited(old(self)@, now),
            match r {
                VisitOutcome::NothingQueued => old(self)@.queue.len() == 0,
                VisitOutcome::Unknown(id) => old(self)@.queue.len() > 0 && id@ == old(self)@.queue[0].1
                    && !old(self)@.backends.dom().contains(id@),
                VisitOutcome::Removed(id) => old(self)@.queue.len() > 0 && id@ == old(self)@.queue[0].1
                    && old(self)@.backends.dom().contains(id@) && !keeps(old(self)@.backends[id@]),
                VisitOutcome::KeptAlive(id) => old(self)@.queue.len() > 0 && id@ == old(self)@.queue[0].1
                    && old(self)@.backends.dom().contains(id@) && keeps(old(self)@.backends[id@]),
            },
    {
        let ghost s0 = self@;
        let (_time, backend) = match self.visit_queue.pop_front() {
            Some(front) => front,
            None => return VisitOutcome::NothingQueued,
        };
        proof {
            assert(self@.queue =~= s0.queue.skip(1));
        }
        match self.find(&backend) {
            None => {
                proof {
                    assert(self@.backends == s0.backends);
                    assert forall|k: Seq<char>| #[trigger] self@.backends.dom().contains(k) implies exists|j: int|
                        0 <= j < self@.queue.len() && self@.queue[j].1 == k by {
                        let j = choose|j: int| 0 <= j < s0.queue.len() && s0.queue[j].1 == k;
                        assert(j != 0);
                        assert(self@.queue[j - 1].1 == k);
                    }
                    assert(self@ == visited(s0, now));
                }
                VisitOutcome::Unknown(backend)
            },
            Some(i) => {
                proof {
                    self.lemma_lookup(i as int);
                }
                let e = self.entries[i];
                if e.active_connections > 0 || e.had_recent_connection {
                    let e2 = BackendEntry { had_recent_connection: false, ..e };
                    self.set_entry(i, e2);
                    self.visit_queue.push_back((now + HEARTBEAT_INTERVAL_MILLIS, backend.clone()));
                    proof {
                        assert(self@.queue =~= s0.queue.skip(1).push(((now + HEARTBEAT_INTERVAL_MILLIS) as u64, backend@)));
                        assert forall|k: Seq<char>| #[trigger] self@.backends.dom().contains(k) implies exists|j: int|
                            0 <= j < self@.queue.len() && self@.queue[j].1 == k by {
                            if k == backend@ {
                                assert(self@.queue[self@.queue.len() - 1].1 == k);
                            } else {
                                assert(s0.backends.dom().contains(k));
                                let j = choose|j: int| 0 <= j < s0.queue.len() && s0.queue[j].1 == k;
                                assert(j != 0);
                                assert(self@.queue[j - 1].1 == k);
                            }
                        }
                    }
                    VisitOutcome::KeptAlive(backend)
                } else {
                    let ghost old_names = self.names@;
                    let ghost old_entries = self.entries@;
                    self.names.remove(i);
                    self.entries.remove(i);
                    proof {
                        assert(names_unique(self.names@)) by {
                            assert forall|a: int, b: int|
                                0 <= a < self.names@.len() && 0 <= b < self.names@.len() && a != b implies self.names@[a]@
                                != self.names@[b]@ by {
                                let a0 = if a < i { a } else { a + 1 };
                                let b0 = if b < i { b } else { b + 1 };
                                assert(self.names@[a] == old_names[a0]);
                                assert(self.names@[b] == old_names[b0]);
                            }
                        }
                        assert(self@.backends =~= s0.backends.remove(backend@)) by {
                            assert forall|x: Seq<char>| #[trigger] s0.backends.remove(backend@).dom().contains(x) implies self@.backends.dom().contains(x) by {
                                let j0 = name_index(old_names, x);
                                assert(old_names[j0]@ == x);
                                assert(j0 != i);
                                let j = if j0 < i { j0 } else { j0 - 1 };
                                assert(self.names@[j] == old_names[j0]);
                            }
                            assert forall|x: Seq<char>| #[trigger] self@.backends.dom().contains(x) implies s0.backends.remove(backend@).dom().contains(x)
                                && self@.backends[x] == s0.backends[x] by {
                                let j = name_index(self.names@, x);
                                assert(self.names@[j]@ == x);
                                let j0 = if j < i { j } else { j + 1 };
                                assert(old_names[j0]@ == x);
                                assert(j0 != i);
                                let jj = name_index(old_names, x);
                                assert(old_names[jj]@ == x);
                                assert(jj == j0);
                                assert(self.entries@[j] == old_entries[j0]);
                            }
                        }
                        assert forall|k: Seq<char>| #[trigger] self@.backends.dom().contains(k) implies exists|j: int|
                            0 <= j < self@.queue.len() && self@.queue[j].1 == k by {
                            assert(s0.backends.dom().contains(k));
                            let j = choose|j: int| 0 <= j < s0.queue.len() && s0.queue[j].1 == k;
                            assert(j != 0);
                            assert(self@.queue[j - 1].1 == k);
                        }
                    }
                    VisitOutcome::Removed(backend)
                }
            },
        }
    }
}

/// Opening a connection and closing it again leaves a tracked backend's
/// connection count as it was.
pub proof fn law_inc_then_dec_restores_count(s: MonitorState, id: Seq<char>, now: u64)
    requires
        s.backends.dom().contains(id),
        s.backends[id].active_connections < u32::MAX,
    ensures
        decremented(incremented(s, id, now), id).backends[id].active_connections
            == s.backends[id].active_connections,
        decremented(incremented(s, id, now), id).backends.dom() == s.backends.dom(),
{
    assert(incremented(s, id, now).backends.dom() =~= s.backends.dom());
    assert(decremented(incremented(s, id, now), id).backends.dom() =~= s.backends.dom());
}

/// A connection to a backend that is not tracked starts tracking it with one
/// open connection, counted as recently used as the monitor was made to count
/// new backends (always so for a monitor from `new`), with its first visit one
/// heartbeat interval on; closing a connection to a backend that is not tracked
/// changes nothing.
pub proof fn law_untracked_backends(s: MonitorState, id: Seq<char>, now: u64)
    requires
        !s.backends.dom().contains(id),
    ensures
        incremented(s, id, now).backends == s.backends.insert(
            id,
            BackendEntry { active_connections: 1, had_recent_connection: s.new_entries_recent },
        ),
        incremented(s, id, now).queue == s.queue.push(((now + HEARTBEAT_INTERVAL_MILLIS) as u64, id)),
        decremented(s, id) == s,
{
}

/// A visit never forgets a backend that has open connections or was used since
/// the last visit, and no operation but a visit forgets a backend.
pub proof fn law_only_idle_backends_are_forgotten(s: MonitorState, id: Seq<char>, k: Seq<char>, now: u64)
    requires
        s.backends.dom().contains(k),
    ensures
        keeps(s.backends[k]) ==> visited(s, now).backends.dom().contains(k),
        touched(s, id, now).backends.dom().contains(k),
        incremented(s, id, now).backends.dom().contains(k),
        decremented(s, id).backends.dom().contains(k),
{
}

/// Every operation keeps every tracked backend with a pending visit.
pub proof fn law_tracked_backends_are_visited(s: MonitorState, id: Seq<char>, now: u64)
    requires
        visits_pending(s),
    ensures
        visits_pending(touched(s, id, now)),
        visits_pending(incremented(s, id, now)),
        visits_pending(decremented(s, id)),
        visits_pending(visited(s, now)),
{
    let t = touched(s, id, now);
    assert forall|k: Seq<char>| #[trigger] t.backends.dom().contains(k) implies exists|j: int|
        0 <= j < t.queue.len() && t.queue[j].1 == k by {
        if s.backends.dom().contains(k) {
            let j = choose|j: int| 0 <= j < s.queue.len() && s.queue[j].1 == k;
            assert(t.queue[j].1 == k);
        } else {
            assert(t.queue[s.queue.len() as int].1 == k);
        }
    }
    let n = incremented(s, id, now);
    assert forall|k: Seq<char>| #[trigger] n.backends.dom().contains(k) implies exists|j: int|
        0 <= j < n.queue.len() && n.queue[j].1 == k by {
        if s.backends.dom().contains(k) {
            let j = choose|j: int| 0 <= j < s.queue.len() && s.queue[j].1 == k;
            assert(n.queue[j].1 == k);
        } else {
            assert(n.queue[s.queue.len() as int].1 == k);
        }
    }
    let d = decremented(s, id);
    assert(d.backends.dom() =~= s.backends.dom());
    lemma_pending_kept(s, d);
    let v = visited(s, now);
    if s.queue.len() > 0 {
        let id0 = s.queue[0].1;
        assert forall|k: Seq<char>| #[trigger] v.backends.dom().contains(k) implies exists|j: int|
            0 <= j < v.queue.len() && v.queue[j].1 == k by {
            assert(s.backends.dom().contains(k));
            if k == id0 {
                assert(v.queue[v.queue.len() - 1].1 == k);
            } else {
                let j = choose|j: int| 0 <= j < s.queue.len() && s.queue[j].1 == k;
                assert(j != 0);
                assert(v.queue[j - 1].1 == k);
            }
        }
    }
}

} // verus!

verus! {

/// A request to a backend that is already tracked records it as used, with its
/// connection count unchanged; so the next visit, whichever backend it is for,
/// does not forget it.
pub proof fn law_request_marks_tracked_backend_used(s: MonitorState, id: Seq<char>, now: u64, later: u64)
    requires
        s.backends.dom().contains(id),
    ensures
        touched(s, id, now).backends.dom().contains(id),
        touched(s, id, now).backends[id].had_recent_connection,
        touched(s, id, now).backends[id].active_connections == s.backends[id].active_connections,
        visited(touched(s, id, now), later).backends.dom().contains(id),
{
}

} // verus!
