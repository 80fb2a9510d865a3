//! Typed messages over a Unix socket: each is either an event, or one half of a
//! request/response pair that an id ties together.
use crate::text::str_eq;
use vstd::prelude::*;

verus! {

/// A message on the socket, with its id when it is a request or a response.
#[derive(Clone, Debug)]
pub struct WrappedMessage<T> {
    /// Optional ID for this message. If it is provided, this message belongs to a request/response pair
    /// (either as the request or the response). If it is not provided, this message is an event.
    pub id: Option<String>,
    pub message: T,
}

pub open spec fn id_view(id: Option<String>) -> Option<Seq<char>> {
    match id {
        Some(s) => Some(s@),
        None => None,
    }
}

impl<T> WrappedMessage<T> {
    /// A request, under the id its response will carry.
    pub fn request(id: String, message: T) -> (r: Self)
        ensures
            id_view(r.id) == Some(id@),
            r.message == message,
    {
        WrappedMessage { id: Some(id), message }
    }

    /// An event: a message with no id.
    pub fn event(message: T) -> (r: Self)
        ensures
            r.id is None,
            r.message == message,
    {
        WrappedMessage { id: None, message }
    }

    /// The response to `request`: it carries the request's id.
    pub fn response_to<R>(request: &WrappedMessage<R>, message: T) -> (r: Self)
        ensures
            id_view(r.id) == id_view(request.id),
            r.message == message,
    {
        let id = match &request.id {
            Some(i) => Some(i.clone()),
            None => None,
        };
        WrappedMessage { id, message }
    }
}

/// The ids of the requests a client has sent and not yet had answered; no id twice.
pub struct PendingRequests {
    ids: Vec<String>,
}

/// Where a message that reached the client goes.
#[derive(Debug)]
pub enum ClientDelivery<T> {
    /// The response to the pending request with this id.
    Response { id: String, message: T },
    /// A response to no pending request: it is dropped.
    Orphan { id: String },
    /// An event, for the client's event subscribers.
    Event(T),
}

/// Where a message that reached the server goes.
#[derive(Debug)]
pub enum ServerDelivery<T> {
    /// A request, for the server's request subscribers (with its id, to answer it).
    Request(WrappedMessage<T>),
    /// An event, for the server's event subscribers.
    Event(T),
}

impl PendingRequests {
    /// The ids waiting for a response.
    pub closed spec fn view_set(&self) -> Set<Seq<char>> {
        self.ids@.map_values(|s: String| s@).to_set()
    }

    pub closed spec fn wf(&self) -> bool {
        self.ids@.map_values(|s: String| s@).no_duplicates()
    }

    pub fn new() -> (r: Self)
        ensures
            r.wf(),
            r.view_set() == Set::<Seq<char>>::empty(),
    {
        let r = PendingRequests { ids: Vec::new() };
        proof {
            assert(r.ids@.map_values(|s: String| s@) =~= Seq::<Seq<char>>::empty());
            assert(r.view_set() =~= Set::<Seq<char>>::empty());
        }
        r
    }

    fn position(&self, id: &str) -> (r: Option<usize>)
        ensures
            match r {
                Some(i) => i < self.ids@.len() && self.ids@[i as int]@ == id@,
                None => forall|j: int| 0 <= j < self.ids@.len() ==> self.ids@[j]@ != id@,
            },
    {
        let mut i: usize = 0;
        while i < self.ids.len()
            invariant
                i <= self.ids@.len(),
                forall|j: int| 0 <= j < i ==> self.ids@[j]@ != id@,
            decreases self.ids@.len() - i,
        {
            if str_eq(self.ids[i].as_str(), id) {
                return Some(i);
            }
            i = i + 1;
        }
        None
    }

    /// Whether a response with this id is awaited.
    pub fn contains(&self, id: &str) -> (r: bool)
        ensures
            r == self.view_set().contains(id@),
    {
        let p = self.position(id);
        proof {
            let s = self.ids@.map_values(|s: String| s@);
            match p {
                Some(i) => {
                    assert(s[i as int] == id@);
                },
                None => {
                    if s.contains(id@) {
                        let j = choose|j: int| 0 <= j < s.len() && s[j] == id@;
                        assert(self.ids@[j]@ == id@);
                    }
                },
            }
        }
        p.is_some()
    }

    /// Awaits a response for `id`; an id already awaited stays awaited once.
    pub fn register(&mut self, id: String)
        requires
            old(self).wf(),
        ensures
            final(self).wf(),
            final(self).view_set() == old(self).view_set().insert(id@),
    {
        let ghost old_s = self.ids@.map_values(|s: String| s@);
        if self.contains(id.as_str()) {
            proof {
                assert(old(self).view_set().insert(id@) =~= old(self).view_set());
            }
            return;
        }
        self.ids.push(id);
        proof {
            let s = self.ids@.map_values(|s: String| s@);
            assert(s =~= old_s.push(id@));
            assert(!old_s.contains(id@));
            assert(s.no_duplicates()) by {
                assert forall|a: int, b: int| 0 <= a < s.len() && 0 <= b < s.len() && a != b implies s[a] != s[b] by {
                    if a < old_s.len() && b < old_s.len() {
                    } else if a == old_s.len() {
                        assert(old_s[b] == s[b]);
                    } else {
                        assert(old_s[a] == s[a]);
                    }
                }
            }
            assert forall|x: Seq<char>| s.to_set().contains(x) <==> old_s.to_set().insert(id@).contains(x) by {
                if s.to_set().contains(x) {
                    let k = choose|k: int| 0 <= k < s.len() && s[k] == x;
                    if k < old_s.len() {
                        assert(old_s[k] == x);
                    }
                }
                if old_s.to_set().contains(x) {
                    let k = choose|k: int| 0 <= k < old_s.len() && old_s[k] == x;
                    assert(s[k] == x);
                }
                if x == id@ {
                    assert(s[old_s.len() as int] == x);
                }
            }
            assert(s.to_set() =~= old_s.to_set().insert(id@));
        }
    }

    /// Stops awaiting `id`; says whether it was awaited.
    pub fn take(&mut self, id: &str) -> (r: bool)
        requires
            old(self).wf(),
        ensures
            final(self).wf(),
            r == old(self).view_set().contains(id@),
            final(self).view_set() == old(self).view_set().remove(id@),
    {
        let ghost old_s = self.ids@.map_values(|s: String| s@);
        match self.position(id) {
            Some(i) => {
                self.ids.remove(i);
                proof {
                    let s = self.ids@.map_values(|s: String| s@);
                    assert(s =~= old_s.remove(i as int));
                    assert(old_s[i as int] == id@);
                    assert(s.no_duplicates()) by {
                        assert forall|a: int, b: int| 0 <= a < s.len() && 0 <= b < s.len() && a != b implies s[a] != s[b] by {
                            let a2 = if a < i { a } else { a + 1 };
                            let b2 = if b < i { b } else { b + 1 };
                            assert(s[a] == old_s[a2]);
                            assert(s[b] == old_s[b2]);
                        }
                    }
                    assert forall|x: Seq<char>| s.to_set().contains(x) <==> old_s.to_set().remove(id@).contains(x) by {
                        if s.to_set().contains(x) {
                            let k = choose|k: int| 0 <= k < s.len() && s[k] == x;
                            let k2 = if k < i { k } else { k + 1 };
                            assert(old_s[k2] == x);
                            assert(k2 != i);
                        }
                        if old_s.to_set().remove(id@).contains(x) {
                            let k = choose|k: int| 0 <= k < old_s.len() && old_s[k] == x;
                            assert(k != i);
                            let k2 = if k < i { k } else { k - 1 };
                            assert(s[k2] == x);
                        }
                    }
                    assert(s.to_set() =~= old_s.to_set().remove(id@));
                    assert(old_s.contains(id@));
                }
                true
            },
            None => {
                proof {
                    assert(!old_s.contains(id@)) by {
                        if old_s.contains(id@) {
                            let j = choose|j: int| 0 <= j < old_s.len() && old_s[j] == id@;
                            assert(self.ids@[j]@ == id@);
                        }
                    }
                    assert(old_s.to_set().remove(id@) =~= old_s.to_set());
                }
                false
            },
        }
    }
}

/// Sorts a message that reached the client: a response goes to the request
/// that awaits it (which then awaits no longer) or is dropped; an event goes
/// to the event subscribers.
pub fn deliver_to_client<T>(msg: WrappedMessage<T>, pending: &mut PendingRequests) -> (r: ClientDelivery<T>)
    requires
        old(pending).wf(),
    ensures
        final(pending).wf(),
        match msg.id {
            Some(id) => if old(pending).view_set().contains(id@) {
                r matches ClientDelivery::Response { id: i, message } && i@ == id@ && message == msg.message
            } else {
                r matches ClientDelivery::Orphan { id: i } && i@ == id@
            },
            None => r == ClientDelivery::Event(msg.message),
        },
        final(pending).view_set() == match msg.id {
            Some(id) => old(pending).view_set().remove(id@),
            None => old(pending).view_set(),
        },
{
    let WrappedMessage { id, message } = msg;
    match id {
        Some(id) => {
            if pending.take(id.as_str()) {
                ClientDelivery::Response { id, message }
            } else {
                ClientDelivery::Orphan { id }
            }
        },
        None => ClientDelivery::Event(message),
    }
}

/// Sorts a message that reached the server: with an id it is a request, without one an event.
pub fn deliver_to_server<T>(msg: WrappedMessage<T>) -> (r: ServerDelivery<T>)
    ensures
        match msg.id {
            Some(_) => r matches ServerDelivery::Request(m) && id_view(m.id) == id_view(msg.id) && m.message == msg.message,
            None => r == ServerDelivery::Event(msg.message),
        },
{
    match msg.id {
        Some(_) => ServerDelivery::Request(msg),
        None => ServerDelivery::Event(msg.message),
    }
}

/// A response is handed over at most once: once the response for an id has
/// been delivered, that id no longer awaits one, so a second message with the
/// same id is dropped.
pub proof fn law_response_delivered_once(pending: Set<Seq<char>>, id: Seq<char>)
    ensures
        !pending.remove(id).contains(id),
{
}

} // verus!
