//! Round-trip measurement of socket pings.
use vstd::prelude::*;

verus! {

/// How long after a ping the next one is sent, in milliseconds.
pub const PING_INTERVAL_MILLIS: u64 = 30_000;

#[derive(Clone, Copy, Debug, PartialEq, Eq, Structural)]
pub struct PingAttempt {
    /// A random number that identifies this attempt.
    pub id: u32,
    /// The time at which the ping was sent, in milliseconds.
    pub time: u64,
}

/// A random identifier, drawn with `rand::random`. Nothing is claimed of its value.
#[verifier::external_body]
fn random_id() -> u32 {
    rand::random()
}

pub struct PingSender {
    current_attempt: Option<PingAttempt>,
}

impl View for PingSender {
    type V = Option<PingAttempt>;

    closed spec fn view(&self) -> Option<PingAttempt> {
        self.current_attempt
    }
}

/// Milliseconds since `then`, or zero if `then` is later than `now`.
pub open spec fn elapsed_since(then: u64, now: u64) -> u64 {
    if now >= then { (now - then) as u64 } else { 0 }
}

impl PingSender {
    pub fn new() -> (r: Self)
        ensures
            r@ is None,
    {
        PingSender { current_attempt: None }
    }

    /// Ends the current attempt, and says how long (milliseconds) to wait from
    /// `now` before the next ping: the rest of the ping interval since the
    /// current attempt, or nothing when there is none.
    pub fn finish_current_attempt(&mut self, now: u64) -> (wait: u64)
        ensures
            final(self)@ is None,
            wait == (match old(self)@ {
                Some(a) => if elapsed_since(a.time, now) < PING_INTERVAL_MILLIS {
                    (PING_INTERVAL_MILLIS - elapsed_since(a.time, now)) as u64
                } else {
                    0
                },
                None => 0,
            }),
    {
        let current = self.current_attempt.take();
        match current {
            Some(a) => {
                let elapsed = if now >= a.time { now - a.time } else { 0 };
                if elapsed < PING_INTERVAL_MILLIS {
                    PING_INTERVAL_MILLIS - elapsed
                } else {
                    0
                }
            },
            None => 0,
        }
    }

    /// Starts a new attempt at `now` with a random identifier, which it returns.
    pub fn start_attempt(&mut self, now: u64) -> (id: u32)
        ensures
            final(self)@ == Some(PingAttempt { id, time: now }),
    {
        let id = random_id();
        self.current_attempt = Some(PingAttempt { id, time: now });
        id
    }

    /// Registers the answer to ping `id` at `now`: if it answers the current
    /// attempt, the attempt ends and the round-trip time is returned; otherwise
    /// the current attempt stays.
    pub fn register_result(&mut self, id: u32, now: u64) -> (r: Option<u64>)
        ensures
            match old(self)@ {
                Some(a) => if a.id == id {
                    r == Some(elapsed_since(a.time, now)) && final(self)@ is None
                } else {
                    r is None && final(self)@ == old(self)@
                },
                None => r is None && final(self)@ is None,
            },
    {
        let last = self.current_attempt.take();
        match last {
            Some(last_attempt) => {
                if last_attempt.id == id {
                    let elapsed = if now >= last_attempt.time { now - last_attempt.time } else { 0 };
                    Some(elapsed)
                } else {
                    self.current_attempt = Some(last_attempt);
                    None
                }
            },
            None => None,
        }
    }
}

} // verus!
