//! Random identifiers, and helpers shared by the controller, drone and proxy.
use crate::text::{decimal, push_char, push_str};
use vstd::prelude::*;
use vstd::string::*;

use rand::distributions::Distribution;
use rand::Rng;

verus! {

/// Characters that random strings are drawn from.
pub const ALLOWED_CHARS: &'static str = "abcdefghijklmnopqrstuvwxyz0123456789";

/// Length of a random string.
pub const RANDOM_STRING_LENGTH: usize = 14;

/// A string is a possible result of `random_string`: fourteen characters,
/// each a lowercase ASCII letter or a decimal digit.
pub open spec fn is_random_string(s: Seq<char>) -> bool {
    &&& s.len() == RANDOM_STRING_LENGTH
    &&& forall|i: int| 0 <= i < s.len() ==> ALLOWED_CHARS@.contains(#[trigger] s[i])
}

/// Draws a number uniformly from `0..n` with `rand`'s `Uniform` distribution
/// and the thread-local generator. The contract claims only that the result
/// lies in `0..n`; which number comes out is left to chance.
#[verifier::external_body]
fn uniform_index(n: usize) -> (r: usize)
    requires
        n > 0,
    ensures
        r < n,
{
    rand::distributions::Uniform::new(0, n).sample(&mut rand::thread_rng())
}

/// `rand::Rng::fill` on `n` bytes from the thread-local generator. The contract
/// claims only the number of bytes; their values are left to chance.
#[verifier::external_body]
fn random_bytes(n: usize) -> (r: Vec<u8>)
    ensures
        r@.len() == n,
{
    let mut bytes = vec![0u8; n];
    rand::thread_rng().fill(bytes.as_mut_slice());
    bytes
}

/// How many random bytes a token is made of.
pub const TOKEN_BYTES: usize = 32;

/// Whether `c` is in the URL-safe base64 alphabet: `A`-`Z`, `a`-`z`, `0`-`9`,
/// `-` and `_`.
pub open spec fn is_base64url_char(c: char) -> bool {
    ('A' <= c && c <= 'Z') || ('a' <= c && c <= 'z') || ('0' <= c && c <= '9') || c == '-' || c == '_'
}

/// The URL-safe, unpadded base64 encoding of `data`, as `data_encoding`
/// computes it.
pub uninterp spec fn base64url_nopad_encoding(data: Seq<u8>) -> Seq<char>;

/// `data_encoding::BASE64URL_NOPAD.encode`: the contract claims that the result
/// is the named encoding of the input, that it has one symbol per six bits of
/// input rounded up (the source's `encode_len`, with no padding), and that its
/// symbols are those of the URL-safe alphabet (the source's symbol table). The
/// source refuses inputs longer than `usize::MAX / 512` bytes.
#[verifier::external_body]
fn base64url_nopad_encode(data: &[u8]) -> (r: String)
    requires
        data@.len() <= usize::MAX / 512,
    ensures
        r@ == base64url_nopad_encoding(data@),
        r@.len() == (8 * data@.len() + 5) / 6,
        forall|i: int| 0 <= i < r@.len() ==> is_base64url_char(#[trigger] r@[i]),
{
    data_encoding::BASE64URL_NOPAD.encode(data)
}

/// A random string of lowercase letters and digits.
pub fn random_string() -> (r: String)
    ensures
        is_random_string(r@),
{
    proof {
        reveal_strlit("abcdefghijklmnopqrstuvwxyz0123456789");
    }
    let n = ALLOWED_CHARS.unicode_len();
    let mut s = String::new();
    let mut i: usize = 0;
    while i < RANDOM_STRING_LENGTH
        invariant
            n == ALLOWED_CHARS@.len(),
            n == 36,
            i <= RANDOM_STRING_LENGTH,
            s@.len() == i,
            forall|j: int| 0 <= j < i ==> ALLOWED_CHARS@.contains(#[trigger] s@[j]),
        decreases RANDOM_STRING_LENGTH - i,
    {
        let k = uniform_index(n);
        let c = ALLOWED_CHARS.get_char(k);
        let ghost before = s@;
        push_char(&mut s, c);
        proof {
            assert(ALLOWED_CHARS@[k as int] == c);
            assert forall|j: int| 0 <= j < i + 1 implies ALLOWED_CHARS@.contains(#[trigger] s@[j]) by {
                if j < i {
                    assert(s@[j] == before[j]);
                }
            }
        }
        i = i + 1;
    }
    s
}

/// A random token: 32 random bytes, encoded as URL-safe unpadded base64, which
/// makes 43 characters.
pub fn random_token() -> (r: String)
    ensures
        exists|bytes: Seq<u8>| bytes.len() == 32 && r@ == base64url_nopad_encoding(bytes),
        r@.len() == 43,
        forall|i: int| 0 <= i < r@.len() ==> is_base64url_char(#[trigger] r@[i]),
{
    let token = random_bytes(TOKEN_BYTES);
    base64url_nopad_encode(token.as_slice())
}

/// The text of a random prefixed string: `prefix`, a dash, and a random string.
pub open spec fn is_random_prefixed(s: Seq<char>, prefix: Seq<char>) -> bool {
    exists|tail: Seq<char>| is_random_string(tail) && s == prefix + "-"@ + tail
}

/// `prefix`, a dash, and a random string of lowercase letters and digits.
pub fn random_prefixed_string(prefix: &str) -> (r: String)
    ensures
        r@.len() == prefix@.len() + 1 + RANDOM_STRING_LENGTH,
        r@.subrange(0, prefix@.len() as int) == prefix@,
        r@[prefix@.len() as int] == '-',
        is_random_string(r@.skip(prefix@.len() as int + 1)),
{
    proof {
        reveal_strlit("-");
    }
    let tail = random_string();
    let mut s = String::new();
    push_str(&mut s, prefix);
    push_str(&mut s, "-");
    push_str(&mut s, tail.as_str());
    proof {
        assert(s@ == prefix@ + "-"@ + tail@);
        assert(s@.subrange(0, prefix@.len() as int) =~= prefix@);
        assert(s@.skip(prefix@.len() as int + 1) =~= tail@);
    }
    s
}

/// Formats a duration given in whole seconds, e.g. "1d 2h 3m 4s".
pub fn format_duration(duration_seconds: i64) -> (r: String)
    ensures
        r@ == crate::util::duration_text(duration_seconds as int),
{
    crate::util::format_duration(duration_seconds)
}


/// A function to call on values as they come, with a description of it.
pub struct Callback<F> {
    func: F,
    description: &'static str,
}

impl<F> Callback<F> {
    /// The function held.
    pub closed spec fn func(&self) -> F {
        self.func
    }

    /// What the function does.
    pub closed spec fn description_text(&self) -> Seq<char> {
        self.description@
    }

    pub fn new(value: F, description: &'static str) -> (r: Self)
        ensures
            r.func() == value,
            r.description_text() == description@,
    {
        Callback { func: value, description }
    }

    pub fn description(&self) -> (r: &'static str)
        ensures
            r@ == self.description_text(),
    {
        self.description
    }

    /// Calls the function held on `inp`; the result is what it returns.
    pub fn call<T, E>(&self, inp: T) -> (r: Result<(), E>)
        where
            F: Fn(T) -> Result<(), E>,
        requires
            call_requires(self.func(), (inp,)),
        ensures
            call_ensures(self.func(), (inp,), r),
    {
        (self.func)(inp)
    }
}

/// The counting part of an exponential backoff: how many waits in a row there
/// have been, and when a deferred reset falls due (milliseconds since the
/// epoch). How long each wait lasts grows from the count by a factor that is
/// not an integer, and is worked out beside this.
pub struct BackoffSteps {
    step: i32,
    deferred_reset_ms: Option<i64>,
}

/// What a wait of the backoff does.
#[derive(Clone, Copy, Debug, PartialEq, Eq, Structural)]
pub enum BackoffWait {
    /// A deferred reset fell due: the backoff starts over, and there is no wait.
    Reset,
    /// Wait for the duration of this step.
    Wait { step: i32 },
}

impl BackoffSteps {
    pub closed spec fn step_spec(&self) -> int {
        self.step as int
    }

    pub closed spec fn deferred_spec(&self) -> Option<i64> {
        self.deferred_reset_ms
    }

    pub fn new() -> (r: Self)
        ensures
            r.step_spec() == 0,
            r.deferred_spec() is None,
    {
        BackoffSteps { step: 0, deferred_reset_ms: None }
    }

    pub fn step(&self) -> (r: i32)
        ensures
            r == self.step_spec(),
    {
        self.step
    }

    /// Resets the backoff, but only if `wait` is not called again for at least `defer_ms`.
    pub fn defer_reset(&mut self, now_ms: i64, defer_ms: i64)
        requires
            i64::MIN <= now_ms + defer_ms <= i64::MAX,
        ensures
            final(self).deferred_spec() == Some((now_ms + defer_ms) as i64),
            final(self).step_spec() == old(self).step_spec(),
    {
        self.deferred_reset_ms = Some(now_ms + defer_ms);
    }

    pub fn reset(&mut self)
        ensures
            final(self).step_spec() == 0,
            final(self).deferred_spec() is None,
    {
        self.deferred_reset_ms = None;
        self.step = 0;
    }

    /// Starts a wait at `now_ms`: a deferred reset that has fallen due resets the
    /// backoff instead; otherwise the wait is of the current step, and the step
    /// after it is one further.
    pub fn begin_wait(&mut self, now_ms: i64) -> (r: BackoffWait)
        requires
            old(self).step_spec() < i32::MAX,
        ensures
            final(self).deferred_spec() is None,
            match old(self).deferred_spec() {
                Some(t) if now_ms > t => r == BackoffWait::Reset && final(self).step_spec() == 0,
                _ => r == (BackoffWait::Wait { step: old(self).step_spec() as i32 })
                    && final(self).step_spec() == old(self).step_spec() + 1,
            },
    {
        if let Some(deferred) = self.deferred_reset_ms {
            self.deferred_reset_ms = None;
            if now_ms > deferred {
                self.reset();
                return BackoffWait::Reset;
            }
        }
        let step = self.step;
        self.step = self.step + 1;
        BackoffWait::Wait { step }
    }
}

} // verus!
