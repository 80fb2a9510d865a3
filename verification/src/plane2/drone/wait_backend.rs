//! Waiting for a backend to answer HTTP: what is sent, and what counts as an answer.
use vstd::prelude::*;
use vstd::string::*;
use vstd::utf8::encode_utf8;

verus! {

/// How long to wait between attempts, in milliseconds.
pub const WAIT_TIMEOUT_MS: u64 = 100;

/// How long an attempt waits for the backend to answer, in milliseconds.
pub const REQUEST_TIMEOUT_MS: u64 = 1_000;

/// The request each attempt sends.
pub open spec fn head_request() -> Seq<u8> {
    encode_utf8("HEAD / HTTP/1.1\r\nHost: localhost\r\n\r\n"@)
}

/// The bytes of the request each attempt sends.
pub fn head_request_bytes() -> (r: Vec<u8>)
    ensures
        r@ == head_request(),
{
    "HEAD / HTTP/1.1\r\nHost: localhost\r\n\r\n".as_bytes_vec()
}

/// What an attempt to reach the backend came to.
#[derive(Clone, Debug)]
pub enum ProbeOutcome {
    /// No connection could be made.
    ConnectFailed,
    /// The request could not be written.
    WriteFailed,
    /// No answer came in time.
    TimedOut,
    /// Reading the answer failed.
    ReadFailed,
    /// The first bytes of the answer (up to five).
    Answered(Vec<u8>),
}

/// Whether the backend is ready: it answered, and its answer starts with `HTTP/`.
pub fn backend_ready(outcome: &ProbeOutcome) -> (r: bool)
    ensures
        r == (match outcome {
            ProbeOutcome::Answered(bytes) => bytes@ == seq![72u8, 84u8, 84u8, 80u8, 47u8],
            _ => false,
        }),
{
    match outcome {
        ProbeOutcome::Answered(bytes) => {
            if bytes.len() != 5 {
                return false;
            }
            let ok = bytes[0] == 72 && bytes[1] == 84 && bytes[2] == 84 && bytes[3] == 80 && bytes[4] == 47;
            proof {
                if ok {
                    assert(bytes@ =~= seq![72u8, 84u8, 84u8, 80u8, 47u8]);
                }
            }
            ok
        },
        _ => false,
    }
}

} // verus!
