//! The ACME DNS server's answers: which cluster a TXT query asks about, the
//! errors it answers with, and the records it gives.
use crate::text::{chars_of, push_str, seq_starts_with, starts_with};
use vstd::prelude::*;
use vstd::string::*;

verus! {

/// How long a TCP connection to the DNS server may stay idle.
pub const TCP_TIMEOUT_SECONDS: u64 = 10;

/// The time to live of the TXT records the server gives.
pub const TXT_RECORD_TTL: u32 = 300;

/// The DNS response codes the server answers errors with.
#[derive(Clone, Copy, Debug, PartialEq, Eq, Structural)]
pub enum DnsResponseCode {
    FormErr,
    ServFail,
    NotImp,
}

/// An error answer: its response code, and a message for the log.
#[derive(Clone, Debug)]
pub struct DnsError {
    pub code: DnsResponseCode,
    pub message: String,
}

/// A query name without its one trailing dot, if it has one.
pub open spec fn without_root_dot(name: Seq<char>) -> Seq<char> {
    if name.len() > 0 && name.last() == '.' {
        name.drop_last()
    } else {
        name
    }
}

/// The cluster a query asks about, or the error it is answered with: only TXT
/// queries are served, and only for names under `_acme-challenge.`.
pub open spec fn query_cluster(name: Seq<char>, is_txt: bool, kind_text: Seq<char>) -> Result<
    Seq<char>,
    (DnsResponseCode, Seq<char>),
> {
    if !is_txt {
        Err((DnsResponseCode::NotImp, "Unsupported query type: "@ + kind_text))
    } else if starts_with(without_root_dot(name), "_acme-challenge."@) {
        Ok(without_root_dot(name).skip(16))
    } else {
        Err((DnsResponseCode::FormErr, "Invalid TXT query: "@ + without_root_dot(name)))
    }
}

/// The cluster a query asks about, as `query_cluster` says; `kind_text` is how
/// the query's type reads in the message for an unsupported one.
pub fn lookup_cluster(name: &str, is_txt: bool, kind_text: &str) -> (r: Result<String, DnsError>)
    ensures
        match (r, query_cluster(name@, is_txt, kind_text@)) {
            (Ok(c), Ok(d)) => c@ == d,
            (Err(e), Err((code, message))) => e.code == code && e.message@ == message,
            _ => false,
        },
{
    proof {
        reveal_strlit("_acme-challenge.");
        reveal_strlit("Unsupported query type: ");
        reveal_strlit("Invalid TXT query: ");
    }
    if !is_txt {
        let mut message = "Unsupported query type: ".to_owned();
        push_str(&mut message, kind_text);
        return Err(DnsError { code: DnsResponseCode::NotImp, message });
    }
    let n = name.unicode_len();
    let trimmed = if n > 0 && name.get_char(n - 1) == '.' {
        name.substring_char(0, n - 1)
    } else {
        name
    };
    proof {
        assert(trimmed@ =~= without_root_dot(name@));
    }
    let chars = chars_of(trimmed);
    let prefix = chars_of("_acme-challenge.");
    if seq_starts_with(chars.as_slice(), prefix.as_slice()) {
        let cluster = trimmed.substring_char(16, chars.len());
        Ok(cluster.to_owned())
    } else {
        let mut message = "Invalid TXT query: ".to_owned();
        push_str(&mut message, trimmed);
        Err(DnsError { code: DnsResponseCode::FormErr, message })
    }
}

/// The error when no TXT record can be had for the cluster.
pub fn no_record_error(cluster: &str) -> (r: DnsError)
    ensures
        r.code == DnsResponseCode::ServFail,
        r.message@ == "No TXT record found for "@ + cluster@,
{
    let mut message = "No TXT record found for ".to_owned();
    push_str(&mut message, cluster);
    DnsError { code: DnsResponseCode::ServFail, message }
}

/// The records answering a TXT query: one record with the value, when there
/// is one, each with time to live `TXT_RECORD_TTL`.
pub fn txt_answer(value: Option<String>) -> (r: Vec<(u32, String)>)
    ensures
        match value {
            Some(v) => r@.len() == 1 && r@[0].0 == TXT_RECORD_TTL && r@[0].1@ == v@,
            None => r@.len() == 0,
        },
{
    let mut records: Vec<(u32, String)> = Vec::new();
    if let Some(v) = value {
        records.push((TXT_RECORD_TTL, v));
    }
    records
}

} // verus!
