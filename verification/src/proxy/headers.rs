//! HTTP headers as a list of (name, value) pairs: names in lowercase, values as bytes.
use crate::text::{chars_of, push_char, seq_starts_with, starts_with, str_eq};
use vstd::prelude::*;
use vstd::string::*;
use vstd::utf8::encode_utf8;

verus! {

/// Prefix of the headers that only Plane may set.
pub const VERIFIED_HEADER_PREFIX: &'static str = "x-verified-";

/// A header list as (name, value) sequences.
pub open spec fn headers_view(h: Seq<(String, Vec<u8>)>) -> Seq<(Seq<char>, Seq<u8>)> {
    h.map_values(|p: (String, Vec<u8>)| (p.0@, p.1@))
}

/// Whether a header name is one that only Plane may set: the `x-verified-*`
/// headers, and `x-plane-user` and `x-plane-auth`, which carry the user and the
/// auth data of the connection to the backend.
pub open spec fn is_verified_header(name: Seq<char>) -> bool {
    starts_with(name, "x-verified-"@) || name == "x-plane-user"@ || name == "x-plane-auth"@
}

/// The test a header passes to be kept when the verified ones are removed.
pub open spec fn kept_header() -> spec_fn((Seq<char>, Seq<u8>)) -> bool {
    |p: (Seq<char>, Seq<u8>)| !is_verified_header(p.0)
}

/// The headers that are not ones only Plane may set, in order.
pub open spec fn without_verified(h: Seq<(Seq<char>, Seq<u8>)>) -> Seq<(Seq<char>, Seq<u8>)> {
    h.filter(kept_header())
}

/// The test a header passes when the headers named `name` are removed.
pub open spec fn other_name(name: Seq<char>) -> spec_fn((Seq<char>, Seq<u8>)) -> bool {
    |p: (Seq<char>, Seq<u8>)| p.0 != name
}

/// The headers not named `name`, in order.
pub open spec fn without_name(h: Seq<(Seq<char>, Seq<u8>)>, name: Seq<char>) -> Seq<
    (Seq<char>, Seq<u8>),
> {
    h.filter(other_name(name))
}

/// The headers after setting `name` to `value`: the earlier values of `name`
/// are gone and the new one comes last.
pub open spec fn with_header(h: Seq<(Seq<char>, Seq<u8>)>, name: Seq<char>, value: Seq<u8>) -> Seq<
    (Seq<char>, Seq<u8>),
> {
    without_name(h, name).push((name, value))
}

/// The first value of the header `name`, if there is one.
pub open spec fn first_value(h: Seq<(Seq<char>, Seq<u8>)>, name: Seq<char>) -> Option<Seq<u8>>
    decreases h.len(),
{
    if h.len() == 0 {
        None
    } else if h[0].0 == name {
        Some(h[0].1)
    } else {
        first_value(h.drop_first(), name)
    }
}

/// A byte that a header value may hold and still be read as text: visible ASCII or tab.
pub open spec fn is_visible_byte(b: u8) -> bool {
    (32 <= b && b < 127) || b == 9
}

/// A header value read as text: defined when every byte is visible ASCII or tab.
pub open spec fn header_text(v: Seq<u8>) -> Option<Seq<char>> {
    if forall|i: int| 0 <= i < v.len() ==> is_visible_byte(#[trigger] v[i]) {
        Some(v.map_values(|b: u8| b as char))
    } else {
        None
    }
}

/// The text of the first value of header `name`, when there is one and it reads as text.
pub open spec fn header_str(h: Seq<(Seq<char>, Seq<u8>)>, name: Seq<char>) -> Option<Seq<char>> {
    match first_value(h, name) {
        Some(v) => header_text(v),
        None => None,
    }
}

/// Whether `s` can be a header value: no control character but tab, and no DEL.
pub open spec fn header_safe(s: Seq<char>) -> bool {
    forall|i: int| 0 <= i < s.len() ==> (#[trigger] s[i] == '\t' || (s[i] as int >= 32 && s[i] as int != 127))
}

/// Whether `s` can be a header value: no control character but tab, and no DEL.
pub fn is_header_safe(s: &str) -> (r: bool)
    ensures
        r == header_safe(s@),
{
    let c = chars_of(s);
    let mut i: usize = 0;
    while i < c.len()
        invariant
            c@ == s@,
            i <= c.len(),
            forall|j: int| 0 <= j < i ==> (#[trigger] s@[j] == '\t' || (s@[j] as int >= 32 && s@[j] as int != 127)),
        decreases c.len() - i,
    {
        let ch = c[i];
        if !(ch == '\t' || (ch >= ' ' && ch != '\x7f')) {
            return false;
        }
        i = i + 1;
    }
    true
}

/// Whether `name` is one that only Plane may set.
pub fn is_verified_header_name(name: &str) -> (r: bool)
    ensures
        r == is_verified_header(name@),
{
    proof {
        reveal_strlit("x-verified-");
    }
    let n = chars_of(name);
    let p = chars_of(VERIFIED_HEADER_PREFIX);
    seq_starts_with(n.as_slice(), p.as_slice()) || str_eq(name, "x-plane-user") || str_eq(name, "x-plane-auth")
}

/// Removes the headers that only Plane may set, keeping the others in order.
pub fn remove_verified_headers(headers: &mut Vec<(String, Vec<u8>)>)
    ensures
        headers_view(final(headers)@) == without_verified(headers_view(old(headers)@)),
{
    let ghost old_h = headers_view(headers@);
    let mut kept: Vec<(String, Vec<u8>)> = Vec::new();
    let mut i: usize = 0;
    while i < headers.len()
        invariant
            i <= headers@.len(),
            old_h == headers_view(headers@),
            headers_view(kept@) == without_verified(old_h.take(i as int)),
        decreases headers@.len() - i,
    {
        let name = headers[i].0.clone();
        let value = headers[i].1.clone();
        proof {
            assert(old_h.take(i + 1) =~= old_h.take(i as int).push(old_h[i as int]));
            old_h.take(i as int).lemma_filter_push(old_h[i as int], kept_header());
        }
        if !is_verified_header_name(name.as_str()) {
            kept.push((name, value));
            proof {
                assert(headers_view(kept@) =~= headers_view(kept@.drop_last()).push(old_h[i as int]));
            }
        }
        i = i + 1;
    }
    proof {
        assert(old_h.take(old_h.len() as int) =~= old_h);
    }
    *headers = kept;
}

/// Removes every header named `name`, keeping the others in order.
pub fn remove_header(headers: &mut Vec<(String, Vec<u8>)>, name: &str)
    ensures
        headers_view(final(headers)@) == without_name(headers_view(old(headers)@), name@),
{
    let ghost old_h = headers_view(headers@);
    let mut kept: Vec<(String, Vec<u8>)> = Vec::new();
    let mut i: usize = 0;
    while i < headers.len()
        invariant
            i <= headers@.len(),
            old_h == headers_view(headers@),
            headers_view(kept@) == without_name(old_h.take(i as int), name@),
        decreases headers@.len() - i,
    {
        let n = headers[i].0.clone();
        let value = headers[i].1.clone();
        proof {
            assert(old_h.take(i + 1) =~= old_h.take(i as int).push(old_h[i as int]));
            old_h.take(i as int).lemma_filter_push(old_h[i as int], other_name(name@));
        }
        if !str_eq(n.as_str(), name) {
            kept.push((n, value));
            proof {
                assert(headers_view(kept@) =~= headers_view(kept@.drop_last()).push(old_h[i as int]));
            }
        }
        i = i + 1;
    }
    proof {
        assert(old_h.take(old_h.len() as int) =~= old_h);
    }
    *headers = kept;
}

/// Appends a header, leaving any earlier values of the same name in place.
pub fn add_header(headers: &mut Vec<(String, Vec<u8>)>, name: &str, value: &str)
    requires
        header_safe(value@),
    ensures
        headers_view(final(headers)@) == headers_view(old(headers)@).push((name@, encode_utf8(value@))),
{
    headers.push((name.to_owned(), value.as_bytes_vec()));
    proof {
        assert(headers_view(headers@) =~= headers_view(old(headers)@).push((name@, encode_utf8(value@))));
    }
}

/// Sets header `name` to `value`, replacing all of its earlier values.
pub fn insert_header(headers: &mut Vec<(String, Vec<u8>)>, name: &str, value: &str)
    requires
        header_safe(value@),
    ensures
        headers_view(final(headers)@) == with_header(headers_view(old(headers)@), name@, encode_utf8(value@)),
{
    remove_header(headers, name);
    add_header(headers, name, value);
}

/// The position of the first header named `name`, if there is one.
pub fn find_header(headers: &Vec<(String, Vec<u8>)>, name: &str) -> (r: Option<usize>)
    ensures
        match r {
            Some(i) => i < headers@.len() && first_value(headers_view(headers@), name@) == Some(
                headers@[i as int].1@,
            ),
            None => first_value(headers_view(headers@), name@) is None,
        },
{
    let ghost h = headers_view(headers@);
    proof {
        assert(h.skip(0) =~= h);
    }
    let mut i: usize = 0;
    while i < headers.len()
        invariant
            i <= headers@.len(),
            h == headers_view(headers@),
            first_value(h, name@) == first_value(h.skip(i as int), name@),
        decreases headers@.len() - i,
    {
        proof {
            assert(h.skip(i as int)[0] == h[i as int]);
            assert(h.skip(i as int).drop_first() =~= h.skip(i + 1));
        }
        if str_eq(headers[i].0.as_str(), name) {
            return Some(i);
        }
        i = i + 1;
    }
    proof {
        assert(h.skip(i as int).len() == 0);
    }
    None
}

/// Whether there is a header named `name`.
pub fn has_header(headers: &Vec<(String, Vec<u8>)>, name: &str) -> (r: bool)
    ensures
        r == (first_value(headers_view(headers@), name@) is Some),
{
    find_header(headers, name).is_some()
}

/// A header value read as text, when every byte is visible ASCII or tab.
pub fn value_text(v: &[u8]) -> (r: Option<String>)
    ensures
        match r {
            Some(s) => header_text(v@) == Some(s@),
            None => header_text(v@) is None,
        },
{
    let mut s = String::new();
    let mut i: usize = 0;
    while i < v.len()
        invariant
            i <= v@.len(),
            forall|j: int| 0 <= j < i ==> is_visible_byte(#[trigger] v@[j]),
            s@ == v@.take(i as int).map_values(|b: u8| b as char),
        decreases v@.len() - i,
    {
        let b = v[i];
        if !((32 <= b && b < 127) || b == 9) {
            proof {
                assert(!is_visible_byte(v@[i as int]));
            }
            return None;
        }
        push_char(&mut s, b as char);
        proof {
            assert(v@.take(i + 1).map_values(|b: u8| b as char) =~= v@.take(i as int).map_values(
                |b: u8| b as char,
            ).push(b as char));
        }
        i = i + 1;
    }
    proof {
        assert(v@.take(v@.len() as int) =~= v@);
    }
    Some(s)
}

/// The text of the first value of header `name`, when there is one and it reads as text.
pub fn get_header_str(headers: &Vec<(String, Vec<u8>)>, name: &str) -> (r: Option<String>)
    ensures
        match r {
            Some(s) => header_str(headers_view(headers@), name@) == Some(s@),
            None => header_str(headers_view(headers@), name@) is None,
        },
{
    match find_header(headers, name) {
        Some(i) => value_text(headers[i].1.as_slice()),
        None => None,
    }
}

} // verus!
