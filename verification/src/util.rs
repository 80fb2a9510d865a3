//! Formatting of durations for logs and status output.
use crate::text::{decimal, push_char, push_decimal};
use vstd::prelude::*;
use vstd::string::*;

verus! {

/// `acc` with `"{n}{unit}"` appended when `n` is positive, separated from what
/// is already there by a space.
pub open spec fn with_part(acc: Seq<char>, n: int, unit: char) -> Seq<char> {
    if n > 0 {
        (if acc.len() > 0 { acc.push(' ') } else { acc }) + decimal(n as nat).push(unit)
    } else {
        acc
    }
}

/// The text of a duration of `secs` whole seconds: its days, hours, minutes
/// and seconds, each shown only when positive (e.g. "1d 2h 3m 4s"), or "0s"
/// when none is. Days, hours and minutes are counted as whole numbers of
/// 86400, 3600 and 60 seconds, truncating toward zero.
pub open spec fn duration_text(secs: int) -> Seq<char> {
    if secs <= 0 {
        seq!['0', 's']
    } else {
        let days = secs / 86400;
        let hours = (secs / 3600) % 24;
        let minutes = (secs / 60) % 60;
        let seconds = secs % 60;
        let acc = with_part(
            with_part(with_part(with_part(Seq::empty(), days, 'd'), hours, 'h'), minutes, 'm'),
            seconds,
            's',
        );
        if acc.len() == 0 { seq!['0', 's'] } else { acc }
    }
}

/// Appends `"{n}{unit}"` to `s` when `n` is positive, after a space if `s`
/// is not empty.
fn append_part(s: &mut String, n: i64, unit: char)
    requires
        n >= 0,
    ensures
        final(s)@ == with_part(old(s)@, n as int, unit),
{
    if n > 0 {
        if s.as_str().unicode_len() > 0 {
            push_char(s, ' ');
        }
        push_decimal(s, n as u64);
        push_char(s, unit);
    }
}

/// Formats a duration given in whole seconds, e.g. "1d 2h 3m 4s".
pub fn format_duration(duration_seconds: i64) -> (r: String)
    ensures
        r@ == duration_text(duration_seconds as int),
{
    let mut s = String::new();
    if duration_seconds > 0 {
        let days = duration_seconds / 86400;
        let hours = (duration_seconds / 3600) % 24;
        let minutes = (duration_seconds / 60) % 60;
        let seconds = duration_seconds % 60;
        append_part(&mut s, days, 'd');
        append_part(&mut s, hours, 'h');
        append_part(&mut s, minutes, 'm');
        append_part(&mut s, seconds, 's');
    }
    if s.as_str().unicode_len() == 0 {
        let mut z = String::new();
        push_char(&mut z, '0');
        push_char(&mut z, 's');
        proof {
            assert(z@ =~= seq!['0', 's']);
        }
        z
    } else {
        s
    }
}

} // verus!
