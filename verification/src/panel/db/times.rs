//! Timestamps are stored as text. Both `datetime('now')` output and RFC 3339 are
//! accepted, so hand-written SQL and inserts interoperate.

use vstd::prelude::*;
use crate::clock;
use crate::clock::UtcTime;

verus! {

/// The time that a stored text stands for: RFC 3339, or else one of three forms
/// without a zone.
pub open spec fn stored_time(raw: Seq<char>) -> Option<UtcTime> {
    match clock::spec_parse_rfc3339(raw) {
        Some(t) => Some(t),
        None => match clock::spec_parse_plain(raw, clock::SQLITE_PATTERN@) {
            Some(t) => Some(t),
            None => match clock::spec_parse_plain(raw, clock::PLAIN_T_PATTERN@) {
                Some(t) => Some(t),
                None => clock::spec_parse_plain(raw, clock::PLAIN_FRACTION_PATTERN@),
            },
        },
    }
}

/// The time that a stored text stands for, or another one where it stands for none.
pub open spec fn stored_or(raw: Seq<char>, other: UtcTime) -> UtcTime {
    match stored_time(raw) {
        Some(t) => t,
        None => other,
    }
}

/// The time that an optional stored text stands for.
pub open spec fn stored_opt(raw: Option<String>, other: UtcTime) -> Option<UtcTime> {
    match raw {
        Some(s) => Some(stored_or(s@, other)),
        None => None,
    }
}

/// Executable form of [`stored_time`].
pub fn read_ts(raw: &str) -> (r: Option<UtcTime>)
    ensures
        r == stored_time(raw@),
        r is Some ==> (r->0).wf(),
{
    if let Some(t) = clock::parse_rfc3339(raw) {
        return Some(t);
    }
    if let Some(t) = clock::parse_plain(raw, clock::SQLITE_PATTERN) {
        return Some(t);
    }
    if let Some(t) = clock::parse_plain(raw, clock::PLAIN_T_PATTERN) {
        return Some(t);
    }
    clock::parse_plain(raw, clock::PLAIN_FRACTION_PATTERN)
}

/// Executable form of [`stored_or`].
pub fn parse_ts_or(raw: &str, other: &UtcTime) -> (t: UtcTime)
    ensures
        t == stored_or(raw@, *other),
{
    match read_ts(raw) {
        Some(t) => t,
        None => *other,
    }
}

/// Executable form of [`stored_opt`].
pub fn parse_ts_opt_or(raw: &Option<String>, other: &UtcTime) -> (t: Option<UtcTime>)
    ensures
        t == stored_opt(*raw, *other),
{
    match raw {
        Some(s) => Some(parse_ts_or(s.as_str(), other)),
        None => None,
    }
}

/// The time that a stored text stands for; the time now where it stands for none.
pub fn parse_ts(raw: &str) -> (t: UtcTime)
    ensures
        stored_time(raw@) is Some ==> Some(t) == stored_time(raw@),
        t.wf(),
{
    match read_ts(raw) {
        Some(t) => t,
        None => clock::now(),
    }
}

/// The time that an optional stored text stands for.
pub fn parse_ts_opt(raw: Option<String>) -> (r: Option<UtcTime>)
    ensures
        match raw {
            Some(s) => r is Some && (r->0).wf() && (stored_time(s@) is Some ==> r == stored_time(
                s@,
            )),
            None => r is None,
        },
{
    match raw {
        Some(s) => Some(parse_ts(s.as_str())),
        None => None,
    }
}

/// A time as it is stored. From 1970 to the end of the years of four digits it is
/// read back as it was.
pub fn time_string(t: &UtcTime) -> (s: String)
    requires
        t.wf(),
    ensures
        s@ == clock::rfc3339_of(t.secs, t.nanos),
        0 <= t.secs < clock::YEAR_10000 ==> stored_time(s@) == Some(*t),
{
    clock::rfc3339_text(t)
}

/// The time now, as it is stored.
pub fn now_string() -> (s: String)
    ensures
        exists|t: UtcTime| t.wf() && s@ == #[trigger] clock::rfc3339_of(t.secs, t.nanos),
{
    let t = clock::now();
    time_string(&t)
}

} // verus!
