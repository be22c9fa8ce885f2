//! Points in time, and the calendar work that chrono does for them.

use vstd::prelude::*;

verus! {

/// A point in time: seconds since the start of 1970 in UTC, and nanoseconds
/// into that second. A leap second counts as the end of the second before it.
#[derive(Debug, Clone, Copy, PartialEq, Eq, Structural)]
pub struct UtcTime {
    pub secs: i64,
    pub nanos: u32,
}

/// First second of the years that the calendar covers.
pub const MIN_SECS: i64 = -8_334_601_228_800;

/// Last second of the years that the calendar covers.
pub const MAX_SECS: i64 = 8_210_266_876_799;

pub const SECS_PER_DAY: i64 = 86_400;

/// Shown for dates more than a week past: `12 Sep`.
pub const DAY_PATTERN: &'static str = "%-d %b";

/// Shown in tooltips and audit rows: `2025-09-12 08:30 UTC`.
pub const MINUTE_PATTERN: &'static str = "%Y-%m-%d %H:%M UTC";

/// The form in which SQLite's `datetime` writes a time.
pub const SQLITE_PATTERN: &'static str = "%Y-%m-%d %H:%M:%S";

/// Whole quotient rounded toward zero.
pub open spec fn toward_zero(n: int, d: int) -> int {
    if n >= 0 {
        n / d
    } else {
        -((-n) / d)
    }
}

impl UtcTime {
    /// The time lies in the years that the calendar covers.
    pub open spec fn wf(self) -> bool {
        MIN_SECS <= self.secs <= MAX_SECS && self.nanos < 1_000_000_000
    }

    /// Nanoseconds since the start of 1970.
    pub open spec fn total(self) -> int {
        self.secs * 1_000_000_000 + self.nanos
    }

    /// Whole seconds from `earlier` to this time, rounded toward zero.
    pub open spec fn spec_seconds_since(self, earlier: UtcTime) -> int {
        toward_zero(self.total() - earlier.total(), 1_000_000_000)
    }

    /// Whole days from `earlier` to this time, rounded toward zero.
    pub open spec fn spec_days_since(self, earlier: UtcTime) -> int {
        toward_zero(self.spec_seconds_since(earlier), SECS_PER_DAY as int)
    }

    /// The time with the given parts; nanoseconds past the end of the second
    /// stand for a leap second.
    pub fn from_parts(secs: i64, nanos: u32) -> (t: UtcTime)
        ensures
            t.secs == secs,
            t.nanos == if nanos < 1_000_000_000 {
                nanos
            } else {
                999_999_999u32
            },
    {
        UtcTime { secs, nanos: if nanos < 1_000_000_000 { nanos } else { 999_999_999 } }
    }

    /// Whole seconds from `earlier` to this time, rounded toward zero.
    pub fn seconds_since(&self, earlier: &UtcTime) -> (n: i128)
        ensures
            n == self.spec_seconds_since(*earlier),
    {
        let a: i128 = self.secs as i128 * 1_000_000_000 + self.nanos as i128;
        let b: i128 = earlier.secs as i128 * 1_000_000_000 + earlier.nanos as i128;
        div_toward_zero(a - b, 1_000_000_000)
    }

    /// Whole days from `earlier` to this time, rounded toward zero.
    pub fn days_since(&self, earlier: &UtcTime) -> (n: i128)
        ensures
            n == self.spec_days_since(*earlier),
    {
        let secs = self.seconds_since(earlier);
        div_toward_zero(secs, 86_400)
    }

    /// Whether this time comes before `other`.
    pub fn before(&self, other: &UtcTime) -> (r: bool)
        ensures
            r == (self.total() < other.total()),
    {
        self.secs as i128 * 1_000_000_000 + (self.nanos as i128) < other.secs as i128
            * 1_000_000_000 + other.nanos as i128
    }

    /// The time `secs` seconds later.
    pub fn plus_seconds(&self, secs: i64) -> (t: UtcTime)
        requires
            self.wf(),
            MIN_SECS <= self.secs + secs <= MAX_SECS,
        ensures
            t.wf(),
            t.secs == self.secs + secs,
            t.nanos == self.nanos,
    {
        UtcTime { secs: self.secs + secs, nanos: self.nanos }
    }
}

/// Divides, rounding toward zero.
fn div_toward_zero(n: i128, d: i128) -> (q: i128)
    requires
        d > 0,
        n > i128::MIN,
    ensures
        q == toward_zero(n as int, d as int),
{
    if n >= 0 {
        n / d
    } else {
        -((-n) / d)
    }
}

// ---------------------------------------------------------------------------
// chrono
// ---------------------------------------------------------------------------

/// Calls `chrono::Utc::now`: the seconds since 1970 and the nanoseconds. Nothing is
/// claimed of them but that they lie in the years that the calendar covers.
#[verifier::external_body]
fn read_clock() -> (r: (i64, u32))
    ensures
        MIN_SECS <= r.0 <= MAX_SECS,
{
    let t = chrono::Utc::now();
    (t.timestamp(), t.timestamp_subsec_nanos())
}

/// The time now.
pub(crate) fn now() -> (t: UtcTime)
    ensures
        t.wf(),
{
    let (secs, nanos) = read_clock();
    UtcTime::from_parts(secs, nanos)
}

/// What chrono's `DateTime::<Utc>::format` writes for a time and a pattern.
pub uninterp spec fn formatted(secs: i64, nanos: u32, pattern: Seq<char>) -> Seq<char>;

/// Writes a time out with `chrono::DateTime::format`, for the two patterns
/// that are shown. The result is that of the pattern on the time, and is named
/// [`formatted`].
#[verifier::external_body]
pub(crate) fn format_time(t: &UtcTime, pattern: &str) -> (s: String)
    requires
        t.wf(),
        pattern@ == DAY_PATTERN@ || pattern@ == MINUTE_PATTERN@,
    ensures
        s@ == formatted(t.secs, t.nanos, pattern@),
{
    chrono::DateTime::<chrono::Utc>::from_timestamp(t.secs, t.nanos)
        .unwrap()
        .format(pattern)
        .to_string()
}

/// What `chrono::DateTime::parse_from_rfc3339` reads from a text, as seconds
/// since 1970 and nanoseconds; nothing where it reports an error.
pub uninterp spec fn rfc3339(text: Seq<char>) -> Option<(i64, u32)>;

/// Reads a time with `chrono::DateTime::parse_from_rfc3339`. The result depends
/// on the text alone, is named [`rfc3339`], and lies in the years that the calendar
/// covers.
#[verifier::external_body]
fn read_rfc3339(text: &str) -> (r: Option<(i64, u32)>)
    ensures
        r == rfc3339(text@),
        r is Some ==> MIN_SECS <= (r->0).0 <= MAX_SECS,
{
    chrono::DateTime::parse_from_rfc3339(text)
        .ok()
        .map(|t| (t.timestamp(), t.timestamp_subsec_nanos()))
}

/// The time that an RFC 3339 text stands for.
pub open spec fn spec_parse_rfc3339(text: Seq<char>) -> Option<UtcTime> {
    match rfc3339(text) {
        Some((secs, nanos)) => Some(
            UtcTime {
                secs,
                nanos: if nanos < 1_000_000_000 {
                    nanos
                } else {
                    999_999_999u32
                },
            },
        ),
        None => None,
    }
}

/// Reads a time written as RFC 3339 says.
pub fn parse_rfc3339(text: &str) -> (r: Option<UtcTime>)
    ensures
        r == spec_parse_rfc3339(text@),
        r is Some ==> (r->0).wf(),
{
    match read_rfc3339(text) {
        Some((secs, nanos)) => Some(UtcTime::from_parts(secs, nanos)),
        None => None,
    }
}

/// First second of the years of four digits.
pub const YEAR_0: i64 = -62_167_219_200;

/// First second after the years of four digits.
pub const YEAR_10000: i64 = 253_402_300_800;

/// What `chrono::DateTime::<Utc>::to_rfc3339` writes for a time.
pub uninterp spec fn rfc3339_of(secs: i64, nanos: u32) -> Seq<char>;

/// Writes a time out with `chrono::DateTime::to_rfc3339`. The result depends on the
/// time alone and is named [`rfc3339_of`]; from 1970 to the end of the years of four
/// digits it reads back as the time.
#[verifier::external_body]
pub(crate) fn rfc3339_text(t: &UtcTime) -> (s: String)
    requires
        t.wf(),
    ensures
        s@ == rfc3339_of(t.secs, t.nanos),
        0 <= t.secs < YEAR_10000 ==> rfc3339(s@) == Some((t.secs, t.nanos)),
{
    chrono::DateTime::<chrono::Utc>::from_timestamp(t.secs, t.nanos).unwrap().to_rfc3339()
}

/// What `chrono::DateTime::<Utc>::to_rfc2822` writes for a time.
pub uninterp spec fn rfc2822_of(secs: i64, nanos: u32) -> Seq<char>;

/// Writes a time out with `chrono::DateTime::to_rfc2822`, which has four digits for a
/// year. The result depends on the time alone and is named [`rfc2822_of`].
#[verifier::external_body]
pub(crate) fn rfc2822_text(t: &UtcTime) -> (s: String)
    requires
        t.wf(),
        YEAR_0 <= t.secs < YEAR_10000,
    ensures
        s@ == rfc2822_of(t.secs, t.nanos),
{
    chrono::DateTime::<chrono::Utc>::from_timestamp(t.secs, t.nanos).unwrap().to_rfc2822()
}

/// Forms of a time without a zone, which is then UTC.
pub const PLAIN_T_PATTERN: &'static str = "%Y-%m-%dT%H:%M:%S";

pub const PLAIN_FRACTION_PATTERN: &'static str = "%Y-%m-%d %H:%M:%S%.f";

/// What `chrono::NaiveDateTime::parse_from_str` reads from a text, taken as UTC, as
/// seconds since 1970 and nanoseconds; nothing where it reports an error.
pub uninterp spec fn plain_time(text: Seq<char>, pattern: Seq<char>) -> Option<(i64, u32)>;

/// Reads a time with `chrono::NaiveDateTime::parse_from_str`. The result depends on the
/// text and the pattern alone, is named [`plain_time`], and lies in the years that the
/// calendar covers.
#[verifier::external_body]
fn read_plain(text: &str, pattern: &str) -> (r: Option<(i64, u32)>)
    ensures
        r == plain_time(text@, pattern@),
        r is Some ==> MIN_SECS <= (r->0).0 <= MAX_SECS,
{
    chrono::NaiveDateTime::parse_from_str(text, pattern)
        .ok()
        .map(|t| (t.and_utc().timestamp(), t.and_utc().timestamp_subsec_nanos()))
}

/// The time that a text without a zone stands for under a pattern.
pub open spec fn spec_parse_plain(text: Seq<char>, pattern: Seq<char>) -> Option<UtcTime> {
    match plain_time(text, pattern) {
        Some((secs, nanos)) => Some(
            UtcTime {
                secs,
                nanos: if nanos < 1_000_000_000 {
                    nanos
                } else {
                    999_999_999u32
                },
            },
        ),
        None => None,
    }
}

/// Reads a time without a zone under a pattern.
pub fn parse_plain(text: &str, pattern: &str) -> (r: Option<UtcTime>)
    ensures
        r == spec_parse_plain(text@, pattern@),
        r is Some ==> (r->0).wf(),
{
    match read_plain(text, pattern) {
        Some((secs, nanos)) => Some(UtcTime::from_parts(secs, nanos)),
        None => None,
    }
}

// ---------------------------------------------------------------------------
// A clock that only goes forward
// ---------------------------------------------------------------------------

#[verifier::external_type_specification]
#[verifier::external_body]
pub struct ExInstant(std::time::Instant);

/// Calls `std::time::Instant::now`. Nothing is claimed of the result.
#[verifier::external_body]
fn instant() -> (i: std::time::Instant) {
    std::time::Instant::now()
}

/// Calls `std::time::Instant::elapsed`: the nanoseconds since then. Nothing is claimed
/// of the result.
#[verifier::external_body]
fn nanos_since(i: &std::time::Instant) -> (n: u64) {
    i.elapsed().as_nanos() as u64
}

/// Counts nanoseconds from its start on.
pub struct Stopwatch {
    origin: std::time::Instant,
}

impl Stopwatch {
    pub fn start() -> (w: Self) {
        Stopwatch { origin: instant() }
    }

    /// Nanoseconds since the start.
    pub fn nanos(&self) -> (n: u64) {
        nanos_since(&self.origin)
    }
}

} // verus!
