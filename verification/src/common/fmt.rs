//! Display helpers: sizes, spans of time and dates as the panel shows them.

use vstd::prelude::*;
use crate::clock;
use crate::clock::UtcTime;
use crate::digits;
use crate::text;

verus! {

// ---------------------------------------------------------------------------
// Sizes
// ---------------------------------------------------------------------------

/// The quotient rounded to the nearest whole number, ties to the even one.
pub open spec fn half_even(n: int, d: int) -> int {
    let q = n / d;
    let r = n % d;
    if 2 * r > d || (2 * r == d && q % 2 == 1) {
        q + 1
    } else {
        q
    }
}

/// Executable form of [`half_even`].
fn round_half_even(n: u128, d: u128) -> (q: u128)
    requires
        0 < d <= 0x1000_0000_0000_0000_0000_0000,
        n < 0x4000_0000_0000_0000_0000_0000_0000_0000,
    ensures
        q == half_even(n as int, d as int),
        q <= n + 1,
{
    let q = n / d;
    let r = n % d;
    assert(q <= n) by (nonlinear_arith)
        requires
            q == n / d,
            d > 0,
    ;
    if 2 * r > d || (2 * r == d && q % 2 == 1) {
        q + 1
    } else {
        q
    }
}

/// The distance between neighbouring numbers of 53 significant bits at `v`.
pub open spec fn spacing(v: int) -> int {
    if v < 0x20_0000_0000_0000 {
        1
    } else if v < 0x40_0000_0000_0000 {
        2
    } else if v < 0x80_0000_0000_0000 {
        4
    } else if v < 0x100_0000_0000_0000 {
        8
    } else if v < 0x200_0000_0000_0000 {
        16
    } else if v < 0x400_0000_0000_0000 {
        32
    } else if v < 0x800_0000_0000_0000 {
        64
    } else if v < 0x1000_0000_0000_0000 {
        128
    } else if v < 0x2000_0000_0000_0000 {
        256
    } else if v < 0x4000_0000_0000_0000 {
        512
    } else if v < 0x8000_0000_0000_0000 {
        1024
    } else {
        2048
    }
}

/// `v` rounded to 53 significant bits. Sizes up to eight petabytes are kept as
/// they are.
pub open spec fn significant(v: int) -> int {
    half_even(v, spacing(v)) * spacing(v)
}

/// Executable form of [`significant`].
fn to_significant(v: u64) -> (r: u128)
    ensures
        r == significant(v as int),
        r <= 0x1_0000_0000_0000_0000,
        v < 0x20_0000_0000_0000 ==> r == v,
{
    let step: u128 = if v < 0x20_0000_0000_0000 {
        1
    } else if v < 0x40_0000_0000_0000 {
        2
    } else if v < 0x80_0000_0000_0000 {
        4
    } else if v < 0x100_0000_0000_0000 {
        8
    } else if v < 0x200_0000_0000_0000 {
        16
    } else if v < 0x400_0000_0000_0000 {
        32
    } else if v < 0x800_0000_0000_0000 {
        64
    } else if v < 0x1000_0000_0000_0000 {
        128
    } else if v < 0x2000_0000_0000_0000 {
        256
    } else if v < 0x4000_0000_0000_0000 {
        512
    } else if v < 0x8000_0000_0000_0000 {
        1024
    } else {
        2048
    };
    let q = round_half_even(v as u128, step);
    assert(q * step <= 0x1_0000_0000_0000_0000) by {
        assert(step == spacing(v as int));
        assert(v / 1 == v && v % 1 == 0);
        assert(q <= v as int / step as int + 1);
        assert(q * step <= 0x1_0000_0000_0000_0000);
    }
    q * step
}

/// `1024` to the power of `unit`, for the units that sizes are shown in.
pub open spec fn unit_size(unit: int) -> int {
    if unit <= 0 {
        1
    } else if unit == 1 {
        0x400
    } else if unit == 2 {
        0x10_0000
    } else if unit == 3 {
        0x4000_0000
    } else {
        0x100_0000_0000
    }
}

/// The unit that a size is shown in: the largest of which there is at least one.
pub open spec fn unit_of(v: int) -> int {
    if v < 0x400 {
        0
    } else if v < 0x10_0000 {
        1
    } else if v < 0x4000_0000 {
        2
    } else if v < 0x100_0000_0000 {
        3
    } else {
        4
    }
}

/// The name of a unit.
pub open spec fn unit_name(unit: int) -> Seq<char> {
    if unit <= 0 {
        " B"@
    } else if unit == 1 {
        " KB"@
    } else if unit == 2 {
        " MB"@
    } else if unit == 3 {
        " GB"@
    } else {
        " TB"@
    }
}

/// A number of tenths, with its decimal point.
pub open spec fn tenths(t: int) -> Seq<char> {
    digits::dec((t / 10) as nat) + "."@ + digits::dec((t % 10) as nat)
}

/// Executable form of [`tenths`].
fn write_tenths(t: u128) -> (s: String)
    ensures
        s@ == tenths(t as int),
{
    let whole = digits::dec_u128(t / 10);
    let part = digits::dec_u128(t % 10);
    text::cat3(whole.as_str(), ".", part.as_str())
}

/// How a number of bytes is shown.
pub open spec fn spec_bytes(value: int) -> Seq<char> {
    let size = significant(value);
    let unit = unit_of(size);
    if unit == 0 {
        digits::dec(value as nat) + " B"@
    } else if size < 10 * unit_size(unit) {
        tenths(half_even(10 * size, unit_size(unit))) + unit_name(unit)
    } else {
        digits::dec(half_even(size, unit_size(unit)) as nat) + unit_name(unit)
    }
}

/// Human byte sizes: `1.2 GB`, `840 MB`, `12 KB`.
pub fn bytes(value: u64) -> (s: String)
    ensures
        s@ == spec_bytes(value as int),
{
    let size = to_significant(value);
    if size < 0x400 {
        let n = digits::dec_u64(value);
        return text::cat2(n.as_str(), " B");
    }
    let (unit, name): (u128, &str) = if size < 0x10_0000 {
        (0x400, " KB")
    } else if size < 0x4000_0000 {
        (0x10_0000, " MB")
    } else if size < 0x100_0000_0000 {
        (0x4000_0000, " GB")
    } else {
        (0x100_0000_0000, " TB")
    };
    if size < 10 * unit {
        let n = write_tenths(round_half_even(10 * size, unit));
        text::cat2(n.as_str(), name)
    } else {
        let n = digits::dec_u128(round_half_even(size, unit));
        text::cat2(n.as_str(), name)
    }
}

/// How a number of megabytes is shown.
pub open spec fn spec_megabytes(value: int) -> Seq<char> {
    let size = significant(value);
    if value < 1024 {
        digits::dec(value as nat) + " MB"@
    } else if 10 * (size % 1024) < 512 {
        digits::dec(half_even(size, 1024) as nat) + " GB"@
    } else {
        tenths(half_even(10 * size, 1024)) + " GB"@
    }
}

/// Megabytes into the closest sensible unit: `512 MB`, `2 GB`.
pub fn megabytes(value: u64) -> (s: String)
    ensures
        s@ == spec_megabytes(value as int),
{
    if value >= 1024 {
        let size = to_significant(value);
        if 10 * (size % 1024) < 512 {
            let n = digits::dec_u128(round_half_even(size, 1024));
            text::cat2(n.as_str(), " GB")
        } else {
            let n = write_tenths(round_half_even(10 * size, 1024));
            text::cat2(n.as_str(), " GB")
        }
    } else {
        let n = digits::dec_u64(value);
        text::cat2(n.as_str(), " MB")
    }
}

// ---------------------------------------------------------------------------
// Time
// ---------------------------------------------------------------------------

/// The power of two at or above `p` that is the greatest not above `ms / 1000`.
pub open spec fn magnitude(ms: int, p: int) -> int
    decreases ms - p,
{
    if p <= 0 || ms < 2000 * p {
        p
    } else {
        magnitude(ms, 2 * p)
    }
}

/// Milliseconds as seconds with 53 significant bits, in steps of `1 / 2^52`.
pub open spec fn binary_seconds(ms: int) -> int {
    let n = significant(ms);
    let p = magnitude(n, 1);
    half_even(n * 0x10_0000_0000_0000, 1000 * p) * p
}

/// Milliseconds as tenths of a second.
pub open spec fn seconds_in_tenths(ms: int) -> int {
    half_even(10 * binary_seconds(ms), 0x10_0000_0000_0000)
}

/// Milliseconds, at least a second of them, as seconds with one decimal.
pub fn write_seconds(ms: u64) -> (s: String)
    requires
        ms >= 1000,
    ensures
        s@ == tenths(seconds_in_tenths(ms as int)),
{
    let n = to_significant(ms);
    let mut p: u128 = 1;
    while n >= 2000 * p
        invariant
            0 < p <= 0x1_0000_0000_0000_0000,
            n <= 0x1_0000_0000_0000_0000,
            magnitude(n as int, 1) == magnitude(n as int, p as int),
        decreases n - p,
    {
        p = 2 * p;
    }
    let m = round_half_even(n * 0x10_0000_0000_0000, 1000 * p);
    assert(m * p <= 0x10_0000_0000_0000_0000_0000_0000_0000) by (nonlinear_arith)
        requires
            m == half_even((n * 0x10_0000_0000_0000) as int, (1000 * p) as int),
            0 < p <= 0x1_0000_0000_0000_0000,
            n <= 0x1_0000_0000_0000_0000,
    {
        let a = (n * 0x10_0000_0000_0000) as int;
        let d = (1000 * p) as int;
        assert(d * (a / d) <= a);
        assert(m <= a / d + 1);
        assert(m * p <= (a / d) * p + p);
        assert((a / d) * p <= d * (a / d));
    }
    let t = round_half_even(10 * (m * p), 0x10_0000_0000_0000);
    write_tenths(t)
}

/// How a time in the past is shown at `now`.
pub open spec fn spec_relative(now: UtcTime, time: UtcTime) -> Seq<char> {
    let s = now.spec_seconds_since(time);
    if s < 0 {
        "in the future"@
    } else if s < 45 {
        "just now"@
    } else if s < 3600 {
        digits::dec((s / 60) as nat) + "m ago"@
    } else if s < 86_400 {
        digits::dec((s / 3600) as nat) + "h ago"@
    } else if s < 7 * 86_400 {
        digits::dec((s / 86_400) as nat) + "d ago"@
    } else {
        clock::formatted(time.secs, time.nanos, clock::DAY_PATTERN@)
    }
}

/// How a time in the past is shown at `now`.
pub fn relative_at(now: &UtcTime, time: &UtcTime) -> (s: String)
    requires
        time.wf(),
    ensures
        s@ == spec_relative(*now, *time),
{
    let secs = now.seconds_since(time);
    if secs < 0 {
        "in the future".to_owned()
    } else if secs < 45 {
        "just now".to_owned()
    } else if secs < 3600 {
        let n = digits::dec_u128((secs / 60) as u128);
        text::cat2(n.as_str(), "m ago")
    } else if secs < 86_400 {
        let n = digits::dec_u128((secs / 3600) as u128);
        text::cat2(n.as_str(), "h ago")
    } else if secs < 7 * 86_400 {
        let n = digits::dec_u128((secs / 86_400) as u128);
        text::cat2(n.as_str(), "d ago")
    } else {
        clock::format_time(time, clock::DAY_PATTERN)
    }
}

/// `just now`, `4m ago`, `3h ago`, `2d ago`, `12 Sep`.
pub fn relative(time: &UtcTime) -> (s: String)
    requires
        time.wf(),
    ensures
        exists|now: UtcTime| now.wf() && s@ == #[trigger] spec_relative(now, *time),
{
    let now = clock::now();
    relative_at(&now, time)
}

/// Absolute timestamp for tooltips and audit rows.
pub fn timestamp(time: &UtcTime) -> (s: String)
    requires
        time.wf(),
    ensures
        s@ == clock::formatted(time.secs, time.nanos, clock::MINUTE_PATTERN@),
{
    clock::format_time(time, clock::MINUTE_PATTERN)
}

/// How the time left until `time` is shown at `now`.
pub open spec fn spec_until(now: UtcTime, time: UtcTime) -> Seq<char> {
    let days = time.spec_days_since(now);
    if time.total() < now.total() {
        "expired"@
    } else if days == 0 {
        "today"@
    } else if days == 1 {
        "1 day"@
    } else {
        digits::dec(days as nat) + " days"@
    }
}

/// How the time left until `time` is shown at `now`.
pub fn until_at(now: &UtcTime, time: &UtcTime) -> (s: String)
    ensures
        s@ == spec_until(*now, *time),
{
    if time.before(now) {
        return "expired".to_owned();
    }
    let days = time.days_since(now);
    if days == 0 {
        "today".to_owned()
    } else if days == 1 {
        "1 day".to_owned()
    } else {
        let n = digits::dec_u128(days as u128);
        text::cat2(n.as_str(), " days")
    }
}

/// `74 days` until a certificate expires, or `expired`.
pub fn until(time: &UtcTime) -> (s: String)
    ensures
        exists|now: UtcTime| now.wf() && s@ == #[trigger] spec_until(now, *time),
{
    let now = clock::now();
    until_at(&now, time)
}

/// How a span of seconds is shown.
pub open spec fn spec_duration_secs(secs: nat) -> Seq<char> {
    if secs < 60 {
        digits::dec(secs) + "s"@
    } else if secs < 3600 {
        digits::dec(secs / 60) + "m "@ + digits::dec(secs % 60) + "s"@
    } else {
        digits::dec(secs / 3600) + "h "@ + digits::dec((secs % 3600) / 60) + "m"@
    }
}

pub fn duration_secs(secs: u64) -> (s: String)
    ensures
        s@ == spec_duration_secs(secs as nat),
{
    if secs < 60 {
        let n = digits::dec_u64(secs);
        text::cat2(n.as_str(), "s")
    } else if secs < 3600 {
        let m = digits::dec_u64(secs / 60);
        let n = digits::dec_u64(secs % 60);
        text::cat4(m.as_str(), "m ", n.as_str(), "s")
    } else {
        let h = digits::dec_u64(secs / 3600);
        let m = digits::dec_u64((secs % 3600) / 60);
        text::cat4(h.as_str(), "h ", m.as_str(), "m")
    }
}

// ---------------------------------------------------------------------------
// Shares
// ---------------------------------------------------------------------------

/// The bit pattern of infinity in single precision.
pub const INFINITY_BITS: u32 = 0x7F80_0000;

/// The bit pattern of 90 in single precision.
pub const NINETY_BITS: u32 = 0x42B4_0000;

/// The bit pattern of 75 in single precision.
pub const SEVENTY_FIVE_BITS: u32 = 0x4296_0000;

/// The single-precision number with one bit pattern is at least the positive one with
/// another: positive numbers stand in the order of their bit patterns, and what stands
/// beyond infinity is no number or a negative one.
pub open spec fn at_least(bits: u32, bound: u32) -> bool {
    bound <= bits <= INFINITY_BITS
}

/// Meter colour band for a utilisation percentage.
pub open spec fn tone_of(bits: u32) -> Seq<char> {
    if at_least(bits, NINETY_BITS) {
        "bad"@
    } else if at_least(bits, SEVENTY_FIVE_BITS) {
        "warn"@
    } else {
        "ok"@
    }
}

/// Meter colour band for a utilisation percentage, given as the bit pattern of a
/// single-precision number.
pub fn utilisation_tone(bits: u32) -> (s: &'static str)
    ensures
        s@ == tone_of(bits),
{
    if NINETY_BITS <= bits && bits <= INFINITY_BITS {
        "bad"
    } else if SEVENTY_FIVE_BITS <= bits && bits <= INFINITY_BITS {
        "warn"
    } else {
        "ok"
    }
}

} // verus!
