use wpressforge::clock::UtcTime;
use wpressforge::common::fmt::{
    bytes, duration_secs, megabytes, relative, relative_at, timestamp, until, until_at,
    utilisation_tone, write_seconds,
};

/// Sizes by way of floating point.
fn float_bytes(value: u64) -> String {
    let units = ["B", "KB", "MB", "GB", "TB"];
    let mut size = value as f64;
    let mut unit = 0;
    while size >= 1024.0 && unit < units.len() - 1 {
        size /= 1024.0;
        unit += 1;
    }
    if unit == 0 {
        format!("{} {}", value, units[unit])
    } else if size < 10.0 {
        format!("{size:.1} {}", units[unit])
    } else {
        format!("{size:.0} {}", units[unit])
    }
}

/// Sizes by way of floating point.
fn float_megabytes(value: u64) -> String {
    if value >= 1024 {
        let gb = value as f64 / 1024.0;
        if (gb.fract() * 10.0).round() == 0.0 {
            format!("{gb:.0} GB")
        } else {
            format!("{gb:.1} GB")
        }
    } else {
        format!("{value} MB")
    }
}

fn samples() -> Vec<u64> {
    let mut v: Vec<u64> = (0..5000).collect();
    let mut x: u64 = 88172645463325252;
    for _ in 0..5000 {
        x ^= x << 13;
        x ^= x >> 7;
        x ^= x << 17;
        v.push(x >> (x % 60));
    }
    for p in 0..64 {
        for d in 0..4 {
            v.push((1u64 << p).wrapping_add(d));
            v.push((1u64 << p).wrapping_sub(d));
        }
    }
    for k in 0..200u64 {
        v.push(k * 1024 * 1024 / 20);
        v.push(k * 1024 + 512);
        v.push(k * 1024 * 1024 * 1024 + 536_870_912);
    }
    v
}

#[test]
fn byte_sizes_have_a_sensible_unit() {
    assert_eq!(bytes(0), "0 B");
    assert_eq!(bytes(1023), "1023 B");
    assert_eq!(bytes(12 * 1024), "12 KB");
    assert_eq!(bytes(1_236_000_000), "1.2 GB");
    assert_eq!(bytes(840 * 1024 * 1024), "840 MB");
    for n in samples() {
        assert_eq!(bytes(n), float_bytes(n), "{n}");
    }
}

#[test]
fn megabytes_become_gigabytes() {
    assert_eq!(megabytes(512), "512 MB");
    assert_eq!(megabytes(2048), "2 GB");
    assert_eq!(megabytes(1536), "1.5 GB");
    for n in samples() {
        assert_eq!(megabytes(n), float_megabytes(n), "{n}");
    }
}

#[test]
fn seconds_are_shown_with_tenths() {
    for n in samples().into_iter().filter(|n| *n >= 1000) {
        assert_eq!(write_seconds(n), format!("{:.1}", n as f64 / 1000.0), "{n}");
    }
}

#[test]
fn utilisation_has_three_bands() {
    let band = |x: f32| utilisation_tone(x.to_bits());
    assert_eq!(band(0.0), "ok");
    assert_eq!(band(-0.0), "ok");
    assert_eq!(band(74.99), "ok");
    assert_eq!(band(75.0), "warn");
    assert_eq!(band(89.99), "warn");
    assert_eq!(band(90.0), "bad");
    assert_eq!(band(f32::INFINITY), "bad");
    assert_eq!(band(f32::NEG_INFINITY), "ok");
    assert_eq!(band(-95.0), "ok");
    assert_eq!(band(f32::NAN), "ok");
}

fn at(secs: i64) -> UtcTime {
    UtcTime { secs, nanos: 0 }
}

#[test]
fn past_times_are_relative() {
    let now = at(1_767_268_800);
    assert_eq!(relative_at(&now, &at(now.secs - 5)), "just now");
    assert_eq!(relative_at(&now, &at(now.secs - 240)), "4m ago");
    assert_eq!(relative_at(&now, &at(now.secs - 3 * 3600)), "3h ago");
    assert_eq!(relative_at(&now, &at(now.secs - 2 * 86_400)), "2d ago");
    assert_eq!(relative_at(&now, &at(1_757_635_200)), "12 Sep");
    assert_eq!(relative_at(&now, &at(now.secs + 5)), "in the future");
    let live = at(chrono::Utc::now().timestamp());
    assert_eq!(relative(&live), "just now");
}

#[test]
fn future_times_are_counted_in_days() {
    let now = at(1_767_268_800);
    assert_eq!(until_at(&now, &at(now.secs + 10 * 86_400 + 5)), "10 days");
    assert_eq!(until_at(&now, &at(now.secs + 86_400)), "1 day");
    assert_eq!(until_at(&now, &at(now.secs + 60)), "today");
    assert_eq!(until_at(&now, &now), "today");
    assert_eq!(until_at(&now, &at(now.secs - 1)), "expired");
    assert_eq!(until_at(&now, &at(now.secs - 3600)), "expired");
    assert_eq!(until_at(&now, &at(now.secs - 86_400)), "expired");
    let soon = at(chrono::Utc::now().timestamp() + 74 * 86_400 + 60);
    assert_eq!(until(&soon), "74 days");
}

#[test]
fn timestamps_have_minutes() {
    assert_eq!(timestamp(&at(1_767_268_800)), "2026-01-01 12:00 UTC");
}

#[test]
fn durations_have_two_units() {
    assert_eq!(duration_secs(9), "9s");
    assert_eq!(duration_secs(69), "1m 9s");
    assert_eq!(duration_secs(3_660), "1h 1m");
}
