use wpressforge::clock::UtcTime;
use wpressforge::common::models::{ServerStatus, SiteStatus};
use wpressforge::panel::alerts::{
    check_backup, check_disk, check_offline, check_ssl, evaluate, raises, severity_for,
    AlertAction, BackupReading, DiskReading,
};
use wpressforge::panel::db::servers::{self, ServerColumns};
use wpressforge::panel::db::sites::{self, SiteColumns};

fn noon() -> UtcTime {
    UtcTime { secs: 1_767_268_800, nanos: 0 }
}

fn raised(a: &AlertAction) -> Option<(&str, &str)> {
    match a {
        AlertAction::Raise { rule, message, .. } => Some((rule, message)),
        AlertAction::Resolve { .. } => None,
    }
}

#[test]
fn full_disks_are_reported() {
    let check = |x: f32, status| check_disk("server-01", status, x.to_bits(), &format!("{x:.0}"));
    let high = check(86.0, ServerStatus::Online).expect("action");
    let (rule, message) = raised(&high).expect("raised");
    assert_eq!(rule, "disk.high");
    assert!(message.contains("server-01") && message.contains("86"), "{message}");
    assert!(raised(&check(85.0, ServerStatus::Online).expect("action")).is_none());
    assert!(raised(&check(f32::NAN, ServerStatus::Online).expect("action")).is_none());
    assert!(check(99.0, ServerStatus::Offline).is_none());
}

#[test]
fn certificates_are_reported_before_they_expire() {
    let after = |days: i64| {
        Some(UtcTime { secs: noon().secs + days * 86_400, nanos: 0 })
    };
    let soon = check_ssl("a.example", &after(3), &noon()).expect("action");
    assert_eq!(raised(&soon).expect("raised").0, "ssl.expiring");
    let later = check_ssl("a.example", &after(60), &noon()).expect("action");
    assert!(raised(&later).is_none());
    assert!(check_ssl("a.example", &None, &noon()).is_none());
}

#[test]
fn sites_that_have_failed_are_reported() {
    assert_eq!(
        raised(&check_offline("a.example", SiteStatus::Failed)).expect("raised").0,
        "site.offline"
    );
    assert!(raised(&check_offline("a.example", SiteStatus::Online)).is_none());
}

#[test]
fn stale_backups_are_reported() {
    let stale = check_backup("a.example", &Some("2025-12-01 00:00:00".into()), &noon());
    assert_eq!(raised(&stale).expect("raised").0, "backup.stale");
    let fresh = check_backup("a.example", &Some("2026-01-01 11:00:00".into()), &noon());
    assert!(raised(&fresh).is_none());
    assert_eq!(
        raised(&check_backup("a.example", &None, &noon())).expect("raised").0,
        "backup.stale"
    );
}

#[test]
fn one_notification_is_open_at_a_time() {
    assert!(raises(false));
    assert!(!raises(true));
    assert_eq!(severity_for("disk.high"), "critical");
    assert_eq!(severity_for("ssl.expiring"), "warning");
    assert_eq!(severity_for("site.offline"), "critical");
    assert_eq!(severity_for("backup.stale"), "warning");
    assert_eq!(severity_for("other"), "info");
}

fn reading(name: &str, status: &str, share: f32) -> DiskReading {
    let mut server = servers::map(
        ServerColumns {
            id: 1,
            name: name.into(),
            agent_url: "https://node:8443".into(),
            hostname: "node".into(),
            ip_address: "203.0.113.10".into(),
            provider: None,
            region: None,
            status: status.into(),
            agent_version: None,
            last_seen_at: None,
            created_at: "2026-01-01 12:00:00".into(),
            metrics: None,
            site_count: 0,
            agent_token: "token".into(),
            agent_fingerprint: None,
        },
        &noon(),
    );
    server.metrics.disk_percent_bits = share.to_bits();
    DiskReading { server, shown: format!("{share:.0}") }
}

fn site(domain: &str, status: &str, expires: Option<&str>) -> sites::SiteRow {
    sites::map(
        SiteColumns {
            id: 1,
            server_id: 1,
            domain: domain.into(),
            title: None,
            status: status.into(),
            php_version: "8.3".into(),
            wp_version: None,
            database_mode: "shared".into(),
            cpu_hundredths: 100,
            memory_mb: 512,
            php_workers: 4,
            cache_fastcgi: 0,
            cache_ttl_seconds: 0,
            cache_redis: 0,
            cache_opcache: 0,
            cache_brotli: 0,
            ssl_enabled: 1,
            ssl_issuer: "letsencrypt".into(),
            ssl_expires_at: expires.map(str::to_owned),
            ssl_auto_renew: 1,
            environment: "production".into(),
            parent_site_id: None,
            uid: 2000,
            disk_usage_mb: 0,
            created_at: "2026-01-01 12:00:00".into(),
            server_name: None,
        },
        &noon(),
    )
}

fn line(a: &AlertAction) -> String {
    match a {
        AlertAction::Raise { rule, target, .. } => format!("raise {rule} {target}"),
        AlertAction::Resolve { rule, target } => format!("resolve {rule} {target}"),
    }
}

#[test]
fn a_pass_applies_every_rule_in_turn() {
    let readings =
        vec![reading("full", "online", 91.0), reading("gone", "offline", 99.0), reading("ok", "online", 10.0)];
    let sites = vec![
        site("a.example", "failed", Some("2026-01-04 12:00:00")),
        site("b.example", "online", None),
    ];
    let backups = vec![
        BackupReading { domain: "a.example".into(), last_backup: None },
        BackupReading {
            domain: "b.example".into(),
            last_backup: Some("2026-01-01 11:00:00".into()),
        },
    ];
    let lines: Vec<String> =
        evaluate(&readings, &sites, &backups, &noon()).iter().map(line).collect();
    assert_eq!(
        lines,
        vec![
            "raise disk.high full",
            "resolve disk.high ok",
            "raise ssl.expiring a.example",
            "raise site.offline a.example",
            "resolve site.offline b.example",
            "raise backup.stale a.example",
            "resolve backup.stale b.example",
        ]
    );
}
