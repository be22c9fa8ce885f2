use wpressforge::clock::UtcTime;
use wpressforge::common::models::{
    container_name, identifier, Backup, BackupScope, CacheSettings, CronMode, DatabaseMode, Domain,
    Environment, Job, JobKind, JobStatus, PhpVersion, ResourceLimits, RetentionPolicy, Server,
    ServerMetrics, ServerStatus, Site, SiteStatus, SslIssuer, SslState, WpItemAction,
};
use wpressforge::common::protocol::{
    LogStream, Operation, OperationData, OperationEnvelope, OperationResult, StepReport,
    PROTOCOL_VERSION,
};
use wpressforge::panel::db::seed;

fn at(secs: i64) -> UtcTime {
    UtcTime { secs, nanos: 0 }
}

fn noon() -> UtcTime {
    at(1_767_268_800)
}

fn site() -> Site {
    Site {
        id: 1,
        server_id: 1,
        domain: "my-site.example.com".into(),
        title: None,
        status: SiteStatus::Online,
        php_version: PhpVersion::Php84,
        wp_version: None,
        database_mode: DatabaseMode::Shared,
        limits: ResourceLimits { cpu_hundredths: 150, memory_mb: 2048, php_workers: 8 },
        cache: CacheSettings::default(),
        ssl: SslState::default(),
        environment: Environment::Production,
        parent_site_id: None,
        uid: 10001,
        disk_usage_mb: 1536,
        created_at: noon(),
    }
}

fn job(status: JobStatus, progress: u8) -> Job {
    Job {
        id: 1,
        server_id: None,
        site_id: None,
        kind: JobKind::SiteCreate,
        status,
        progress,
        message: String::new(),
        error: None,
        created_at: noon(),
        started_at: None,
        finished_at: None,
    }
}

#[test]
fn sites_show_what_they_are() {
    let mut s = site();
    assert_eq!(s.display_title(), "my-site.example.com");
    s.title = Some("Shop".into());
    assert_eq!(s.display_title(), "Shop");
    assert_eq!(s.root_path(), "/var/www/my-site.example.com");
    assert_eq!(s.container_name(), "wp-my-site-example-com");
    assert_eq!(s.db_name(), "wp_my_site_example_com");
    assert_eq!(s.memory_label(), "2 GB");
    assert_eq!(s.disk_label(), "1.5 GB");
    assert_eq!(s.wp_label(), "not installed");
    assert!(s.is_running());
    assert!(!s.is_staging());
    s.environment = Environment::Staging;
    assert!(s.is_staging());
    s.status = SiteStatus::Stopped;
    assert!(!s.is_running());
    assert_eq!(container_name("a.b"), "wp-a-b");
    assert_eq!(identifier("a-b.c"), "wp_a_b_c");
}

#[test]
fn certificates_are_watched() {
    let mut s = site();
    s.ssl.enabled = true;
    s.ssl.expires_at = Some(at(noon().secs + 30 * 86_400));
    assert_eq!(s.ssl_tone_at(&noon()), "ok");
    s.ssl.expires_at = Some(at(noon().secs + 5 * 86_400));
    assert_eq!(s.ssl_tone_at(&noon()), "warn");
    assert!(s.ssl_label_at(&noon()).contains("5 days"));
    s.ssl.expires_at = Some(at(noon().secs - 5 * 86_400));
    assert_eq!(s.ssl_tone_at(&noon()), "bad");
    s.ssl.expires_at = None;
    assert_eq!(s.ssl_tone_at(&noon()), "ok");
    assert!(s.url().starts_with("https://"));
    s.ssl.enabled = false;
    assert!(s.url().starts_with("http://"));
}

#[test]
fn a_job_is_active_until_it_has_ended() {
    for (status, ended) in [
        (JobStatus::Queued, false),
        (JobStatus::Running, false),
        (JobStatus::Succeeded, true),
        (JobStatus::Failed, true),
        (JobStatus::Cancelled, true),
    ] {
        let j = job(status, 40);
        assert_eq!(j.is_terminal(), ended);
        assert_eq!(j.is_active(), !ended);
    }
    assert_eq!(job(JobStatus::Succeeded, 40).progress_percent(), 100);
    assert_eq!(job(JobStatus::Running, 40).progress_percent(), 40);
    assert_eq!(job(JobStatus::Running, 0).finished_label(), "—");
}

#[test]
fn names_are_read_back() {
    for v in PhpVersion::all() {
        assert_eq!(PhpVersion::parse(v.as_str()), Some(v));
        assert!(v.image().contains(v.as_str()), "{}", v.image());
    }
    assert_eq!(PhpVersion::parse("7.4"), None);
    for kind in [JobKind::SiteCreate, JobKind::ImportRun, JobKind::CronModeSet] {
        assert_eq!(JobKind::parse(kind.as_str()), Some(kind));
        assert!(!kind.label().is_empty());
    }
    assert_eq!(JobKind::parse("nothing"), None);
    assert_eq!(ServerStatus::Online.as_str(), "online");
    assert_eq!(ServerStatus::Offline.tone(), "bad");
    assert_eq!(SiteStatus::Failed.tone(), "bad");
    assert_eq!(SslIssuer::Absent.as_str(), "none");
    assert_eq!(BackupScope::DatabaseOnly.as_str(), "database");
    assert_eq!(WpItemAction::Activate.as_str(), "activate");
    assert_eq!(CronMode::SystemCron.as_str(), "system_cron");
    assert_eq!(LogStream::NginxError.as_str(), "nginx-error");
}

#[test]
fn servers_show_where_they_are() {
    let mut server = Server {
        id: 1,
        name: "server-01".into(),
        agent_url: "https://node:8443".into(),
        hostname: "node".into(),
        ip_address: "203.0.113.10".into(),
        provider: Some("Hetzner".into()),
        region: Some("fsn1".into()),
        status: ServerStatus::Online,
        agent_version: None,
        last_seen_at: None,
        created_at: noon(),
    };
    assert!(server.location_label().contains("Hetzner"));
    assert!(server.location_label().contains("fsn1"));
    server.provider = None;
    server.region = None;
    assert_eq!(server.location_label(), "—");
    assert_eq!(server.last_seen_label(), "never");
    let m = ServerMetrics::default();
    assert!(!m.has_data());
    let m = seed::demo_metrics();
    assert!(m.has_data());
    assert_eq!(m.memory_total_label(), "16 GB");
    assert_eq!(m.disk_total_label(), "320 GB");
    assert_eq!(m.cpu_tone(), "ok");
    assert_eq!(m.disk_tone(), "ok");
    assert_eq!(f32::from_bits(m.cpu_percent_bits), 32.0);
    assert_eq!(f32::from_bits(m.memory_percent_bits), 41.0);
    assert_eq!(f32::from_bits(m.disk_percent_bits), 58.0);
    assert_eq!(f32::from_bits(m.load_1m_bits), 0.84);
}

#[test]
fn backups_and_domains_have_labels() {
    let b = Backup {
        id: 1,
        site_id: 1,
        snapshot_id: "a1b2c3d4".into(),
        size_bytes: 1_236_000_000,
        scope: BackupScope::Full,
        destination: "s3".into(),
        created_at: noon(),
    };
    assert_eq!(b.size_label(), "1.2 GB");
    assert_eq!(b.timestamp_label(), "2026-01-01 12:00 UTC");
    assert!(!b.scope_label().is_empty());
    let d = Domain {
        id: 1,
        site_id: 1,
        name: "example.com".into(),
        primary: true,
        redirect_to_primary: false,
        dns_ok: false,
    };
    assert_eq!(d.dns_tone(), "warn");
    assert_eq!(d.dns_label(), "not verified");
}

#[test]
fn limits_have_defaults() {
    let l = ResourceLimits::default();
    assert_eq!((l.cpu_hundredths, l.memory_mb, l.php_workers), (100, 1024, 8));
    assert_eq!(l.cpus_text(), "1.00");
    let r = RetentionPolicy::default();
    assert_eq!((r.hourly, r.daily, r.weekly, r.monthly), (24, 14, 8, 12));
}

#[test]
fn envelopes_carry_their_operation() {
    let e = OperationEnvelope::new(Operation::Ping).with_job(7);
    assert_eq!(e.protocol_version, PROTOCOL_VERSION);
    assert_eq!(e.job_id, Some(7));
    assert_eq!(e.request_id.len(), 36);
    assert_ne!(e.request_id, OperationEnvelope::new(Operation::Ping).request_id);
    assert_eq!(e.operation.name(), "ping");
    let r = OperationResult::ok(OperationData::Empty).with_steps(vec![StepReport::ok("One", 3)]);
    assert!(r.success);
    assert_eq!(r.steps[0].name, "One");
    assert!(r.steps[0].ok);
}

#[test]
fn labels_say_what_a_site_has() {
    let mut s = site();
    assert_eq!(s.cpu_label(), "1.50 vCPU");
    s.limits.cpu_hundredths = 200;
    assert_eq!(s.cpu_label(), "2 vCPU");
    s.cache.fastcgi_cache = true;
    assert_eq!(s.cache_label(), "FastCGI on");
    s.cache.fastcgi_cache = false;
    assert_eq!(s.cache_label(), "off");
    s.cache.ttl_seconds = 3_600;
    assert_eq!(s.cache_ttl_label(), "1h 0m");
    s.ssl.enabled = false;
    assert_eq!(s.ssl_label(), "not issued");
    assert_eq!(s.ssl_tone(), "muted");
    s.ssl.enabled = true;
    s.ssl.expires_at = None;
    assert_eq!(s.ssl_label(), "valid");
    assert_eq!(s.ssl_tone(), "ok");
    s.ssl.expires_at = Some(at(noon().secs + 86_400));
    assert_eq!(s.ssl_label_at(&noon()), "valid, 1 day left");
}

#[test]
fn utilisation_has_a_colour() {
    let mut m = ServerMetrics::default();
    m.memory_percent_bits = 10.0f32.to_bits();
    assert_eq!(m.memory_tone(), "ok");
    m.memory_percent_bits = 99.0f32.to_bits();
    assert_eq!(m.memory_tone(), "bad");
}
