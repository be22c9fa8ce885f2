use wpressforge::clock::UtcTime;
use wpressforge::common::error::Error;
use wpressforge::common::models::{
    BackupScope, DatabaseMode, Environment, JobKind, JobStatus, PhpVersion, ServerStatus,
    SiteStatus, SslIssuer,
};
use wpressforge::panel::auth::verify_password;
use wpressforge::panel::api;
use wpressforge::panel::config::Config;
use wpressforge::panel::db::{audit, jobs, schedules, seed, servers, sites, teams, times, tokens, users};
use wpressforge::panel::error::AppError;
use wpressforge::panel::scheduler::due_job;

fn noon() -> UtcTime {
    UtcTime { secs: 1_767_268_800, nanos: 0 }
}

#[test]
fn stored_times_are_read_in_every_form() {
    for raw in [
        "2026-01-01T12:00:00Z",
        "2026-01-01T12:00:00+00:00",
        "2026-01-01T13:00:00+01:00",
        "2026-01-01 12:00:00",
        "2026-01-01T12:00:00",
    ] {
        assert_eq!(times::read_ts(raw), Some(noon()), "{raw}");
    }
    assert_eq!(times::read_ts("soon"), None);
    assert_eq!(times::parse_ts_or("soon", &noon()), noon());
    assert_eq!(times::parse_ts_opt(None), None);
    assert_eq!(times::parse_ts_opt(Some("2026-01-01 12:00:00".into())), Some(noon()));
    assert_eq!(times::read_ts(&times::time_string(&noon())), Some(noon()));
    assert!(times::read_ts(&times::now_string()).is_some());
}

fn site_columns(id: i64, server_id: i64) -> sites::SiteColumns {
    sites::SiteColumns {
        id,
        server_id,
        domain: "example.com".into(),
        title: None,
        status: "online".into(),
        php_version: "8.3".into(),
        wp_version: Some("6.7.1".into()),
        database_mode: "dedicated".into(),
        cpu_hundredths: 200,
        memory_mb: 2048,
        php_workers: 8,
        cache_fastcgi: 1,
        cache_ttl_seconds: 600,
        cache_redis: 0,
        cache_opcache: 1,
        cache_brotli: 0,
        ssl_enabled: 1,
        ssl_issuer: "letsencrypt".into(),
        ssl_expires_at: Some("2026-01-01 12:00:00".into()),
        ssl_auto_renew: 1,
        environment: "staging".into(),
        parent_site_id: Some(3),
        uid: 10001,
        disk_usage_mb: 12,
        created_at: "2026-01-01 12:00:00".into(),
        server_name: None,
    }
}

#[test]
fn columns_become_sites() {
    let row = sites::map(site_columns(1, 2), &noon());
    assert_eq!(row.site.status, SiteStatus::Online);
    assert_eq!(row.site.php_version, PhpVersion::Php83);
    assert_eq!(row.site.database_mode, DatabaseMode::Dedicated);
    assert_eq!(row.site.environment, Environment::Staging);
    assert_eq!(row.site.ssl.issuer, SslIssuer::LetsEncrypt);
    assert_eq!(row.site.ssl.expires_at, Some(noon()));
    assert_eq!(row.site.limits.memory_mb, 2048);
    assert!(row.site.cache.fastcgi_cache);
    assert!(!row.site.cache.redis_object_cache);
    assert_eq!(row.site.uid, 10001);
}

#[test]
fn texts_stand_for_values() {
    for s in [
        SiteStatus::Provisioning,
        SiteStatus::Online,
        SiteStatus::Stopped,
        SiteStatus::Failed,
        SiteStatus::Suspended,
    ] {
        assert_eq!(sites::status(s.as_str()), s);
    }
    assert_eq!(sites::status("other"), SiteStatus::Provisioning);
    assert_eq!(sites::php("other"), PhpVersion::Php84);
    assert_eq!(sites::mode("other"), DatabaseMode::Shared);
    assert_eq!(sites::issuer("none"), SslIssuer::Absent);
    assert_eq!(sites::environment("other"), Environment::Production);
    assert_eq!(sites::scope("files"), BackupScope::FilesOnly);
    assert_eq!(servers::status("degraded"), ServerStatus::Degraded);
    assert_eq!(jobs::status("cancelled"), JobStatus::Cancelled);
    assert_eq!(sites::next_uid(None), 10001);
    assert_eq!(sites::next_uid(Some(10007)), 10008);
}

fn job_columns(site_id: Option<i64>, status: &str) -> jobs::JobColumns {
    jobs::JobColumns {
        id: 1,
        server_id: Some(2),
        site_id,
        kind: JobKind::SiteCreate.as_str().into(),
        status: status.into(),
        progress: 250,
        message: "m".into(),
        error: None,
        created_at: "2026-01-01 12:00:00".into(),
        started_at: Some("2026-01-01 12:00:00".into()),
        finished_at: Some("2026-01-01 12:01:09".into()),
        site_domain: Some("example.com".into()),
        server_name: None,
        actor: None,
    }
}

#[test]
fn columns_become_jobs() {
    let row = jobs::map(job_columns(Some(1), "running"), &noon());
    assert_eq!(row.job.kind, JobKind::SiteCreate);
    assert_eq!(row.job.status, JobStatus::Running);
    assert_eq!(row.duration_at(&noon()), "1m 9s");
    assert_eq!(jobs::final_progress(JobStatus::Succeeded), 100);
    let step = jobs::map_step(
        jobs::StepColumns {
            name: "One".into(),
            ok: 1,
            duration_ms: 1500,
            detail: None,
            created_at: "2026-01-01 12:00:00".into(),
        },
        &noon(),
    );
    assert!(step.ok);
    assert_eq!(step.duration_label(), "1.5 s");
}

#[test]
fn users_have_initials() {
    let user = |name: &str, email: &str| {
        users::map(
            users::UserColumns {
                id: 1,
                email: email.into(),
                name: name.into(),
                password_hash: "h".into(),
                role: "owner".into(),
                totp_secret: None,
                totp_confirmed_at: None,
                created_at: "2026-01-01 12:00:00".into(),
                last_login_at: None,
            },
            &noon(),
        )
    };
    assert_eq!(user("Ada Lovelace", "a@example.com").initials(), "AL");
    assert_eq!(user("Ada Lovelace", "a@example.com").display_name(), "Ada Lovelace");
    assert_eq!(user("", "ada@example.com").display_name(), "ada@example.com");
}

#[test]
fn roles_are_ordered() {
    let roles = teams::role_list();
    for (i, role) in roles.iter().enumerate() {
        for other in roles.iter().skip(i + 1) {
            assert_ne!(teams::role_level(role), teams::role_level(other));
        }
    }
    assert!(teams::can_manage("owner", "viewer"));
    assert!(!teams::can_manage("viewer", "owner"));
    assert!(teams::has_global_access("owner"));
    assert!(!teams::can_mutate("viewer"));
    assert!(teams::can_access_site("viewer", 1));
    assert!(!teams::can_access_site("viewer", 0));
    assert!(!teams::has_global_access("stranger"));
    assert_eq!(teams::invitation_expiry(&noon(), 7).secs, noon().secs + 7 * 86_400);
}

#[test]
fn scoped_users_see_their_sites_only() {
    let own = vec![sites::map(site_columns(1, 2), &noon())];
    assert!(api::may_see_server("viewer", &own, 2));
    assert!(!api::may_see_server("viewer", &own, 3));
    assert!(api::may_see_server("owner", &vec![], 3));
    assert!(api::may_see_job("viewer", &own, Some(1)));
    assert!(!api::may_see_job("viewer", &own, Some(2)));
    assert!(!api::may_see_job("viewer", &own, None));
    let rows = vec![
        jobs::map(job_columns(Some(1), "queued"), &noon()),
        jobs::map(job_columns(Some(2), "queued"), &noon()),
    ];
    let seen = api::jobs(rows, "viewer", &own);
    assert_eq!(seen.len(), 1);
    assert_eq!(seen[0].job.site_id, Some(1));
}

#[test]
fn scoped_users_get_no_foreign_counts() {
    let row = || {
        let mut row = servers::map(
            servers::ServerColumns {
                id: 2,
                name: "server-02".into(),
                agent_url: "https://node:8443".into(),
                hostname: "node".into(),
                ip_address: "203.0.113.10".into(),
                provider: None,
                region: None,
                status: "online".into(),
                agent_version: None,
                last_seen_at: None,
                created_at: "2026-01-01 12:00:00".into(),
                metrics: None,
                site_count: 40,
                agent_token: "token".into(),
                agent_fingerprint: None,
            },
            &noon(),
        );
        row.metrics.sites = 40;
        row.metrics.containers = 44;
        row.metrics.disk_total_gb = 80;
        row
    };
    let own = vec![
        sites::map(site_columns(1, 2), &noon()),
        sites::map(site_columns(5, 2), &noon()),
        sites::map(site_columns(6, 3), &noon()),
    ];
    let seen = api::servers(vec![row()], "viewer", &own);
    assert_eq!(seen.len(), 1);
    assert_eq!(seen[0].site_count, 2);
    assert_eq!((seen[0].metrics.sites, seen[0].metrics.containers), (0, 0));
    assert_eq!(seen[0].metrics.disk_total_gb, 80);
    let all = api::servers(vec![row()], "owner", &own);
    assert_eq!((all[0].site_count, all[0].metrics.sites), (40, 40));
}

#[test]
fn audit_entries_and_tokens_are_read() {
    let e = audit::map(
        audit::AuditColumns {
            id: 1,
            actor: "a".into(),
            action: "site.create".into(),
            target: "t".into(),
            detail: None,
            success: 0,
            created_at: "2026-01-01 12:00:00".into(),
        },
        &noon(),
    );
    assert!(!e.success);
    assert_eq!(e.created_at, noon());
    let t = tokens::map(
        tokens::TokenColumns {
            id: 1,
            name: "ci".into(),
            user_id: 4,
            created_at: "2026-01-01 12:00:00".into(),
            last_used_at: None,
        },
        &noon(),
    );
    assert_eq!(t.user_id, 4);
    assert_eq!(t.last_used_at, None);
}

fn schedule() -> schedules::Schedule {
    schedules::row_to_schedule(schedules::ScheduleColumns {
        id: 1,
        site_id: 7,
        destination_id: Some(4),
        scope: "full".into(),
        interval_minutes: 60,
        last_run_at: None,
        next_run_at: None,
        enabled: 1,
        keep_hourly: 24,
        keep_daily: 14,
        keep_weekly: 8,
        keep_monthly: 12,
    })
}

#[test]
fn schedules_run_once_at_a_time() {
    assert!(schedule().enabled);
    assert_eq!(schedules::next_run(&noon(), 60).secs, noon().secs + 3600);
    let e = due_job(&schedule(), false, Some(2)).expect("job");
    assert_eq!(e.site_id, 7);
    assert_eq!(e.server_id, 2);
    assert_eq!(e.scope, "full");
    assert_eq!(e.destination_id, Some(4));
    assert!(due_job(&schedule(), true, Some(2)).is_none());
    assert!(due_job(&schedule(), false, None).is_none());
}

#[test]
fn the_first_account_is_the_owners() {
    assert!(seed::bootstrap_admin(1, "a@example.com", None).expect("result").is_none());
    let a = seed::bootstrap_admin(0, "a@example.com", Some("pw"))
        .expect("result")
        .expect("account");
    assert_eq!(a.role, "owner");
    assert_eq!(a.generated, None);
    assert!(verify_password("pw", &a.password_hash));
    let a = seed::bootstrap_admin(0, "a@example.com", None).expect("result").expect("account");
    let password = a.generated.expect("password");
    assert_eq!(password.len(), 20);
    assert!(verify_password(&password, &a.password_hash));
}

#[test]
fn example_sites_are_shown() {
    assert_eq!(seed::demo_server().agent_token, "demo-token");
    let list = seed::demo_sites(5, &noon());
    let seen: Vec<(&str, Environment, bool)> = list
        .iter()
        .map(|d| (d.site.domain.as_str(), d.site.environment, d.ssl_expires.is_some()))
        .collect();
    assert_eq!(
        seen,
        vec![
            ("example.com", Environment::Production, true),
            ("blog.example.com", Environment::Production, true),
            ("staging.example.com", Environment::Staging, false),
        ]
    );
    assert_eq!(list[0].ssl_expires.map(|t| t.secs), Some(noon().secs + 74 * 86_400));
}

#[test]
fn the_panel_answers_errors_with_a_status() {
    let cases = [
        (AppError::NotFound, 404),
        (AppError::BadRequest("b".into()), 422),
        (AppError::Forbidden("f".into()), 403),
        (AppError::NoRow("r".into()), 404),
        (AppError::Database("d".into()), 500),
        (AppError::Template("t".into()), 500),
        (AppError::Other("o".into()), 500),
    ];
    for (error, status) in cases {
        assert_eq!(error.status(), status, "{}", error.message());
        assert_eq!(error.is_server_error(), status >= 500);
    }
    assert_eq!(AppError::Agent(Error::Unreachable("x".into())).status(), 502);
}

#[test]
fn the_panel_has_defaults() {
    let c = Config::default();
    assert!(c.worker_count() >= 1);
    assert_eq!(c.mail_host(), None);
    let mut c = Config::default();
    c.workers = 0;
    assert_eq!(c.worker_count(), 1);
    c.smtp_host = Some(String::new());
    assert_eq!(c.mail_host(), None);
    c.smtp_host = Some("mail".into());
    assert_eq!(c.mail_host().as_deref(), Some("mail"));
}
