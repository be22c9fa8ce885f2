use wpressforge::clock::UtcTime;
use wpressforge::common::error::Error;
use wpressforge::common::models::{
    BackupScope, CronMode, DatabaseMode, JobKind, PhpVersion, ServerMetrics, ServerStatus,
    SiteMetricSample, SiteStatus, WpItemAction,
};
use wpressforge::common::protocol::{
    ImportSource, Operation, OperationData, OperationResult, ResticTarget, SshAuth, StepReport,
};
use wpressforge::panel::db::servers::{self, ServerColumns, ServerRow};
use wpressforge::panel::jobs::{
    apply_effects, build_operation, conclude, failed_site, goes_to_agent, heartbeat, is_demo,
    needs_destination, needs_source, operation_for, plan, read_fields, sample_query, samples_in,
    simulate, simulated_snapshot, step_progress, Effect, JobEnd, Models, SourceSite, TargetLookup,
    SIMULATED_SIZE,
};

fn noon() -> UtcTime {
    UtcTime { secs: 1_767_268_800, nanos: 0 }
}

fn server(token: &str) -> ServerRow {
    servers::map(
        ServerColumns {
            id: 1,
            name: "server-01".into(),
            agent_url: "https://node:8443".into(),
            hostname: "node".into(),
            ip_address: "203.0.113.10".into(),
            provider: None,
            region: None,
            status: "online".into(),
            agent_version: None,
            last_seen_at: None,
            created_at: "2026-01-01 12:00:00".into(),
            metrics: None,
            site_count: 0,
            agent_token: token.into(),
            agent_fingerprint: Some("sha256:AB".into()),
        },
        &noon(),
    )
}

fn no_models() -> Models {
    Models {
        database_mode: None,
        limits: None,
        cache: None,
        scope: None,
        action: None,
        mode: None,
        source: None,
        install: None,
    }
}

fn operation(kind: JobKind, payload: &str) -> Option<Operation> {
    build_operation(
        kind,
        Some(7),
        Some("example.com".into()),
        payload,
        no_models(),
        TargetLookup::Unnamed,
        None,
    )
}

#[test]
fn every_kind_of_job_has_a_plan() {
    assert_eq!(plan(JobKind::SiteCreate).len(), 9);
    assert_eq!(plan(JobKind::SiteCreate)[0], "Allocate system user");
    assert_eq!(plan(JobKind::ImportRun).len(), 13);
    assert_eq!(plan(JobKind::ImportRun)[12], "Health check");
    assert_eq!(plan(JobKind::CronRun), vec!["Run due events"]);
    let last = plan(JobKind::PhpSwitch);
    assert_eq!(last.last().map(String::as_str), Some("Remove old container"));
}

#[test]
fn progress_never_falls_and_never_reaches_the_end() {
    let steps = simulate(JobKind::SiteCreate);
    let shown: Vec<u8> = steps.iter().map(|s| s.progress).collect();
    assert_eq!(shown, vec![0, 11, 22, 33, 44, 55, 66, 77, 88]);
    assert_eq!(steps[8].name, "Health check");
    assert_eq!(step_progress(1, 3), 33);
}

#[test]
fn example_servers_have_no_agent() {
    assert!(is_demo(&server("demo-token")));
    assert!(!is_demo(&server("other")));
    assert!(goes_to_agent(&Some(server("other")), true));
    assert!(!goes_to_agent(&Some(server("other")), false));
    assert!(!goes_to_agent(&Some(server("demo-token")), true));
    assert!(!goes_to_agent(&None, true));
    let c = server("other").connection();
    assert_eq!(c.url, "https://node:8443");
    assert_eq!(c.token, "other");
    assert_eq!(c.fingerprint.as_deref(), Some("sha256:AB"));
}

#[test]
fn a_heartbeat_tells_the_status() {
    let with = |data| heartbeat(Ok(OperationResult::ok(data)));
    let mut metrics = ServerMetrics::default();
    metrics.sites = 3;
    let online = with(OperationData::Metrics(metrics));
    assert_eq!(online.status, ServerStatus::Online);
    assert_eq!(online.metrics.expect("metrics").sites, 3);
    let degraded = with(OperationData::Empty);
    assert_eq!(degraded.status, ServerStatus::Degraded);
    assert!(degraded.metrics.is_none());
    let offline = heartbeat(Err(Error::Unauthorized));
    assert_eq!(offline.status, ServerStatus::Offline);
    assert!(offline.metrics.is_none());
}

#[test]
fn sites_of_online_servers_are_sampled() {
    match sample_query(ServerStatus::Online, vec![4, 9]) {
        Some(Operation::GetSiteMetrics { site_ids }) => assert_eq!(site_ids, vec![4, 9]),
        _ => panic!("a question is asked"),
    }
    assert!(sample_query(ServerStatus::Online, vec![]).is_none());
    assert!(sample_query(ServerStatus::Degraded, vec![4]).is_none());
    let sample = SiteMetricSample {
        site_id: 4,
        cpu_percent_bits: 1.5f32.to_bits(),
        memory_mb: 128,
        php_busy_workers: 2,
        cache_hit_ratio_bits: None,
    };
    let data = OperationData::SiteMetrics { samples: vec![sample] };
    assert_eq!(samples_in(data), vec![sample]);
    assert!(samples_in(OperationData::Empty).is_empty());
}

#[test]
fn a_job_ends_with_what_the_agent_said() {
    let good = OperationResult::ok(OperationData::Empty).with_steps(vec![StepReport::ok("One", 1)]);
    match conclude(Some(Ok(good)), true) {
        JobEnd::Succeed { steps, data } => {
            assert_eq!(steps.len(), 1);
            assert!(matches!(data, OperationData::Empty));
        }
        other => panic!("unexpected end: {other:?}"),
    }
    match conclude(Some(Ok(OperationResult::err(Error::NotFound("site".into())))), true) {
        JobEnd::Fail { error } => assert_eq!(error, "not found: site"),
        other => panic!("unexpected end: {other:?}"),
    }
    let mut silent = OperationResult::err(Error::Unauthorized);
    silent.error = None;
    match conclude(Some(Ok(silent)), true) {
        JobEnd::Fail { error } => assert_eq!(error, "internal error: agent reported failure"),
        other => panic!("unexpected end: {other:?}"),
    }
}

#[test]
fn only_demo_panels_walk_through_what_they_cannot_send() {
    let gone = || Some(Err(Error::Unreachable("x".into())));
    assert!(matches!(conclude(gone(), true), JobEnd::Simulate));
    assert!(matches!(conclude(gone(), false), JobEnd::Fail { .. }));
    assert!(matches!(conclude(Some(Err(Error::Unauthorized)), true), JobEnd::Fail { .. }));
    assert!(matches!(conclude(None, false), JobEnd::Simulate));
}

#[test]
fn payloads_are_read_member_by_member() {
    let f = read_fields(
        "{\"php_version\":\"8.3\",\"request_ssl\":false,\"domains\":[\"a\",1,\"b\"],\
         \"destination_id\":4,\"slug\":7}",
    );
    assert_eq!(f.php_version.as_deref(), Some("8.3"));
    assert_eq!(f.request_ssl, Some(false));
    assert_eq!(f.domains, Some(vec!["a".to_string(), "b".to_string()]));
    assert_eq!(f.destination_id, Some(4));
    assert_eq!(f.slug, None);
    assert_eq!(needs_destination(JobKind::BackupCreate, &f), Some(4));
    assert_eq!(needs_destination(JobKind::SiteStop, &f), None);
    assert_eq!(needs_source(9, &f), 9);
    assert_eq!(read_fields("null").php_version, None);
}

#[test]
fn jobs_become_operations() {
    match operation(JobKind::SiteCreate, "{\"php_version\":\"8.3\",\"install_wordpress\":false}") {
        Some(Operation::CreateSite(c)) => {
            assert_eq!(c.site_id, 7);
            assert_eq!(c.domain, "example.com");
            assert_eq!(c.php_version, PhpVersion::Php83);
            assert_eq!(c.database_mode, DatabaseMode::Shared);
            assert!(!c.install_wordpress);
            assert!(c.request_ssl);
        }
        other => panic!("unexpected operation: {other:?}"),
    }
    assert!(matches!(
        operation(JobKind::SiteDelete, "{}"),
        Some(Operation::DeleteSite { site_id: 7, keep_backups: true })
    ));
    assert!(matches!(
        operation(JobKind::PhpSwitch, "{\"php_version\":\"nothing\"}"),
        Some(Operation::SwitchPhp { site_id: 7, version: PhpVersion::Php84 })
    ));
    assert!(matches!(
        operation(JobKind::SslIssue, "{}"),
        Some(Operation::IssueCertificate { domains, .. }) if domains == vec!["example.com".to_string()]
    ));
    assert!(matches!(
        operation(JobKind::WpUserPasswordReset, "{}"),
        Some(Operation::ResetWpPassword { user_login, .. }) if user_login == "admin"
    ));
    assert!(matches!(
        operation(JobKind::PluginAction, "{\"slug\":\"akismet\"}"),
        Some(Operation::PluginAction { slug, action: WpItemAction::Activate, .. })
            if slug == "akismet"
    ));
    assert!(matches!(
        operation(JobKind::CronModeSet, "{}"),
        Some(Operation::SetWpCron { mode: CronMode::WpCron, .. })
    ));
    match operation(JobKind::WordpressInstall, "{}") {
        Some(Operation::InstallWordpress(w)) => {
            assert_eq!(w.site_title, "WordPress");
            assert_eq!(w.locale, "en_US");
        }
        other => panic!("unexpected operation: {other:?}"),
    }
    assert!(operation(JobKind::ImportRun, "{}").is_none());
    let nowhere = build_operation(
        JobKind::SiteStart,
        None,
        None,
        "{}",
        no_models(),
        TargetLookup::Unnamed,
        None,
    );
    assert!(nowhere.is_none());
}

#[test]
fn backups_go_to_the_destination_that_was_named() {
    let with = |target| {
        operation_for(
            JobKind::BackupCreate,
            Some(7),
            None,
            read_fields("{}"),
            no_models(),
            target,
            None,
        )
    };
    let found = ResticTarget { repo: "s3:b".into(), password: "p".into(), env: vec![] };
    assert!(matches!(
        with(TargetLookup::Found(found)),
        Some(Operation::CreateBackup { scope: BackupScope::Full, target, .. })
            if target.repo == "s3:b"
    ));
    assert!(matches!(
        with(TargetLookup::Unnamed),
        Some(Operation::CreateBackup { target, .. }) if target.repo.is_empty()
    ));
    assert!(with(TargetLookup::Missing).is_none());
}

#[test]
fn copies_know_their_source() {
    let with = |kind| {
        operation_for(
            kind,
            Some(7),
            None,
            read_fields("{\"target_site_id\":8,\"target_domain\":\"staging.example.com\"}"),
            no_models(),
            TargetLookup::Unnamed,
            Some(SourceSite { domain: "example.com".into(), php_version: PhpVersion::Php82 }),
        )
    };
    for (kind, staging) in [
        (JobKind::SiteClone, false),
        (JobKind::StagingCreate, true),
        (JobKind::StagingPush, true),
    ] {
        match with(kind) {
            Some(Operation::CloneSite(c)) => {
                assert_eq!(c.source_site_id, 7);
                assert_eq!(c.target_site_id, 8);
                assert_eq!(c.source_domain, "example.com");
                assert_eq!(c.target_domain, "staging.example.com");
                assert_eq!(c.php_version, PhpVersion::Php82);
                assert_eq!(c.staging, staging);
                assert!(c.search_replace);
            }
            other => panic!("unexpected operation: {other:?}"),
        }
    }
}

#[test]
fn an_import_takes_its_source() {
    let mut m = no_models();
    m.source = Some(ImportSource {
        host: "remote".into(),
        port: 22,
        user: "root".into(),
        auth: SshAuth::Password("p".into()),
        remote_path: "/var/www/html".into(),
        db: None,
    });
    let made = operation_for(
        JobKind::ImportRun,
        Some(7),
        Some("example.com".into()),
        read_fields("{\"resync\":true}"),
        m,
        TargetLookup::Unnamed,
        None,
    );
    match made {
        Some(Operation::ImportSite(i)) => {
            assert_eq!(i.domain, "example.com");
            assert!(i.resync);
            assert_eq!(i.source.host, "remote");
        }
        other => panic!("unexpected operation: {other:?}"),
    }
}

fn effects(kind: JobKind, payload: &str, data: Option<OperationData>) -> Vec<String> {
    apply_effects(kind, Some(7), &read_fields(payload), &data, &noon(), "abcd1234".into())
        .into_iter()
        .map(|e| match e {
            Effect::SetStatus(s) => format!("status {}", s.as_str()),
            Effect::SetWpVersion(v) => format!("wordpress {v}"),
            Effect::SetSsl { expires } => format!("ssl {}", expires.secs - noon().secs),
            Effect::Delete => "delete".to_string(),
            Effect::SetPhp(v) => format!("php {}", v.as_str()),
            Effect::RecordBackup { snapshot_id, size_bytes } => {
                format!("backup {snapshot_id} {size_bytes}")
            }
        })
        .collect()
}

#[test]
fn jobs_that_succeed_change_the_panel() {
    assert_eq!(effects(JobKind::SiteCreate, "{}", None), vec!["status online", "wordpress 6.7.1"]);
    assert_eq!(
        effects(JobKind::SiteCreate, "{\"request_ssl\":true}", None),
        vec!["status online", "wordpress 6.7.1", "ssl 7776000"]
    );
    assert_eq!(effects(JobKind::SiteStop, "{}", None), vec!["status stopped"]);
    assert_eq!(effects(JobKind::SiteDelete, "{}", None), vec!["delete"]);
    assert_eq!(
        effects(JobKind::PhpSwitch, "{\"php_version\":\"8.2\"}", None),
        vec!["php 8.2"]
    );
    assert!(effects(JobKind::PhpSwitch, "{}", None).is_empty());
    let issued = OperationData::Certificate {
        domains: vec![],
        expires_at: UtcTime { secs: noon().secs + 5, nanos: 0 },
    };
    assert_eq!(effects(JobKind::SslRenew, "{}", Some(issued)), vec!["ssl 5"]);
    assert_eq!(effects(JobKind::SslIssue, "{}", None), vec!["ssl 7776000"]);
    assert_eq!(
        effects(JobKind::BackupCreate, "{}", None),
        vec![format!("backup abcd1234 {SIMULATED_SIZE}")]
    );
    let made = OperationData::Backup {
        snapshot_id: "deadbeef".into(),
        size_bytes: 42,
        files_bytes: 30,
        db_bytes: 12,
    };
    assert_eq!(effects(JobKind::BackupCreate, "{}", Some(made)), vec!["backup deadbeef 42"]);
    assert!(effects(JobKind::CacheClear, "{}", None).is_empty());
    assert_eq!(SiteStatus::Stopped.as_str(), "stopped");
}

#[test]
fn only_a_failed_creation_marks_its_site() {
    assert_eq!(failed_site(JobKind::SiteCreate, Some(7)), Some(7));
    assert_eq!(failed_site(JobKind::SiteStop, Some(7)), None);
    assert_eq!(failed_site(JobKind::SiteCreate, None), None);
    let id = simulated_snapshot();
    assert_eq!(id.len(), 8);
    assert_eq!(id, id.to_lowercase());
}
