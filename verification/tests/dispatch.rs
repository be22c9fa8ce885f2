use wpressforge::agent::capabilities::NginxCapabilities;
use wpressforge::agent::config::Config;
use wpressforge::agent::exec::CommandOutput;
use wpressforge::agent::ops::backup::ResticSnapshot;
use wpressforge::agent::ops::dispatch::{
    conclude, decoded, dispatch, needs_uid, Begun, Conclusion, Decode, Decoded,
};
use wpressforge::agent::ops::flow::{Fresh, StoreChange};
use wpressforge::agent::ops::webserver::WebServer;
use wpressforge::agent::plan::{Action, HostOutcome, Next};
use wpressforge::agent::state::AgentState;
use wpressforge::agent::store::{SiteRecord, Store};
use wpressforge::clock::UtcTime;
use wpressforge::common::error::Error;
use wpressforge::common::models::{
    BackupScope, CacheSettings, CronMode, DatabaseMode, PhpVersion, PluginInfo, ResourceLimits,
    RetentionPolicy, SiteStatus, WpItemAction,
};
use wpressforge::common::protocol::{
    CloneSite, CreateSite, ImportRequest, ImportSource, LogStream, Operation, OperationData,
    OperationResult, RemoteDb, ResticTarget, SshAuth,
    PROTOCOL_VERSION,
};

fn config(dry_run: bool) -> Config {
    Config { dry_run, ..Default::default() }
}

fn record() -> SiteRecord {
    SiteRecord {
        site_id: 1,
        domain: "example.com".into(),
        uid: 10001,
        php_version: PhpVersion::Php84,
        database_mode: DatabaseMode::Shared,
        limits: ResourceLimits::default(),
        cache: CacheSettings::default(),
        status: SiteStatus::Online,
        container_id: Some("abc".into()),
        db_name: "wp_example_com".into(),
        domains: vec!["example.com".into()],
    }
}

fn state(dry_run: bool, sites: Vec<SiteRecord>) -> AgentState {
    let mut store = Store::new();
    for site in sites {
        store.put(site);
    }
    let web = WebServer::detect(config(dry_run), NginxCapabilities::conservative());
    AgentState::new(config(dry_run), store, web)
}

fn now() -> UtcTime {
    UtcTime { secs: 1_767_268_800, nanos: 0 }
}

fn shown(action: &Action) -> String {
    match action {
        Action::Run(line) => format!("{} {}", line.program, line.args.join(" ")),
        Action::MakeDir(path) => format!("mkdir {path}"),
        Action::WriteFile { path, .. } => format!("write {path}"),
        Action::Restrict(path) => format!("restrict {path}"),
        Action::ReadFile(path) => format!("read {path}"),
        Action::RemoveFile(path) => format!("remove {path}"),
        Action::Nothing => "nothing".to_string(),
        Action::Refuse(e) => format!("refuse {}", e.message()),
    }
}

/// What an operation comes to on a host, with what was asked of the host.
struct Outcome {
    result: OperationResult,
    change: StoreChange,
    asked: Vec<String>,
    decode: Option<Decode>,
}

/// The reply of a host that succeeds with a text, or fails with one.
fn reply(action: &Action, answer: Result<String, String>) -> Result<CommandOutput, Error> {
    match action {
        Action::Run(line) => {
            let success = answer.is_ok();
            let (stdout, stderr) = match answer {
                Ok(text) => (text, String::new()),
                Err(text) => (String::new(), text),
            };
            line.outcome(HostOutcome::Ended {
                stdout,
                stderr,
                code: Some(if success { 0 } else { 1 }),
                success,
            })
        }
        other => match answer {
            Ok(stdout) => Ok(CommandOutput { stdout, ..Default::default() }),
            Err(reason) => Err(other.failure(&reason)),
        },
    }
}

/// Runs an operation on a host that gives the same kind of reply to everything but
/// what `host` answers.
fn run(
    state: &AgentState,
    operation: Operation,
    host: &dyn Fn(&Action) -> Option<Result<String, String>>,
) -> Outcome {
    let fresh = Fresh::draw("/tmp".to_string());
    let mut asked = Vec::new();
    let mut run = match dispatch(state, operation, &fresh) {
        Begun::Answer(result) => {
            return Outcome { result, change: StoreChange::Keep, asked, decode: None }
        }
        Begun::Run(run) => run,
        _ => panic!("metrics are collected elsewhere"),
    };
    loop {
        while !matches!(run.runner.next(), Next::Done) {
            let reply = match run.runner.next() {
                Next::Act(action) => match action.without_host(state.config.dry_run) {
                    Some(reply) => reply,
                    None => {
                        asked.push(shown(action));
                        reply(action, host(action).unwrap_or(Ok(String::new())))
                    }
                },
                _ => Ok(CommandOutput::default()),
            };
            run.runner.advance(reply, 7);
        }
        match conclude(state, run, &now()) {
            Conclusion::Answer { result, change } => {
                return Outcome { result, change, asked, decode: None }
            }
            Conclusion::Continue(next) => run = next,
            Conclusion::Decode { what, text, steps } => {
                let result = OperationResult::ok(OperationData::CommandOutput {
                    stdout: text,
                    stderr: String::new(),
                    exit_code: 0,
                })
                .with_steps(steps);
                return Outcome {
                    result,
                    change: StoreChange::Keep,
                    asked,
                    decode: Some(what),
                };
            }
        }
    }
}

/// A host on which containers run.
fn healthy(action: &Action) -> Option<Result<String, String>> {
    match action {
        Action::Run(line) if line.args.first().map(String::as_str) == Some("inspect") => {
            Some(Ok("true\n".to_string()))
        }
        Action::Run(line) if line.args.iter().any(|arg| arg.contains("php-fpm.sock")) => {
            Some(Ok("true".to_string()))
        }
        _ => None,
    }
}

fn create() -> Operation {
    Operation::CreateSite(CreateSite {
        site_id: 2,
        domain: "new.example.com".into(),
        php_version: PhpVersion::Php83,
        database_mode: DatabaseMode::Shared,
        limits: ResourceLimits::default(),
        cache: CacheSettings::default(),
        install_wordpress: false,
        request_ssl: false,
        wordpress: None,
    })
}

#[test]
fn a_ping_is_answered_at_once() {
    let out = run(&state(false, vec![]), Operation::Ping, &|_| None);
    match out.result.data {
        OperationData::Pong { agent_version, protocol_version } => {
            assert_eq!(agent_version, "0.1.0");
            assert_eq!(protocol_version, PROTOCOL_VERSION);
        }
        other => panic!("unexpected data: {other:?}"),
    }
    assert!(out.asked.is_empty());
}

#[test]
fn a_new_site_gets_a_user_of_its_own() {
    let out = run(&state(false, vec![record()]), create(), &healthy);
    assert!(out.result.success, "{:?}", out.result);
    match out.result.data {
        OperationData::SiteCreated { site_id, uid, db_name, .. } => {
            assert_eq!(site_id, 2);
            assert_eq!(uid, 10002);
            assert_eq!(db_name, "wp_new_example_com");
        }
        other => panic!("unexpected data: {other:?}"),
    }
    match out.change {
        StoreChange::Put(site) => {
            assert_eq!(site.uid, 10002);
            assert_eq!(site.status, SiteStatus::Online);
        }
        other => panic!("unexpected change: {other:?}"),
    }
    let start = out
        .asked
        .iter()
        .find(|line| line.starts_with("docker run"))
        .expect("a container is started");
    for limit in ["--read-only", "--cap-drop ALL", "--pids-limit", "--memory 1024m", "--cpus 1.00"] {
        assert!(start.contains(limit), "{limit} in {start}");
    }
    assert!(out.result.steps.iter().all(|s| s.ok));
}

#[test]
fn the_first_required_failure_ends_an_operation() {
    let broken = |action: &Action| match action {
        Action::Run(line) if line.program == "docker" => Some(Err("no docker".to_string())),
        _ => None,
    };
    let out = run(&state(false, vec![]), create(), &broken);
    assert!(!out.result.success);
    match out.result.error {
        Some(Error::Command { status, stderr, .. }) => {
            assert_eq!(status, 1);
            assert_eq!(stderr, "no docker");
        }
        other => panic!("unexpected error: {other:?}"),
    }
    assert!(matches!(out.change, StoreChange::Keep));
    assert!(out.asked.last().expect("asked").starts_with("docker"));
}

#[test]
fn a_dry_run_asks_nothing_that_changes_the_host() {
    let out = run(&state(true, vec![record()]), create(), &|_| None);
    assert!(out.result.success);
    for line in &out.asked {
        assert!(line.starts_with("read "), "{line}");
    }
}

#[test]
fn a_php_switch_removes_the_old_container_last() {
    let out = run(
        &state(false, vec![record()]),
        Operation::SwitchPhp { site_id: 1, version: PhpVersion::Php83 },
        &healthy,
    );
    assert!(out.result.success, "{:?}", out.result);
    let last = out.asked.last().expect("asked");
    assert!(last.contains("rm"), "{:?}", out.asked);
    match out.change {
        StoreChange::Put(site) => assert_eq!(site.php_version, PhpVersion::Php83),
        other => panic!("unexpected change: {other:?}"),
    }
}

#[test]
fn a_php_switch_to_a_dead_container_changes_nothing() {
    let dead = |action: &Action| match action {
        Action::Run(line) if line.args.first().map(String::as_str) == Some("inspect") => {
            Some(Ok("false\n".to_string()))
        }
        _ => None,
    };
    let out = run(
        &state(false, vec![record()]),
        Operation::SwitchPhp { site_id: 1, version: PhpVersion::Php83 },
        &dead,
    );
    assert!(!out.result.success);
    assert!(matches!(out.change, StoreChange::Keep));
    assert!(!out.asked.iter().any(|l| l.contains("systemctl reload")), "{:?}", out.asked);
}

#[test]
fn a_container_has_to_run_and_its_socket_to_answer() {
    let host = |running: &'static str, socket: Option<&'static str>| {
        move |action: &Action| match action {
            Action::Run(line) if line.args.first().map(String::as_str) == Some("inspect") => {
                Some(Ok(running.to_string()))
            }
            Action::Run(line) if line.args.iter().any(|arg| arg.contains("php-fpm.sock")) => {
                Some(socket.map(str::to_string).ok_or("refused".to_string()))
            }
            _ => None,
        }
    };
    let switch = |host: &dyn Fn(&Action) -> Option<Result<String, String>>| {
        let operation = Operation::SwitchPhp { site_id: 1, version: PhpVersion::Php83 };
        run(&state(false, vec![record()]), operation, host).result.success
    };
    assert!(switch(&host("true", Some("true"))));
    assert!(!switch(&host("true", Some("false"))));
    assert!(!switch(&host("true", None)));
    assert!(!switch(&host("false", Some("true"))));
}

#[test]
fn traffic_is_verified_before_the_old_container_goes() {
    let broken = |action: &Action| match action {
        Action::Run(line) if line.program == "curl" => Some(Err("502".to_string())),
        other => healthy(other),
    };
    let out = run(
        &state(false, vec![record()]),
        Operation::SwitchPhp { site_id: 1, version: PhpVersion::Php83 },
        &broken,
    );
    assert!(!out.result.success);
    assert!(out.asked.last().expect("asked").starts_with("curl "), "{:?}", out.asked);
    assert!(matches!(out.change, StoreChange::Keep));
}

#[test]
fn deleted_sites_leave_the_index() {
    let out = run(
        &state(false, vec![record()]),
        Operation::DeleteSite { site_id: 1, keep_backups: true },
        &|_| None,
    );
    assert!(out.result.success);
    assert!(matches!(out.change, StoreChange::Remove(1)));
}

#[test]
fn unknown_sites_are_not_found() {
    let operations = vec![
        Operation::StartSite { site_id: 9 },
        Operation::StopSite { site_id: 9 },
        Operation::RestartSite { site_id: 9 },
        Operation::GetSiteStatus { site_id: 9 },
        Operation::ClearCache { site_id: 9 },
        Operation::UpdateWordpress { site_id: 9 },
        Operation::ListPlugins { site_id: 9 },
        Operation::RenewCertificate { site_id: 9 },
        Operation::SetLimits { site_id: 9, limits: ResourceLimits::default() },
        Operation::SetCache { site_id: 9, settings: CacheSettings::default() },
        Operation::AddDomain { site_id: 9, domain: "a.example".into() },
        Operation::RemoveDomain { site_id: 9, domain: "a.example".into() },
        Operation::SetWpCron { site_id: 9, mode: CronMode::WpCron },
    ];
    for operation in operations {
        let name = operation.name();
        let out = run(&state(false, vec![record()]), operation, &|_| None);
        assert!(matches!(out.result.error, Some(Error::NotFound(_))), "{name}");
        assert!(out.asked.is_empty(), "{name}");
    }
}

#[test]
fn starting_and_stopping_is_remembered() {
    let out = run(&state(false, vec![record()]), Operation::StopSite { site_id: 1 }, &|_| None);
    match out.change {
        StoreChange::Put(site) => assert_eq!(site.status, SiteStatus::Stopped),
        other => panic!("unexpected change: {other:?}"),
    }
    let out = run(&state(false, vec![record()]), Operation::StartSite { site_id: 1 }, &healthy);
    match out.change {
        StoreChange::Put(site) => assert_eq!(site.status, SiteStatus::Online),
        other => panic!("unexpected change: {other:?}"),
    }
}

#[test]
fn wp_cli_runs_listed_commands_only() {
    let cli = |args: &[&str]| {
        run(
            &state(false, vec![record()]),
            Operation::WpCli { site_id: 1, args: args.iter().map(|s| s.to_string()).collect() },
            &|_| Some(Ok("done\n".to_string())),
        )
    };
    let out = cli(&["plugin", "list"]);
    assert!(out.result.success);
    assert!(out.asked[0].contains("plugin list"), "{:?}", out.asked);
    match out.result.data {
        OperationData::CommandOutput { stdout, exit_code, .. } => {
            assert_eq!(stdout, "done\n");
            assert_eq!(exit_code, 0);
        }
        other => panic!("unexpected data: {other:?}"),
    }
    let refused = [
        (vec![], "no wp-cli subcommand supplied"),
        (vec!["eval", "x"], "`wp eval` is not allowed by this agent"),
        (vec!["plugin", "a;b"], "wp-cli arguments contain shell metacharacters"),
    ];
    for (args, message) in refused {
        let out = cli(&args);
        assert!(out.asked.is_empty());
        assert_eq!(
            out.result.error.expect("error").message(),
            Error::invalid(message).message()
        );
    }
}

#[test]
fn slugs_and_hooks_are_checked() {
    let refused = vec![
        Operation::PluginAction {
            site_id: 1,
            slug: "../x".into(),
            action: WpItemAction::Activate,
        },
        Operation::ThemeAction { site_id: 1, slug: "a b".into(), action: WpItemAction::Delete },
        Operation::RunCronEvent { site_id: 1, hook: "a;b".into() },
    ];
    for operation in refused {
        let name = operation.name();
        let out = run(&state(false, vec![record()]), operation, &|_| None);
        assert!(matches!(out.result.error, Some(Error::Invalid(_))), "{name}");
        assert!(out.asked.is_empty(), "{name}");
    }
    let out = run(
        &state(false, vec![record()]),
        Operation::PluginAction {
            site_id: 1,
            slug: "akismet".into(),
            action: WpItemAction::Update,
        },
        &|_| None,
    );
    assert!(out.result.success);
    assert!(out.asked[0].contains("plugin update akismet"), "{:?}", out.asked);
}

#[test]
fn a_reset_password_is_told_once() {
    let out = run(
        &state(false, vec![record()]),
        Operation::ResetWpPassword { site_id: 1, user_login: "admin".into() },
        &|_| None,
    );
    match out.result.data {
        OperationData::GeneratedPassword { user_login, password } => {
            assert_eq!(user_login, "admin");
            assert_eq!(password.len(), 20);
            assert!(out.asked[0].contains(&password));
        }
        other => panic!("unexpected data: {other:?}"),
    }
}

fn target() -> ResticTarget {
    ResticTarget {
        repo: "s3:bucket".into(),
        password: "repo-pass".into(),
        env: vec![("AWS_ACCESS_KEY_ID".into(), "AKIA".into())],
    }
}

#[test]
fn a_backup_tells_its_snapshot() {
    let restic = |action: &Action| match action {
        Action::Run(line) if line.program == "restic" && line.args.iter().any(|a| a == "backup") => {
            Some(Ok("{\"message_type\":\"status\"}\n{\"message_type\":\"summary\",\
                \"snapshot_id\":\"deadbeef\",\"total_bytes_processed\":42}\n"
                .to_string()))
        }
        _ => None,
    };
    let out = run(
        &state(false, vec![record()]),
        Operation::CreateBackup {
            site_id: 1,
            scope: BackupScope::FilesOnly,
            target: target(),
            retention: RetentionPolicy::default(),
        },
        &restic,
    );
    assert!(out.result.success, "{:?}", out.result);
    match out.result.data {
        OperationData::Backup { snapshot_id, size_bytes, files_bytes, db_bytes } => {
            assert_eq!(snapshot_id, "deadbeef");
            assert_eq!(size_bytes, 42);
            assert_eq!(files_bytes, 42);
            assert_eq!(db_bytes, 0);
        }
        other => panic!("unexpected data: {other:?}"),
    }
    assert_eq!(
        out.asked[0],
        "restic --repo s3:bucket --password repo-pass backup --tag site=example.com \
         --tag scope=files --json /var/www/example.com"
    );
}

#[test]
fn an_unknown_site_has_no_backups() {
    let out = run(
        &state(false, vec![]),
        Operation::ListBackups { site_id: 1, target: target() },
        &|_| None,
    );
    assert!(out.result.success);
    assert!(out.asked.is_empty());
    assert!(matches!(out.result.data, OperationData::Backups { backups } if backups.is_empty()));
}

#[test]
fn plain_and_gzipped_dumps_are_restored() {
    let out = run(
        &state(false, vec![record()]),
        Operation::RestoreBackup {
            site_id: 1,
            snapshot_id: "deadbeef".into(),
            scope: BackupScope::DatabaseOnly,
            target: target(),
        },
        &|_| None,
    );
    let file = "/tmp/restore-1/backups/database.sql";
    let script = format!(
        "if [ -e '{file}.gz' ]; then gunzip --force '{file}.gz'; fi && \
         mysql --protocol=socket 'wp_example_com' < '{file}'"
    );
    assert!(out.asked.iter().any(|c| c.contains(&script)), "{:?}", out.asked);
}

#[test]
fn snapshots_are_listed_newest_first() {
    let out = run(
        &state(false, vec![record()]),
        Operation::ListBackups { site_id: 1, target: target() },
        &|_| Some(Ok("[]".to_string())),
    );
    let (site, repo) = match out.decode {
        Some(Decode::Backups { record, repo }) => (record, repo),
        _ => panic!("the listing is decoded"),
    };
    assert_eq!(repo, "s3:bucket");
    let snapshot = |id: &str, time: &str| ResticSnapshot {
        id: format!("{id}{}", "0".repeat(56)),
        short_id: Some(id.to_string()),
        time: time.to_string(),
        tags: vec!["database".to_string()],
        total_bytes_processed: Some(7),
    };
    let result = decoded(
        Decoded::Backups {
            record: site,
            repo,
            snapshots: vec![
                snapshot("aaaaaaaa", "2026-01-01T00:00:00Z"),
                snapshot("bbbbbbbb", "2026-01-03T00:00:00Z"),
                snapshot("cccccccc", "2026-01-02T00:00:00Z"),
            ],
        },
        vec![],
        &now(),
    );
    match result.data {
        OperationData::Backups { backups } => {
            let ids: Vec<&str> = backups.iter().map(|b| b.snapshot_id.as_str()).collect();
            assert_eq!(ids, vec!["bbbbbbbb", "cccccccc", "aaaaaaaa"]);
            assert_eq!(backups[0].size_bytes, 7);
        }
        other => panic!("unexpected data: {other:?}"),
    }
}

#[test]
fn decoded_lists_become_answers() {
    let plugin = PluginInfo {
        name: "Akismet".into(),
        slug: "akismet".into(),
        status: "active".into(),
        version: "5.3".into(),
        update_version: None,
        auto_update: false,
    };
    let result = decoded(Decoded::Plugins(vec![plugin]), vec![], &now());
    assert!(matches!(result.data, OperationData::Plugins { plugins } if plugins.len() == 1));
    let result = decoded(
        Decoded::Wrong { what: Decode::Plugins, reason: "eof".into() },
        vec![],
        &now(),
    );
    assert!(!result.success);
    assert!(result.error.expect("error").message().contains("eof"));
}

#[test]
fn a_site_tells_its_state() {
    let host = |action: &Action| match action {
        Action::Run(line) if line.args.first().map(String::as_str) == Some("inspect") => {
            Some(Ok("true\n".to_string()))
        }
        Action::Run(line) if line.args.iter().any(|arg| arg.contains("php-fpm.sock")) => {
            Some(Ok("true".to_string()))
        }
        Action::Run(line) if line.program == "du" => Some(Ok("120\t/var/www/example.com\n".to_string())),
        Action::Run(line) if line.args.iter().any(|a| a == "version") => {
            Some(Ok("6.7.1\n".to_string()))
        }
        _ => None,
    };
    let out = run(&state(false, vec![record()]), Operation::GetSiteStatus { site_id: 1 }, &host);
    match out.result.data {
        OperationData::SiteStatus { site_id, status, php_version, wp_version, disk_usage_mb } => {
            assert_eq!(site_id, 1);
            assert_eq!(status, SiteStatus::Online);
            assert_eq!(php_version, PhpVersion::Php84);
            assert_eq!(wp_version.as_deref(), Some("6.7.1"));
            assert_eq!(disk_usage_mb, 120);
        }
        other => panic!("unexpected data: {other:?}"),
    }
}

#[test]
fn logs_are_read_line_by_line() {
    let out = run(
        &state(false, vec![record()]),
        Operation::TailLogs {
            site_id: 1,
            stream: LogStream::NginxError,
            lines: 10,
            grep: Some("it's".into()),
        },
        &|_| Some(Ok("one\ntwo\n".to_string())),
    );
    match out.result.data {
        OperationData::Lines { lines } => assert_eq!(lines, vec!["one", "two"]),
        other => panic!("unexpected data: {other:?}"),
    }
    assert!(out.asked[0].contains(r"'it'\''s'"), "{:?}", out.asked);
}

#[test]
fn certificates_are_valid_for_ninety_days() {
    let out = run(
        &state(false, vec![record()]),
        Operation::IssueCertificate { site_id: 1, domains: vec!["example.com".into()] },
        &|action| match action {
            Action::Run(line) if line.program == "getent" => {
                Some(Ok("203.0.113.10 example.com\n".to_string()))
            }
            _ => None,
        },
    );
    assert!(out.result.success, "{:?}", out.result);
    match out.result.data {
        OperationData::Certificate { domains, expires_at } => {
            assert_eq!(domains, vec!["example.com"]);
            assert_eq!(expires_at.secs, now().secs + 90 * 86_400);
        }
        other => panic!("unexpected data: {other:?}"),
    }
}

#[test]
fn a_clone_reads_the_credentials_of_its_source() {
    let host = |action: &Action| match action {
        Action::ReadFile(path) if path.ends_with("wp-config.php") => Some(Ok(
            "define('DB_NAME','src');define('DB_USER','u');define('DB_PASSWORD','it\\'s');"
                .to_string(),
        )),
        other => healthy(other),
    };
    let out = run(
        &state(false, vec![record()]),
        Operation::CloneSite(CloneSite {
            source_site_id: 1,
            source_domain: "example.com".into(),
            target_site_id: 2,
            target_domain: "staging.example.com".into(),
            php_version: PhpVersion::Php84,
            staging: true,
            search_replace: true,
            request_ssl: false,
        }),
        &host,
    );
    assert!(out.result.success, "{:?}", out.result);
    let copy = out
        .asked
        .iter()
        .find(|line| line.contains("mysqldump"))
        .expect("the database is copied");
    assert!(copy.contains(r"'it'\''s'"), "{copy}");
    match out.change {
        StoreChange::Put(site) => {
            assert_eq!(site.site_id, 2);
            assert_eq!(site.uid, 10002);
        }
        other => panic!("unexpected change: {other:?}"),
    }
}

fn import(site_id: i64, resync: bool) -> Operation {
    Operation::ImportSite(ImportRequest {
        site_id,
        domain: "moved.example.com".into(),
        php_version: PhpVersion::Php83,
        database_mode: DatabaseMode::Shared,
        limits: ResourceLimits::default(),
        cache: CacheSettings::default(),
        source: ImportSource {
            host: "old.example.com".into(),
            port: 2222,
            user: "root".into(),
            auth: SshAuth::Password("secret".into()),
            remote_path: "/srv/wp".into(),
            db: Some(RemoteDb {
                host: "127.0.0.1".into(),
                port: 3306,
                name: "olddb".into(),
                user: "old".into(),
                password: "pw".into(),
            }),
        },
        resync,
    })
}

#[test]
fn an_import_takes_a_site_over() {
    let out = run(&state(false, vec![record()]), import(7, false), &healthy);
    assert!(out.result.success, "{:?}", out.result);
    assert!(out.asked.iter().any(|line| line.starts_with("mysql ")), "{:?}", out.asked);
    assert!(out.asked.iter().any(|line| line.contains(" config create ")), "{:?}", out.asked);
    match out.change {
        StoreChange::Put(site) => {
            assert_eq!(site.site_id, 7);
            assert_eq!(site.uid, 10002);
            assert_eq!(site.domain, "moved.example.com");
        }
        other => panic!("unexpected change: {other:?}"),
    }
}

#[test]
fn a_resync_keeps_the_database_and_its_configuration() {
    let out = run(&state(false, vec![record()]), import(1, true), &healthy);
    assert!(out.result.success, "{:?}", out.result);
    assert!(!out.asked.iter().any(|line| line.starts_with("mysql ")), "{:?}", out.asked);
    assert!(!out.asked.iter().any(|line| line.contains(" config create ")), "{:?}", out.asked);
    assert!(out.asked.iter().any(|line| line.contains("--exclude wp-config.php")));
    match out.change {
        StoreChange::Put(site) => {
            assert_eq!((site.site_id, site.uid), (1, 10001));
            assert_eq!(site.domain, "example.com");
        }
        other => panic!("unexpected change: {other:?}"),
    }
    let known = state(false, vec![record()]);
    assert!(needs_uid(&known, &create()));
    assert!(needs_uid(&known, &import(7, false)));
    assert!(!needs_uid(&known, &import(1, true)));
    assert!(!needs_uid(&known, &Operation::Ping));
    let unknown = run(&state(false, vec![]), import(1, true), &healthy);
    assert!(!unknown.result.success);
}
