use wpressforge::clock::UtcTime;
use wpressforge::common::error::Error;
use wpressforge::common::models::{Backup, BackupScope};
use wpressforge::common::protocol::{LogStream, Operation, ResticTarget};

#[test]
fn operations_have_the_names_of_the_wire() {
    let cases = vec![
        (Operation::Ping, "ping"),
        (Operation::GetServerMetrics, "get_server_metrics"),
        (Operation::StartSite { site_id: 1 }, "start_site"),
        (Operation::WpCli { site_id: 1, args: vec![] }, "wp_cli"),
        (
            Operation::TailLogs {
                site_id: 1,
                stream: LogStream::NginxError,
                lines: 100,
                grep: Some("php".into()),
            },
            "tail_logs",
        ),
        (
            Operation::ListBackups {
                site_id: 1,
                target: ResticTarget { repo: "r".into(), password: "p".into(), env: vec![] },
            },
            "list_backups",
        ),
    ];
    for (operation, name) in cases {
        assert_eq!(operation.name(), name);
    }
}

#[test]
fn errors_say_what_they_are() {
    let cases = [
        (Error::NotFound("x".into()), "not found: x"),
        (Error::Conflict("x".into()), "already exists: x"),
        (Error::invalid("x"), "invalid request: x"),
        (Error::Unauthorized, "unauthorized"),
        (
            Error::Unsupported("x".into()),
            "operation is not supported by this agent: x",
        ),
        (
            Error::Command { command: "c".into(), status: -1, stderr: "e".into() },
            "command `c` failed with status -1: e",
        ),
        (Error::Unreachable("x".into()), "agent unreachable: x"),
        (Error::internal("x"), "internal error: x"),
    ];
    for (error, message) in cases {
        assert_eq!(error.message(), message);
    }
}

#[test]
fn scopes_are_tagged() {
    assert_eq!(BackupScope::from_tag(BackupScope::FilesOnly.as_str()), BackupScope::FilesOnly);
    let b = Backup {
        id: 1,
        site_id: 1,
        snapshot_id: "s".into(),
        size_bytes: 512,
        scope: BackupScope::FilesOnly,
        destination: "d".into(),
        created_at: UtcTime { secs: 0, nanos: 0 },
    };
    assert_eq!(b.size_label(), "512 B");
}
