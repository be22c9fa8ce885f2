use wpressforge::agent::capabilities::NginxCapabilities;
use wpressforge::agent::config::Config;
use wpressforge::agent::ops::dispatch::{dispatch, Begun};
use wpressforge::agent::ops::flow::Fresh;
use wpressforge::agent::ops::import::{inspect, Inspecting};
use wpressforge::agent::ops::webserver::WebServer;
use wpressforge::agent::plan::{Action, Next};
use wpressforge::agent::state::AgentState;
use wpressforge::agent::store::Store;
use wpressforge::common::protocol::{ImportSource, Operation, OperationData, SshAuth};

fn config(dry_run: bool) -> Config {
    Config { dry_run, ..Default::default() }
}

fn state(dry_run: bool) -> AgentState {
    let web = WebServer::detect(config(dry_run), NginxCapabilities::conservative());
    AgentState::new(config(dry_run), Store::new(), web)
}

fn source() -> ImportSource {
    ImportSource {
        host: "remote.example.com".into(),
        port: 22,
        user: "root".into(),
        auth: SshAuth::Password("secret".into()),
        remote_path: "/var/www/html".into(),
        db: None,
    }
}

#[test]
fn dry_run_inspect_returns_demo_data() {
    let fresh = Fresh::draw("/tmp".to_string());
    let operation = Operation::InspectImportSource { source: source() };
    let result = match dispatch(&state(true), operation, &fresh) {
        Begun::Answer(result) => result,
        _ => panic!("a dry run asks nothing of the host"),
    };
    assert!(result.success);
    match result.data {
        OperationData::ImportInspection { wp_version, php_version, size_mb, .. } => {
            assert_eq!(wp_version, "6.7.1");
            assert_eq!(php_version, "8.1.0");
            assert_eq!(size_mb, 250);
        }
        other => panic!("unexpected data: {other:?}"),
    }
}

/// An inspection asks the other host over ssh.
#[test]
fn an_inspection_asks_the_other_host() {
    let fresh = Fresh::draw("/tmp".to_string());
    match inspect(&config(false), &source(), &fresh) {
        Inspecting::Shown(_) => panic!("nothing is known of the other host"),
        Inspecting::Run(run) => {
            assert!(run.temp_files.is_empty());
            match run.runner.next() {
                Next::Act(Action::Run(line)) => {
                    let shown = format!("{} {}", line.program, line.args.join(" "));
                    assert!(shown.contains("root@remote.example.com"), "{shown}");
                }
                _ => panic!("a command is run"),
            }
        }
    }
}

/// A key is written to a file that is removed however the inspection ends.
#[test]
fn a_private_key_is_written_and_removed() {
    let fresh = Fresh::draw("/tmp".to_string());
    let mut from = source();
    from.auth = SshAuth::PrivateKey("KEY".into());
    match inspect(&config(false), &from, &fresh) {
        Inspecting::Shown(_) => panic!("nothing is known of the other host"),
        Inspecting::Run(run) => {
            assert_eq!(run.temp_files.len(), 1);
            match run.runner.next() {
                Next::Act(Action::WriteFile { path, contents, .. }) => {
                    assert_eq!(path, &run.temp_files[0]);
                    assert!(contents.starts_with("KEY"));
                }
                _ => panic!("the key is written first"),
            }
        }
    }
}
