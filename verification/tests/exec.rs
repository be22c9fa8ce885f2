use wpressforge::agent::exec::{
    mask_inline_secrets, redact_command, shell_quote, CommandOutput, Steps,
};
use wpressforge::common::error::Error;

fn args(list: &[&str]) -> Vec<String> {
    list.iter().map(|s| s.to_string()).collect()
}

#[test]
fn masks_flag_value_pairs() {
    let logged = redact_command(
        "restic",
        &args(&["--repo", "s3:bucket", "--password", "s3cret", "init"]),
    );
    assert!(
        logged.contains("s3:bucket"),
        "non-secret args stay visible: {logged}"
    );
    assert!(!logged.contains("s3cret"), "secret leaked: {logged}");
}

#[test]
fn masks_inline_assignments() {
    let logged = redact_command(
        "docker",
        &args(&[
            "exec",
            "c",
            "wp",
            "core",
            "install",
            "--admin_password=hunter2",
            "--skip-email",
        ]),
    );
    assert!(logged.contains("--admin_password=***"));
    assert!(!logged.contains("hunter2"));
    assert!(logged.contains("--skip-email"));
}

#[test]
fn masks_secrets_inside_shell_fragments() {
    let logged = redact_command(
        "sh",
        &args(&[
            "-c",
            "mysqldump -uwp -p'dbpass' wp | mysql -uwp -p'dbpass' wp2",
        ]),
    );
    assert!(
        !logged.contains("dbpass"),
        "shell fragment leaked: {logged}"
    );
    assert!(logged.contains("mysqldump"));
}

#[test]
fn masks_sql_identified_by() {
    let logged = redact_command(
        "mysql",
        &args(&[
            "-e",
            "CREATE USER 'wp'@'localhost' IDENTIFIED BY 'topsecret';",
        ]),
    );
    assert!(!logged.contains("topsecret"));
    assert!(logged.contains("CREATE USER"));
}

#[test]
fn leaves_ordinary_commands_readable() {
    let logged = redact_command("nginx", &args(&["-t"]));
    assert_eq!(logged, "nginx [\"-t\"]");
}

#[test]
fn wraps_plain_values() {
    assert_eq!(shell_quote("simple"), "'simple'");
}

#[test]
fn neutralises_shell_metacharacters() {
    assert_eq!(shell_quote("a;rm -rf /"), "'a;rm -rf /'");
    assert_eq!(shell_quote("$(whoami)"), "'$(whoami)'");
    assert_eq!(shell_quote("back`tick`"), "'back`tick`'");
}

#[test]
fn escapes_embedded_single_quotes() {
    assert_eq!(shell_quote("it's"), r"'it'\''s'");
}

/// The word that a shell makes of single quotes and escaped characters.
fn shell_word(s: &str) -> String {
    let mut word = String::new();
    let mut quoted = false;
    let mut escaped = false;
    for c in s.chars() {
        if escaped {
            word.push(c);
            escaped = false;
        } else if c == '\'' {
            quoted = !quoted;
        } else if c == '\\' && !quoted {
            escaped = true;
        } else {
            assert!(quoted, "{c:?} stands outside of quotes");
            word.push(c);
        }
    }
    assert!(!quoted && !escaped);
    word
}

#[test]
fn quoted_values_survive_the_shell_verbatim() {
    for value in [
        "'",
        "it's",
        "a;rm -rf /",
        "$(whoami)",
        "back`tick`",
        "double\"quote",
        "new\nline",
        "p@ssw0rd!#%&*",
    ] {
        assert_eq!(
            shell_word(&shell_quote(value)),
            value,
            "value was altered by the shell: {value:?}"
        );
    }
}

#[test]
fn arguments_are_logged_as_they_would_be_debugged() {
    for list in [
        vec!["a\"b", "tab\there", "new\nline", "back\\slash"],
        vec![],
        vec!["\u{e9}", "it's"],
    ] {
        let shown = args(&list);
        assert_eq!(redact_command("p", &shown), format!("p {shown:?}"));
    }
}

#[test]
fn inline_secrets_are_masked_where_they_stand() {
    assert_eq!(mask_inline_secrets("ls -la"), "ls -la");
    assert!(!mask_inline_secrets("mysql -uroot -p'x y' db").contains("x y"));
}

#[test]
fn output_is_shown_without_white_space_around_it() {
    let out = CommandOutput {
        stdout: "  6.7.1\n".to_string(),
        stderr: String::new(),
        exit_code: 0,
        skipped: false,
    };
    assert_eq!(out.trimmed_stdout(), "6.7.1");
    assert!(CommandOutput::skip().skipped);
}

#[test]
fn steps_keep_their_order_and_their_failures() {
    let mut steps = Steps::new();
    steps.step("one", None, 3);
    steps.note("two", "seen");
    steps.step("three", Some(&Error::invalid("no")), 5);
    let reports = steps.into_reports();
    assert_eq!(reports.len(), 3);
    assert_eq!(reports[0].name, "one");
    assert!(reports[0].ok);
    assert_eq!(reports[0].duration_ms, 3);
    assert_eq!(reports[1].detail.as_deref(), Some("seen"));
    assert!(!reports[2].ok);
    assert_eq!(reports[2].detail, Some(Error::invalid("no").message()));
}

#[test]
fn quotes_inside_secrets_are_masked_too() {
    for secret in ["it's", "'", "''", "a'b'c", "x"] {
        let script = format!("mysqldump -u'u' -p{} 'db' | mysql", shell_quote(secret));
        assert_eq!(
            mask_inline_secrets(&script),
            "mysqldump -u'u' -p'***' 'db' | mysql",
            "{secret}"
        );
    }
    assert_eq!(mask_inline_secrets("-p'open'\\''rest"), "-p'***");
}
