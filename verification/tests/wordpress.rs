use wpressforge::agent::exec::CommandOutput;
use wpressforge::agent::ops::database;
use wpressforge::agent::ops::docker;
use wpressforge::agent::ops::filesystem;
use wpressforge::agent::ops::wordpress::{
    demo_plugins, demo_themes, is_allowed, plugin_action, read_latest, read_offer, read_users,
    run_cron_event, search_replace, theme_action, validate_slug, wp_task,
};
use wpressforge::agent::plan::{Action, Task};
use wpressforge::common::error::Error;
use wpressforge::common::models::{PhpVersion, WpItemAction};

fn line(t: &Task) -> String {
    match &t.action {
        Action::Run(line) => format!("{} {}", line.program, line.args.join(" ")),
        other => panic!("unexpected action: {other:?}"),
    }
}

fn out(stdout: &str) -> CommandOutput {
    CommandOutput { stdout: stdout.to_string(), ..Default::default() }
}

#[test]
fn wp_cli_runs_inside_the_container() {
    let shown = line(&wp_task("wp-a", &vec!["core".to_string(), "version".to_string()]));
    assert!(shown.starts_with("docker exec"), "{shown}");
    assert!(shown.contains(" wp-a "), "{shown}");
    assert!(shown.contains("core version"), "{shown}");
}

#[test]
fn fourteen_subcommands_are_listed() {
    for name in [
        "core", "plugin", "theme", "option", "user", "cache", "db", "search-replace", "cron",
        "rewrite", "transient", "site", "post", "media",
    ] {
        assert!(is_allowed(name), "{name}");
    }
    for name in ["eval", "eval-file", "shell", "config", "", "Core"] {
        assert!(!is_allowed(name), "{name}");
    }
}

#[test]
fn items_are_named_by_slugs() {
    assert!(validate_slug("akismet-2_x").is_ok());
    for slug in ["", "a b", "a;b", "../a", "a'b"] {
        assert!(matches!(validate_slug(slug), Err(Error::Invalid(_))), "{slug:?}");
    }
    let t = plugin_action("c", "akismet", WpItemAction::Deactivate).ok().expect("task");
    assert!(line(&t).contains("plugin deactivate akismet"));
    let t = theme_action("c", "two", WpItemAction::Delete).ok().expect("task");
    assert!(line(&t).contains("theme delete two"));
    let t = run_cron_event("c", "wp_version_check").ok().expect("task");
    assert!(line(&t).contains("cron event run wp_version_check"));
    assert!(run_cron_event("c", "a b").is_err());
}

#[test]
fn search_and_replace_names_both_addresses() {
    let shown = line(&search_replace("c", "a.example", "b.example"));
    assert!(shown.contains("search-replace"), "{shown}");
    assert!(shown.contains("a.example") && shown.contains("b.example"), "{shown}");
}

#[test]
fn users_are_read_from_json() {
    let list = read_users(&out(
        "[{\"ID\":3,\"user_login\":\"admin\",\"user_email\":\"a@example.com\",\"roles\":\"administrator\"}]",
    ))
    .ok()
    .expect("users");
    assert_eq!(list.len(), 1);
    assert_eq!(list[0].id, 3);
    assert_eq!(list[0].login, "admin");
    assert_eq!(list[0].email, "a@example.com");
    assert_eq!(list[0].role, "administrator");
    assert!(read_users(&out("not json")).is_err());
}

#[test]
fn an_offered_update_is_read() {
    assert_eq!(read_offer("{\"update\":{\"version\":\"6.8\"}}").as_deref(), Some("6.8"));
    assert_eq!(
        read_offer("{\"update\":{\"new_version\":\"6.9\"}}").as_deref(),
        Some("6.9")
    );
    assert_eq!(read_offer("{\"version\":\"6.8\"}"), None);
    assert_eq!(
        read_latest(&out("[{\"update\":{\"version\":\"6.8\"}},{}]"))
            .ok()
            .expect("offer")
            .as_deref(),
        Some("6.8")
    );
    assert!(read_latest(&out("{")).is_err());
    assert_eq!(read_latest(&out("[]")).ok().expect("offer"), None);
}

#[test]
fn a_dry_run_shows_examples() {
    assert!(!demo_plugins().is_empty());
    assert!(!demo_themes().is_empty());
}

#[test]
fn names_are_made_of_the_domain() {
    assert_eq!(database::db_name("my-site.example.com"), "wp_my_site_example_com");
    assert_eq!(docker::container_name("example.com", PhpVersion::Php83), "wp-example-com-php83");
    assert!(filesystem::system_user("example.com").starts_with("wp"));
    assert_eq!(filesystem::first_number("120\t/x"), 120);
    assert_eq!(filesystem::first_number("none"), 0);
}

#[test]
fn passwords_are_long_and_differ() {
    let first = database::generate_password();
    assert_eq!(first.len(), 24);
    assert!(first.chars().all(|c| c.is_ascii_alphanumeric()));
    assert_ne!(first, database::generate_password());
}

#[test]
fn containers_are_counted_by_line() {
    assert_eq!(docker::count_listed(&out("a\nb\n")), 2);
    assert_eq!(docker::count_listed(&out("")), 0);
    assert!(docker::running(&out("true\n")));
    assert!(!docker::running(&out("false\n")));
}
