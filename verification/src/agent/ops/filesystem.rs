//! Per-site users and directories.
//!
//! ```text
//! /var/www/example.com
//!   ├── public_html/   (WordPress)
//!   ├── logs/
//!   └── backups/
//! ```
//! Everything is owned by the site's dedicated UID so one site cannot touch
//! another's files.

use vstd::prelude::*;
use crate::agent::config::Config;
use crate::agent::exec::{CommandOutput, OutputView};
use crate::agent::ops::docker;
use crate::agent::plan;
use crate::agent::plan::{Action, ActionView, Task, TaskView};
use crate::common::models;
use crate::digits;
use crate::text;

verus! {

/// `example.com` -> `wp_example_com`, a valid Linux user and MySQL identifier.
pub fn system_user(domain: &str) -> (s: String)
    ensures
        s@ == models::identifier_of(domain@),
{
    models::identifier(domain)
}

/// Creates the user of a site, who can not log in.
pub open spec fn spec_ensure_user(domain: Seq<char>, uid: u32) -> Seq<TaskView> {
    seq![
        plan::plain(
            plan::command(
                "useradd"@,
                seq![
                    "--system"@,
                    "--no-create-home"@,
                    "--shell"@,
                    "/usr/sbin/nologin"@,
                    "--uid"@,
                    digits::dec(uid as nat),
                    "--user-group"@,
                    models::identifier_of(domain),
                ],
            ),
        ),
    ]
}

pub fn ensure_user(domain: &str, uid: u32) -> (v: Vec<Task>)
    ensures
        plan::tasks(v@) == spec_ensure_user(domain@, uid),
{
    let user = system_user(domain);
    let id = digits::dec_u64(uid as u64);
    plan::only(
        plan::run(
            "useradd",
            text::list8(
                "--system",
                "--no-create-home",
                "--shell",
                "/usr/sbin/nologin",
                "--uid",
                id.as_str(),
                "--user-group",
                user.as_str(),
            ),
        ),
    )
}

/// Makes a directory of a site.
pub open spec fn site_dir(config: Config, domain: Seq<char>, part: Seq<char>) -> TaskView {
    plan::plain(ActionView::MakeDir(config.spec_in_site(domain, part)))
}

/// Hands a tree over to a site's user.
pub open spec fn chown(uid: u32, path: Seq<char>) -> TaskView {
    plan::plain(plan::command("chown"@, seq!["-R"@, docker::owner(uid), path]))
}

/// Makes the directories of a site, for its user alone.
pub open spec fn spec_create_tree(config: Config, domain: Seq<char>, uid: u32) -> Seq<TaskView> {
    let root = config.spec_site_root(domain);
    seq![
        site_dir(config, domain, "public_html"@),
        site_dir(config, domain, "logs"@),
        site_dir(config, domain, "backups"@),
        site_dir(config, domain, "tmp"@),
        chown(uid, root),
        plan::plain(plan::command("chmod"@, seq!["750"@, root])),
    ]
}

/// Executable form of [`chown`].
pub fn chown_task(uid: u32, path: &str) -> (t: Task)
    ensures
        t@ == chown(uid, path@),
{
    let owner = docker::owner_text(uid);
    plan::plain_task(plan::run("chown", text::list3("-R", owner.as_str(), path)))
}

pub fn create_tree(config: &Config, domain: &str, uid: u32) -> (v: Vec<Task>)
    ensures
        plan::tasks(v@) == spec_create_tree(*config, domain@, uid),
{
    let root = config.site_root(domain);
    let mut v = plan::no_tasks();
    plan::push_action(&mut v, Action::MakeDir(config.in_site(domain, "public_html")));
    plan::push_action(&mut v, Action::MakeDir(config.in_site(domain, "logs")));
    plan::push_action(&mut v, Action::MakeDir(config.in_site(domain, "backups")));
    plan::push_action(&mut v, Action::MakeDir(config.in_site(domain, "tmp")));
    plan::push_task(&mut v, chown_task(uid, root.as_str()));
    plan::push_action(&mut v, plan::run("chmod", text::list2("750", root.as_str())));
    v
}

/// Removes a tree.
pub open spec fn rm(path: Seq<char>) -> TaskView {
    plan::plain(plan::command("rm"@, seq!["-rf"@, path]))
}

/// Executable form of [`rm`].
pub fn rm_task(path: &str) -> (t: Task)
    ensures
        t@ == rm(path@),
{
    plan::plain_task(plan::run("rm", text::list2("-rf", path)))
}

/// Removes the files of a site: all of them, or all but its backups.
pub open spec fn spec_remove_tree(config: Config, domain: Seq<char>, keep_backups: bool) -> Seq<
    TaskView,
> {
    if keep_backups {
        seq![
            rm(config.spec_in_site(domain, "public_html"@)),
            rm(config.spec_in_site(domain, "logs"@)),
            rm(config.spec_in_site(domain, "tmp"@)),
        ]
    } else {
        seq![rm(config.spec_site_root(domain))]
    }
}

pub fn remove_tree(config: &Config, domain: &str, keep_backups: bool) -> (v: Vec<Task>)
    ensures
        plan::tasks(v@) == spec_remove_tree(*config, domain@, keep_backups),
{
    let mut v = plan::no_tasks();
    if keep_backups {
        let public = config.in_site(domain, "public_html");
        let logs = config.in_site(domain, "logs");
        let tmp = config.in_site(domain, "tmp");
        plan::push_task(&mut v, rm_task(public.as_str()));
        plan::push_task(&mut v, rm_task(logs.as_str()));
        plan::push_task(&mut v, rm_task(tmp.as_str()));
    } else {
        let root = config.site_root(domain);
        plan::push_task(&mut v, rm_task(root.as_str()));
    }
    v
}

/// Removes the user of a site.
pub open spec fn spec_remove_user(domain: Seq<char>) -> Seq<TaskView> {
    seq![plan::plain(plan::command("userdel"@, seq![models::identifier_of(domain)]))]
}

pub fn remove_user(domain: &str) -> (v: Vec<Task>)
    ensures
        plan::tasks(v@) == spec_remove_user(domain@),
{
    let user = system_user(domain);
    plan::only(plan::run("userdel", text::list1(user.as_str())))
}

/// Asks for the disk usage of a site.
pub open spec fn spec_disk_usage_mb(config: Config, domain: Seq<char>) -> Seq<TaskView> {
    seq![plan::plain(plan::command("du"@, seq!["-sm"@, config.spec_site_root(domain)]))]
}

/// Asks for the disk usage of a site in megabytes.
pub fn disk_usage_mb(config: &Config, domain: &str) -> (v: Vec<Task>)
    ensures
        plan::tasks(v@) == spec_disk_usage_mb(*config, domain@),
{
    let root = config.site_root(domain);
    plan::only(plan::run("du", text::list2("-sm", root.as_str())))
}

/// The number that a text starts with, or zero.
pub open spec fn leading_number(s: Seq<char>) -> nat {
    let words = text::words(s);
    if words.len() > 0 {
        match digits::parse(words[0], u64::MAX as nat) {
            Some(n) => n,
            None => 0,
        }
    } else {
        0
    }
}

/// Executable form of [`leading_number`].
pub fn first_number(s: &str) -> (n: u64)
    ensures
        n == leading_number(s@),
{
    let cs = text::chars_of(s);
    let words = text::words_of(cs.as_slice());
    if words.len() > 0 {
        assert(text::rows(words@)[0] == words@[0]@);
        match digits::parse_max(words[0].as_slice(), u64::MAX) {
            Some(n) => n,
            None => 0,
        }
    } else {
        0
    }
}

} // verus!
