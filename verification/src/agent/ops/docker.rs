//! PHP-FPM containers. One per site, resource limited, running as the site UID
//! with only that site's files mounted.

use vstd::prelude::*;
use crate::agent::config::Config;
use crate::agent::exec::{CommandOutput, OutputView};
use crate::agent::plan;
use crate::agent::plan::{ActionView, Task, TaskView, Verdict, VerdictView};
use crate::agent::store::{RecordView, SiteRecord};
use crate::common::models::PhpVersion;
use crate::digits;
use crate::text;

verus! {

/// A docker command.
pub open spec fn docker(args: Seq<Seq<char>>) -> Seq<TaskView> {
    seq![plan::plain(plan::command("docker"@, args))]
}

/// A docker command.
fn docker_task(args: Vec<String>) -> (v: Vec<Task>)
    ensures
        plan::tasks(v@) == docker(text::texts(args@)),
{
    plan::only(plan::run("docker", args))
}

/// Container names are versioned so a PHP switch can run both side by side.
pub open spec fn spec_container_name(domain: Seq<char>, version: PhpVersion) -> Seq<char> {
    "wp-"@ + text::swap(domain, '.', '-') + "-php"@ + text::replace(version.spec_str(), '.', ""@)
}

/// Container names are versioned so a PHP switch can run both side by side.
pub fn container_name(domain: &str, version: PhpVersion) -> (s: String)
    ensures
        s@ == spec_container_name(domain@, version),
{
    let d = text::swapped(domain, '.', '-');
    let v = text::replaced(version.as_str(), '.', "");
    text::cat4("wp-", d.as_str(), "-php", v.as_str())
}

/// The UID and GID of a site.
pub open spec fn owner(uid: u32) -> Seq<char> {
    digits::dec(uid as nat) + ":"@ + digits::dec(uid as nat)
}

/// Executable form of [`owner`].
pub fn owner_text(uid: u32) -> (s: String)
    ensures
        s@ == owner(uid),
{
    let n = digits::dec_u64(uid as u64);
    text::cat3(n.as_str(), ":", n.as_str())
}

/// A number of megabytes for docker.
pub open spec fn megabytes(mb: u32) -> Seq<char> {
    digits::dec(mb as nat) + "m"@
}

/// Executable form of [`megabytes`].
pub fn megabytes_text(mb: u32) -> (s: String)
    ensures
        s@ == megabytes(mb),
{
    let n = digits::dec_u64(mb as u64);
    text::cat2(n.as_str(), "m")
}

/// The arguments that start the container of a site: limited to its share of the
/// host, without privileges, as its own user, and with its own files alone.
pub open spec fn start_args(config: Config, site: RecordView, version: PhpVersion) -> Seq<
    Seq<char>,
> {
    seq![
        "run"@,
        "--detach"@,
        "--restart"@,
        "unless-stopped"@,
        "--name"@,
        spec_container_name(site.domain, version),
        "--user"@,
        owner(site.uid),
        "--cpus"@,
        site.limits.cpus(),
        "--memory"@,
        megabytes(site.limits.memory_mb),
        "--memory-swap"@,
        megabytes(site.limits.memory_mb),
        "--pids-limit"@,
        "512"@,
        "--security-opt"@,
        "no-new-privileges"@,
        "--cap-drop"@,
        "ALL"@,
        "--read-only"@,
        "--tmpfs"@,
        "/tmp:rw,noexec,nosuid,size=128m"@,
        "--volume"@,
        config.spec_in_site(site.domain, "public_html"@) + ":/var/www/html"@,
        "--volume"@,
        config.spec_in_site(site.domain, "logs"@) + ":/var/log/php"@,
        "--volume"@,
        config.spec_in_site(site.domain, "tmp"@) + ":/run/php"@,
        "--env"@,
        "PHP_FPM_MAX_CHILDREN="@ + digits::dec(site.limits.php_workers as nat),
        "--env"@,
        "PHP_FPM_UID="@ + digits::dec(site.uid as nat),
        "--label"@,
        "wp-panel.site="@ + site.domain,
        "--label"@,
        "wp-panel.php="@ + version.spec_str(),
        "wp-panel/php-fpm:"@ + version.spec_str(),
    ]
}

/// Starts the PHP-FPM container for a site.
pub fn start_php(config: &Config, site: &SiteRecord, version: PhpVersion) -> (v: Vec<Task>)
    ensures
        plan::tasks(v@) == docker(start_args(*config, site@, version)),
{
    let domain = site.domain.as_str();
    let name = container_name(domain, version);
    let user = owner_text(site.uid);
    let cpus = site.limits.cpus_text();
    let memory = megabytes_text(site.limits.memory_mb);
    let public = config.in_site(domain, "public_html");
    let public = text::cat2(public.as_str(), ":/var/www/html");
    let logs = config.in_site(domain, "logs");
    let logs = text::cat2(logs.as_str(), ":/var/log/php");
    let tmp = config.in_site(domain, "tmp");
    let tmp = text::cat2(tmp.as_str(), ":/run/php");
    let workers = digits::dec_u64(site.limits.php_workers as u64);
    let workers = text::cat2("PHP_FPM_MAX_CHILDREN=", workers.as_str());
    let uid = digits::dec_u64(site.uid as u64);
    let uid = text::cat2("PHP_FPM_UID=", uid.as_str());
    let label = text::cat2("wp-panel.site=", domain);
    let php = text::cat2("wp-panel.php=", version.as_str());
    let image = version.image();
    let mut args = text::list8(
        "run",
        "--detach",
        "--restart",
        "unless-stopped",
        "--name",
        name.as_str(),
        "--user",
        user.as_str(),
    );
    text::more8(
        &mut args,
        "--cpus",
        cpus.as_str(),
        "--memory",
        memory.as_str(),
        "--memory-swap",
        memory.as_str(),
        "--pids-limit",
        "512",
    );
    text::more7(
        &mut args,
        "--security-opt",
        "no-new-privileges",
        "--cap-drop",
        "ALL",
        "--read-only",
        "--tmpfs",
        "/tmp:rw,noexec,nosuid,size=128m",
    );
    text::more6(
        &mut args,
        "--volume",
        public.as_str(),
        "--volume",
        logs.as_str(),
        "--volume",
        tmp.as_str(),
    );
    text::more4(&mut args, "--env", workers.as_str(), "--env", uid.as_str());
    text::more5(
        &mut args,
        "--label",
        label.as_str(),
        "--label",
        php.as_str(),
        image.as_str(),
    );
    assert(text::texts(args@) =~= start_args(*config, site@, version));
    docker_task(args)
}

/// The id of a started container: what docker printed, or its name in dry-run.
pub open spec fn spec_container_id(name: Seq<char>, out: Option<OutputView>) -> Seq<char> {
    match out {
        Some(o) => if o.skipped {
            name
        } else {
            o.trimmed()
        },
        None => name,
    }
}

/// Executable form of [`spec_container_id`].
pub fn container_id(name: String, out: Option<&CommandOutput>) -> (s: String)
    ensures
        s@ == spec_container_id(
            name@,
            match out {
                Some(o) => Some(o@),
                None => None,
            },
        ),
{
    match out {
        Some(o) => if o.skipped {
            name
        } else {
            o.trimmed_stdout()
        },
        None => name,
    }
}

/// Stops a container, giving it time to finish its requests.
pub open spec fn spec_stop(container: Seq<char>) -> Seq<TaskView> {
    docker(seq!["stop"@, "--time"@, "20"@, container])
}

pub fn stop(container: &str) -> (v: Vec<Task>)
    ensures
        plan::tasks(v@) == spec_stop(container@),
{
    docker_task(text::list4("stop", "--time", "20", container))
}

/// Removes a container, running or not.
pub open spec fn spec_remove(container: Seq<char>) -> Seq<TaskView> {
    docker(seq!["rm"@, "--force"@, container])
}

pub fn remove(container: &str) -> (v: Vec<Task>)
    ensures
        plan::tasks(v@) == spec_remove(container@),
{
    docker_task(text::list3("rm", "--force", container))
}

/// Restarts a container.
pub open spec fn spec_restart(container: Seq<char>) -> Seq<TaskView> {
    docker(seq!["restart"@, container])
}

pub fn restart(container: &str) -> (v: Vec<Task>)
    ensures
        plan::tasks(v@) == spec_restart(container@),
{
    docker_task(text::list2("restart", container))
}

/// Tells, from inside a site's container, whether its FPM socket takes a connection.
pub const SOCKET_PROBE: &'static str = "echo @stream_socket_client('unix:///run/php/php-fpm.sock', $n, $m, 5) ? 'true' : 'false';";

/// Asks whether a container is running and its FPM socket answers. The container has to
/// be there; a socket that gives no answer is one that does not answer.
pub open spec fn spec_healthy(container: Seq<char>) -> Seq<TaskView> {
    seq![
        plan::plain(
            plan::command(
                "docker"@,
                seq!["inspect"@, "--format"@, "{{.State.Running}}"@, container],
            ),
        ),
        TaskView {
            action: plan::command(
                "docker"@,
                seq!["exec"@, container, "php"@, "-r"@, SOCKET_PROBE@],
            ),
            verdict: VerdictView::Too,
        },
    ]
}

/// Executable form of [`spec_healthy`].
pub fn healthy(container: &str) -> (v: Vec<Task>)
    ensures
        plan::tasks(v@) == spec_healthy(container@),
{
    let mut v = docker_task(text::list4("inspect", "--format", "{{.State.Running}}", container));
    plan::push_task(
        &mut v,
        Task {
            action: plan::run("docker", text::list5("exec", container, "php", "-r", SOCKET_PROBE)),
            verdict: Verdict::Too,
        },
    );
    assert(plan::tasks(v@) =~= spec_healthy(container@));
    v
}

/// The answer to [`spec_healthy`] says that the container is running and its socket
/// answers; in dry-run they are taken to.
pub open spec fn is_running(out: OutputView) -> bool {
    plan::says_yes(out)
}

/// Executable form of [`is_running`].
pub fn running(out: &CommandOutput) -> (r: bool)
    ensures
        r == is_running(out@),
{
    plan::said_yes(out)
}

/// Fetches the image of a PHP version.
pub open spec fn spec_pull(version: PhpVersion) -> Seq<TaskView> {
    docker(seq!["pull"@, "wp-panel/php-fpm:"@ + version.spec_str()])
}

pub fn pull(version: PhpVersion) -> (v: Vec<Task>)
    ensures
        plan::tasks(v@) == spec_pull(version),
{
    let image = version.image();
    docker_task(text::list2("pull", image.as_str()))
}

/// Runs a command inside the site container as the site user.
pub open spec fn spec_exec_in(container: Seq<char>, argv: Seq<Seq<char>>) -> ActionView {
    plan::command("docker"@, seq!["exec"@, "--workdir"@, "/var/www/html"@, container] + argv)
}

/// Runs a command inside the site container as the site user.
pub fn exec_in(container: &str, argv: &Vec<String>) -> (a: plan::Action)
    ensures
        a@ == spec_exec_in(container@, text::texts(argv@)),
{
    let mut args = text::list4("exec", "--workdir", "/var/www/html", container);
    text::push_all(&mut args, argv);
    plan::run("docker", args)
}

/// Lists the containers of sites.
pub open spec fn spec_container_count() -> ActionView {
    plan::command("docker"@, seq!["ps"@, "--quiet"@, "--filter"@, "label=wp-panel.site"@])
}

/// Lists the containers of sites.
pub fn container_count() -> (a: plan::Action)
    ensures
        a@ == spec_container_count(),
{
    plan::run("docker", text::list4("ps", "--quiet", "--filter", "label=wp-panel.site"))
}

/// How many of the texts hold something.
pub open spec fn filled(v: Seq<Seq<char>>) -> nat
    decreases v.len(),
{
    if v.len() == 0 {
        0
    } else {
        filled(v.drop_last()) + (if v.last().len() > 0 {
            1nat
        } else {
            0nat
        })
    }
}

/// The containers in the answer to [`spec_container_count`].
pub open spec fn listed(out: OutputView) -> nat {
    filled(text::lines(out.trimmed()))
}

/// Executable form of [`listed`].
pub fn count_listed(out: &CommandOutput) -> (n: u32)
    ensures
        n == listed(out@) % 0x1_0000_0000,
{
    let shown = out.trimmed_stdout();
    let cs = text::chars_of(shown.as_str());
    let rows = text::lines_of(cs.as_slice());
    let ghost all = text::rows(rows@);
    let mut n: u64 = 0;
    let mut i: usize = 0;
    while i < rows.len()
        invariant
            i <= rows@.len(),
            all == text::rows(rows@),
            n == filled(all.take(i as int)),
            n <= i,
        decreases rows@.len() - i,
    {
        assert(all.take(i + 1).drop_last() =~= all.take(i as int));
        assert(all.take(i + 1).last() == rows@[i as int]@);
        if rows[i].len() > 0 {
            n += 1;
        }
        i += 1;
    }
    assert(all.take(i as int) =~= all);
    (n % 0x1_0000_0000) as u32
}

/// Two arguments follow each other in a list of arguments.
pub open spec fn has_pair(args: Seq<Seq<char>>, flag: Seq<char>, value: Seq<char>) -> bool {
    exists|i: int| 0 <= i < args.len() - 1 && #[trigger] args[i] == flag && args[i + 1] == value
}

/// The container of every site runs as the site's own user, within its CPU, memory
/// and process limits, without capabilities or new privileges, and on a read-only
/// root file system.
pub proof fn law_sites_are_confined(config: Config, site: RecordView, version: PhpVersion)
    ensures
        has_pair(start_args(config, site, version), "--user"@, owner(site.uid)),
        has_pair(start_args(config, site, version), "--cpus"@, site.limits.cpus()),
        has_pair(
            start_args(config, site, version),
            "--memory"@,
            megabytes(site.limits.memory_mb),
        ),
        has_pair(
            start_args(config, site, version),
            "--memory-swap"@,
            megabytes(site.limits.memory_mb),
        ),
        has_pair(start_args(config, site, version), "--pids-limit"@, "512"@),
        has_pair(start_args(config, site, version), "--security-opt"@, "no-new-privileges"@),
        has_pair(start_args(config, site, version), "--cap-drop"@, "ALL"@),
        start_args(config, site, version).contains("--read-only"@),
{
    let args = start_args(config, site, version);
    assert(args[6] == "--user"@ && args[7] == owner(site.uid));
    assert(args[8] == "--cpus"@ && args[9] == site.limits.cpus());
    assert(args[10] == "--memory"@ && args[11] == megabytes(site.limits.memory_mb));
    assert(args[12] == "--memory-swap"@ && args[13] == megabytes(site.limits.memory_mb));
    assert(args[14] == "--pids-limit"@ && args[15] == "512"@);
    assert(args[16] == "--security-opt"@ && args[17] == "no-new-privileges"@);
    assert(args[18] == "--cap-drop"@ && args[19] == "ALL"@);
    assert(args[20] == "--read-only"@);
}

} // verus!
