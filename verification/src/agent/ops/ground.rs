//! Names and places of sites: what is called after a site, and where its files lie.

use vstd::prelude::*;
use crate::agent::config::Config;
use crate::agent::exec::OutputView;
use crate::agent::ops::dispatch::{carried, concludes, Conclusion};
use crate::agent::ops::docker;
use crate::agent::ops::effects;
use crate::agent::ops::effects::{args_of, is_name, runs};
use crate::agent::ops::filesystem;
use crate::agent::ops::flow::RunView;
use crate::agent::ops::metrics;
use crate::agent::ops::mu_plugin;
use crate::agent::ops::nginx;
use crate::agent::ops::nginx::NginxServer;
use crate::agent::ops::site;
use crate::agent::ops::wpconfig;
use crate::agent::path;
use crate::agent::plan::ActionView;
use crate::agent::state::AgentState;
use crate::agent::store::RecordView;
use crate::clock::UtcTime;
use crate::common::models;
use crate::common::models::PhpVersion;
use crate::common::protocol::OperationData;
use crate::digits;
use crate::text;

verus! {

// ---------------------------------------------------------------------------
// Names
// ---------------------------------------------------------------------------

/// A domain in small letters, digits and dots, with none of the latter at either end.
pub open spec fn is_plain_domain(s: Seq<char>) -> bool {
    &&& s.len() > 0
    &&& forall|i: int|
        0 <= i < s.len() ==> 'a' <= #[trigger] s[i] <= 'z' || '0' <= s[i] <= '9' || s[i] == '.'
    &&& s[0] != '.'
    &&& s.last() != '.'
}

/// The name of a site's user and database is its domain with underscores for dots.
proof fn lemma_identifier(domain: Seq<char>)
    requires
        is_plain_domain(domain),
    ensures
        models::identifier_of(domain) == "wp_"@ + text::swap(domain, '.', '_'),
{
    let plain = models::plain_of(domain);
    let n = plain.len() as int;
    let class = text::Class::Is('_');
    assert(plain =~= text::swap(domain, '.', '_'));
    assert(plain[0] != '_' && plain[n - 1] != '_');
    assert(text::prefix_len(plain, class) == 0);
    assert(text::trim_start(plain, class) =~= plain);
    assert(text::suffix_len(plain, class) == 0);
    assert(text::trim(plain, class) =~= plain);
    assert(text::lowered(plain) =~= plain);
}

/// Different sites have users, databases and cache zones with different names, which hold
/// nothing but small letters, digits and underscores.
pub proof fn law_names_are_told_apart(a: RecordView, b: RecordView)
    requires
        is_plain_domain(a.domain),
        is_plain_domain(b.domain),
        a.domain != b.domain,
    ensures
        models::identifier_of(a.domain) != models::identifier_of(b.domain),
        nginx::zone(a) != nginx::zone(b),
        a.container() != b.container(),
        forall|i: int|
            0 <= i < models::identifier_of(a.domain).len() ==> {
                let c = #[trigger] models::identifier_of(a.domain)[i];
                'a' <= c <= 'z' || '0' <= c <= '9' || c == '_'
            },
{
    reveal_strlit("wp_");
    reveal_strlit("wp-");
    lemma_identifier(a.domain);
    lemma_identifier(b.domain);
    lemma_swap_is_injective(a.domain, b.domain, '_');
    lemma_swap_is_injective(a.domain, b.domain, '-');
    let x = text::swap(a.domain, '.', '_');
    let y = text::swap(b.domain, '.', '_');
    let m = "wp_"@ + x;
    let n = "wp_"@ + y;
    if m == n {
        assert(m.skip(3) =~= x);
        assert(n.skip(3) =~= y);
    }
    let p = a.container();
    let q = b.container();
    if p == q {
        assert(p.skip(3) =~= text::swap(a.domain, '.', '-'));
        assert(q.skip(3) =~= text::swap(b.domain, '.', '-'));
    }
    assert forall|i: int| 0 <= i < m.len() implies ({
        let c = #[trigger] m[i];
        'a' <= c <= 'z' || '0' <= c <= '9' || c == '_'
    }) by {
        if i >= 3 {
            assert(m[i] == x[i - 3]);
            assert('a' <= a.domain[i - 3] <= 'z' || '0' <= a.domain[i - 3] <= '9' || a.domain[i - 3]
                == '.');
        }
    }
}

/// Dots can be told from what takes their place where that does not occur itself.
proof fn lemma_swap_is_injective(a: Seq<char>, b: Seq<char>, with: char)
    requires
        is_plain_domain(a),
        is_plain_domain(b),
        with == '_' || with == '-',
        a != b,
    ensures
        text::swap(a, '.', with) != text::swap(b, '.', with),
{
    let x = text::swap(a, '.', with);
    let y = text::swap(b, '.', with);
    if x == y {
        assert(a.len() == x.len() && b.len() == y.len());
        assert forall|i: int| 0 <= i < a.len() implies a[i] == b[i] by {
            assert(x[i] == y[i]);
            assert('a' <= a[i] <= 'z' || '0' <= a[i] <= '9' || a[i] == '.');
            assert('a' <= b[i] <= 'z' || '0' <= b[i] <= '9' || b[i] == '.');
        }
        assert(a =~= b);
    }
}

/// A container's name tells its site and its PHP version: it is the site's own name, then
/// the version without its dot.
pub proof fn law_container_names_tell_the_version(domain: Seq<char>, version: PhpVersion)
    ensures
        docker::spec_container_name(domain, version) == models::container_name_of(domain)
            + match version {
            PhpVersion::Php81 => "-php81"@,
            PhpVersion::Php82 => "-php82"@,
            PhpVersion::Php83 => "-php83"@,
            PhpVersion::Php84 => "-php84"@,
        },
{
    reveal_strlit("-php");
    reveal_strlit("-php81");
    reveal_strlit("-php82");
    reveal_strlit("-php83");
    reveal_strlit("-php84");
    reveal_strlit("8.1");
    reveal_strlit("8.2");
    reveal_strlit("8.3");
    reveal_strlit("8.4");
    reveal_strlit("");
    reveal_with_fuel(text::replace, 4);
    let s = version.spec_str();
    let short = text::replace(s, '.', ""@);
    assert(short =~= seq![s[0], s[2]]);
    assert(docker::spec_container_name(domain, version) =~= models::container_name_of(domain)
        + match version {
        PhpVersion::Php81 => "-php81"@,
        PhpVersion::Php82 => "-php82"@,
        PhpVersion::Php83 => "-php83"@,
        PhpVersion::Php84 => "-php84"@,
    });
}

// ---------------------------------------------------------------------------
// Places
// ---------------------------------------------------------------------------

/// A site is laid out with a place for its pages, its logs, its backups and its sockets;
/// all of it belongs to the site's user and is closed to everyone else.
pub proof fn law_sites_are_laid_out(config: Config, domain: Seq<char>, uid: u32)
    requires
        is_name(domain),
    ensures
        ({
            let root = config.spec_site_root(domain);
            let tasks = filesystem::spec_create_tree(config, domain, uid);
            let n = digits::dec(uid as nat);
            &&& tasks.len() == 6
            &&& tasks[0].action == ActionView::MakeDir(root + "/public_html"@)
            &&& tasks[1].action == ActionView::MakeDir(root + "/logs"@)
            &&& tasks[2].action == ActionView::MakeDir(root + "/backups"@)
            &&& tasks[3].action == ActionView::MakeDir(root + "/tmp"@)
            &&& runs(tasks[4].action, "chown"@) && args_of(tasks[4].action) == seq![
                "-R"@,
                n + ":"@ + n,
                root,
            ]
            &&& runs(tasks[5].action, "chmod"@) && args_of(tasks[5].action) == seq!["750"@, root]
        }),
{
    reveal_strlit("/");
    reveal_strlit("public_html");
    reveal_strlit("logs");
    reveal_strlit("backups");
    reveal_strlit("tmp");
    reveal_strlit("/public_html");
    reveal_strlit("/logs");
    reveal_strlit("/backups");
    reveal_strlit("/tmp");
    effects::lemma_in_site(config, domain, "public_html"@);
    effects::lemma_in_site(config, domain, "logs"@);
    effects::lemma_in_site(config, domain, "backups"@);
    effects::lemma_in_site(config, domain, "tmp"@);
    let root = config.spec_site_root(domain);
    let tasks = filesystem::spec_create_tree(config, domain, uid);
    let n = digits::dec(uid as nat);
    assert(config.spec_in_site(domain, "public_html"@) =~= root + "/public_html"@);
    assert(config.spec_in_site(domain, "logs"@) =~= root + "/logs"@);
    assert(config.spec_in_site(domain, "backups"@) =~= root + "/backups"@);
    assert(config.spec_in_site(domain, "tmp"@) =~= root + "/tmp"@);
    assert(args_of(tasks[4].action) =~= seq!["-R"@, n + ":"@ + n, root]);
    assert(args_of(tasks[5].action) =~= seq!["750"@, root]);
}

/// The configuration of a site's WordPress, and the plugin that purges its cache, lie in
/// the site's pages.
pub proof fn law_wordpress_lies_in_the_sites_pages(config: Config, site: RecordView)
    requires
        is_name(site.domain),
    ensures
        wpconfig::config_path(config, site) == config.spec_site_root(site.domain)
            + "/public_html/wp-config.php"@,
        wpconfig::read_stage(config, site).tasks.len() == 1,
        wpconfig::read_stage(config, site).tasks[0].action == ActionView::ReadFile(
            wpconfig::config_path(config, site),
        ),
        mu_plugin::plugin_path(config, site.domain) == config.spec_site_root(site.domain)
            + "/public_html/wp-content/mu-plugins/wp-panel-cache.php"@,
{
    reveal_strlit("/");
    reveal_strlit("public_html");
    reveal_strlit("public_html/wp-config.php");
    reveal_strlit("/public_html/wp-config.php");
    reveal_strlit("wp-content");
    reveal_strlit("mu-plugins");
    reveal_strlit("wp-panel-cache.php");
    reveal_strlit("/public_html/wp-content/mu-plugins/wp-panel-cache.php");
    effects::lemma_in_site(config, site.domain, "public_html"@);
    effects::lemma_in_site(config, site.domain, "public_html/wp-config.php"@);
    let root = config.spec_site_root(site.domain);
    assert(wpconfig::config_path(config, site) =~= root + "/public_html/wp-config.php"@);
    let public = config.spec_in_site(site.domain, "public_html"@);
    assert(public.last() == 'l');
    let content = path::join(public, "wp-content"@);
    assert(content.last() == 't');
    let plugins = path::join(content, "mu-plugins"@);
    assert(plugins.last() == 's');
    assert(mu_plugin::plugin_path(config, site.domain) =~= root
        + "/public_html/wp-content/mu-plugins/wp-panel-cache.php"@);
}

/// Every file that the web server writes for a site is removed with the site.
pub proof fn law_removed_sites_leave_no_web_files(
    server: NginxServer,
    site: RecordView,
    ssl: bool,
    j: int,
)
    requires
        0 <= j < server.spec_write_site(site, ssl).len(),
        server.spec_write_site(site, ssl)[j].action is WriteFile,
    ensures
        exists|k: int|
            0 <= k < server.spec_remove_site(site.domain).len() && (
            #[trigger] server.spec_remove_site(site.domain)[k]).action == ActionView::RemoveFile(
                server.spec_write_site(site, ssl)[j].action->WriteFile_path,
            ),
{
    let gone = server.spec_remove_site(site.domain);
    let a = server.spec_write_site(site, ssl)[j].action;
    assert(gone[0].action == ActionView::RemoveFile(server.config.spec_vhost_path(site.domain)));
    assert(gone[1].action == ActionView::RemoveFile(server.spec_cache_zone_path(site.domain)));
}

// ---------------------------------------------------------------------------
// What is told
// ---------------------------------------------------------------------------

/// What a command printed for the panel is told as it was printed.
#[verifier::rlimit(40)]
pub proof fn law_output_is_told_as_it_was(
    state: AgentState,
    end: RunView,
    now: UtcTime,
    c: Conclusion,
    out: OutputView,
)
    requires
        concludes(state, end, now, c),
        end.runner.error is None,
        end.runner.outputs.len() > 0,
        end.runner.outputs[0] == Some(out),
    ensures
        end.flow is Output ==> (carried(c) matches OperationData::CommandOutput {
            stdout,
            stderr,
            exit_code,
        } && stdout@ == out.stdout && stderr@ == out.stderr && exit_code == out.exit_code),
        end.flow is Lines ==> (carried(c) matches OperationData::Lines { lines } && text::texts(
            lines@,
        ) == text::lines(out.stdout)),
{
}

/// The memory in use is what is not available, and never more than there is.
pub proof fn law_used_memory_is_what_is_not_available(raw: Seq<char>)
    ensures
        ({
            let m = metrics::spec_memory(raw);
            let available = metrics::value_of(text::lines(raw), "MemAvailable"@);
            &&& m.used_kb <= m.total_kb
            &&& m.total_kb == metrics::value_of(text::lines(raw), "MemTotal"@)
            &&& available <= m.total_kb ==> m.used_kb + available == m.total_kb
        }),
{
    metrics::lemma_value_fits(text::lines(raw), "MemTotal"@);
}

/// Whether a container serves is asked of docker and of PHP inside that container, through
/// the socket that its web server uses; both have to say so.
pub proof fn law_health_is_asked_twice(container: Seq<char>)
    ensures
        ({
            let tasks = docker::spec_healthy(container);
            &&& tasks.len() == 2
            &&& runs(tasks[0].action, "docker"@)
            &&& args_of(tasks[0].action) == seq![
                "inspect"@,
                "--format"@,
                "{{.State.Running}}"@,
                container,
            ]
            &&& tasks[0].verdict is Plain
            &&& runs(tasks[1].action, "docker"@)
            &&& args_of(tasks[1].action)[0] == "exec"@ && args_of(tasks[1].action)[1] == container
            &&& text::has(args_of(tasks[1].action)[4], "unix:///run/php/php-fpm.sock"@)
            &&& tasks[1].verdict is Too
        }),
{
    let tasks = docker::spec_healthy(container);
    assert(args_of(tasks[0].action) =~= seq![
        "inspect"@,
        "--format"@,
        "{{.State.Running}}"@,
        container,
    ]);
    reveal_strlit("unix:///run/php/php-fpm.sock");
    reveal_strlit(
        "echo @stream_socket_client('unix:///run/php/php-fpm.sock', $n, $m, 5) ? 'true' : 'false';",
    );
    let s = args_of(tasks[1].action)[4];
    let part = "unix:///run/php/php-fpm.sock"@;
    assert(s.subrange(28, 28 + part.len() as int) =~= part);
    assert(text::occurs_at(s, part, 28));
}

/// Traffic is verified with a request for the front page of the site itself, on this host,
/// that fails where the answer is an error.
pub proof fn law_traffic_is_verified_at_the_site(domain: Seq<char>)
    ensures
        ({
            let a = site::traffic_check(domain).action;
            &&& runs(a, "curl"@)
            &&& args_of(a).contains("--fail"@)
            &&& docker::has_pair(args_of(a), "--resolve"@, domain + ":443:127.0.0.1"@)
            &&& args_of(a).last() == "https://"@ + domain + "/"@
            &&& site::traffic_check(domain).verdict is Plain
        }),
{
    let args = args_of(site::traffic_check(domain).action);
    assert(args[2] == "--fail"@);
    assert(args[8] == "--resolve"@ && args[9] == domain + ":443:127.0.0.1"@);
}

/// What is told of a new site is what was made: its UID, its database, and the container
/// that docker named.
#[verifier::rlimit(40)]
pub proof fn law_told_of_a_new_site_is_what_was_made(
    state: AgentState,
    end: RunView,
    now: UtcTime,
    c: Conclusion,
)
    requires
        concludes(state, end, now, c),
        end.runner.error is None,
        end.flow is Created,
    ensures
        c is Answer,
        ({
            let record = end.flow->Created_record;
            let stage = end.flow->Created_container_stage;
            carried(c) matches OperationData::SiteCreated { site_id, container_id, uid, db_name }
                && site_id == record.site_id && uid == record.uid && db_name@ == record.db_name && (
            end.runner.output(stage) matches Some(out) && !out.skipped ==> container_id@
                == text::trim((end.runner.output(stage)->0).stdout, text::Class::White))
        }),
{
}

/// What is told of an update is the version that is installed and the one on offer; of a
/// site elsewhere, what its host answered.
#[verifier::rlimit(40)]
pub proof fn law_versions_are_told_as_found(
    state: AgentState,
    end: RunView,
    now: UtcTime,
    c: Conclusion,
    installed: OutputView,
)
    requires
        concludes(state, end, now, c),
        end.runner.error is None,
        end.runner.outputs.len() > 1,
        end.runner.outputs[0] == Some(installed),
        !installed.skipped,
        end.flow is CoreUpdate,
    ensures
        c matches Conclusion::Answer { result, .. } && result.success ==> (
        carried(c) matches OperationData::CoreUpdate { current, latest } && current@ == text::trim(
            installed.stdout,
            text::Class::White,
        )),
{
}

/// The vhost of a site lies in the directory that Nginx reads, under the site's domain; its
/// cache in the directory of caches, and the declaration of its zone beside the vhosts, all
/// under the domain too.
pub proof fn law_web_files_lie_where_nginx_looks(server: NginxServer, domain: Seq<char>)
    requires
        is_name(domain),
        server.config.nginx_dir@.len() > 0,
        server.config.nginx_dir@.last() != '/',
        server.config.cache_root@.len() > 0,
        server.config.cache_root@.last() != '/',
    ensures
        server.config.spec_vhost_path(domain) == server.config.nginx_dir@ + "/"@ + domain
            + ".conf"@,
        server.config.spec_cache_dir(domain) == server.config.cache_root@ + "/"@ + domain,
        effects::ends_with(
            server.spec_cache_zone_path(domain),
            "conf.d/wp-cache-"@ + domain + ".conf"@,
        ),
{
    reveal_strlit("/");
    reveal_strlit(".conf");
    reveal_strlit("conf.d");
    reveal_strlit("wp-cache-");
    reveal_strlit("conf.d/wp-cache-");
    assert(domain[0] != '/');
    let file = domain + ".conf"@;
    assert(file[0] == domain[0]);
    assert(server.config.spec_vhost_path(domain) =~= server.config.nginx_dir@ + "/"@ + domain
        + ".conf"@);
    let zone = server.spec_cache_zone_path(domain);
    let base = match path::path_parent(server.config.nginx_dir@) {
        Some(dir) => dir,
        None => server.config.nginx_dir@,
    };
    let dir = path::join(base, "conf.d"@);
    assert(dir.last() == 'd');
    let name = "wp-cache-"@ + domain + ".conf"@;
    assert(name[0] == 'w');
    assert(zone =~= dir + "/"@ + name);
    let part = "conf.d/wp-cache-"@ + domain + ".conf"@;
    assert("conf.d"@ + "/"@ + "wp-cache-"@ =~= "conf.d/wp-cache-"@);
    assert(dir.skip(dir.len() - 6) =~= "conf.d"@);
    assert(zone.subrange(zone.len() - part.len(), zone.len() as int) =~= part);
}

} // verus!
