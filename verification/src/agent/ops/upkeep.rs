//! What the operations promise that keep a site going: domains, certificates, caches,
//! updates, logs, and what is asked of WordPress itself.

use vstd::prelude::*;
use crate::agent::config::Config;
use crate::agent::ops::dispatch::{begins, carried, concludes, Begun, Conclusion};
use crate::agent::ops::docker::has_pair;
use crate::agent::ops::effects;
use crate::agent::ops::effects::{
    args_of, docker_does, every, first_then, from_end, runs, some, wp_runs, writes,
};
use crate::agent::ops::flow::{ChangeView, FlowView, Fresh, RunView};
use crate::agent::ops::lifecycle;
use crate::agent::ops::lifecycle::{configures, installs, puts, puts_tls, reloads};
use crate::agent::ops::mu_plugin;
use crate::agent::ops::nginx;
use crate::agent::ops::nginx::NginxServer;
use crate::agent::ops::promises;
use crate::agent::ops::promises::{flow_of, plan_of};
use crate::agent::ops::site;
use crate::agent::ops::ssl;
use crate::agent::ops::webserver::WebServer;
use crate::agent::ops::wordpress;
use crate::agent::plan::{ActionView, StageView, TaskView, VerdictView};
use crate::agent::state::AgentState;
use crate::agent::store::RecordView;
use crate::clock::UtcTime;
use crate::common::models;
use crate::common::models::{CacheSettings, CronMode, WpItemAction};
use crate::common::protocol::{InstallWordpress, Operation, OperationData};
use crate::text;

verus! {

// ---------------------------------------------------------------------------
// Domains
// ---------------------------------------------------------------------------

/// What is joined stands in the joined text.
proof fn lemma_join_has(v: Seq<Seq<char>>, sep: Seq<char>, i: int)
    requires
        0 <= i < v.len(),
    ensures
        text::has(text::join(v, sep), v[i]),
    decreases v.len(),
{
    let none = Seq::<char>::empty();
    if v.len() == 1 {
        effects::lemma_has_middle(none, v[0], none);
        assert(none + v[0] + none =~= v[0]);
    } else if i == v.len() - 1 {
        let front = text::join(v.drop_last(), sep) + sep;
        effects::lemma_has_middle(front, v[i], none);
        assert(front + v[i] + none =~= text::join(v, sep));
    } else {
        let front = text::join(v.drop_last(), sep);
        lemma_join_has(v.drop_last(), sep, i);
        effects::lemma_has_middle(none, front, sep + v.last());
        assert(none + front + (sep + v.last()) =~= text::join(v, sep));
        effects::lemma_has_part(text::join(v, sep), front, v[i]);
    }
}

/// The vhost of a site names every domain of the site.
pub proof fn law_vhost_names_every_domain(
    config: Config,
    server: NginxServer,
    site: RecordView,
    ssl: bool,
    domain: Seq<char>,
)
    requires
        site.domains.contains(domain),
    ensures
        text::has(nginx::spec_render_vhost(server.config, server.caps, site, ssl), domain),
        text::has(nginx::server_names(site), domain),
{
    let i = choose|i: int| 0 <= i < site.domains.len() && site.domains[i] == domain;
    lemma_join_has(site.domains, " "@, i);
    let vhost = nginx::spec_render_vhost(server.config, server.caps, site, ssl);
    let names = nginx::server_names(site);
    nginx::law_vhost_serves_what_the_container_runs(
        server.config,
        server.caps,
        site,
        site.php_version,
        ssl,
    );
    let public = server.config.spec_in_site(site.domain, "public_html"@);
    let back = ";\n    root "@ + public + ";\n    index index.php index.html;"@;
    let part = "    server_name "@ + names + ";\n    root "@ + public
        + ";\n    index index.php index.html;"@;
    effects::lemma_has_middle("    server_name "@, names, back);
    assert("    server_name "@ + names + back =~= part);
    effects::lemma_has_part(vhost, part, names);
    effects::lemma_has_part(vhost, names, domain);
}

/// A list without a domain has all the others.
proof fn lemma_without_domain(domains: Seq<Seq<char>>, domain: Seq<char>, other: Seq<char>)
    ensures
        site::without_domain(domains, domain).contains(other) <==> domains.contains(other) && other
            != domain,
    decreases domains.len(),
{
    if domains.len() > 0 {
        let front = domains.drop_last();
        let rest = site::without_domain(front, domain);
        let last = domains.last();
        lemma_without_domain(front, domain, other);
        assert(domains =~= front.push(last));
        assert(domains.contains(other) <==> front.contains(other) || last == other) by {
            if front.contains(other) {
                let i = choose|i: int| 0 <= i < front.len() && front[i] == other;
                assert(domains[i] == other);
            }
            if last == other {
                assert(domains[domains.len() - 1] == other);
            }
        }
        let out = rest.push(last);
        assert(out.contains(other) <==> rest.contains(other) || last == other) by {
            if rest.contains(other) {
                let i = choose|i: int| 0 <= i < rest.len() && rest[i] == other;
                assert(out[i] == other);
            }
            if last == other {
                assert(out[out.len() - 1] == other);
            }
        }
    }
}

/// The vhost of a site is written and put to use in the first two stages of a plan.
pub open spec fn serves(list: Seq<StageView>, server: NginxServer, site: RecordView, ssl: bool) -> bool {
    &&& list.len() >= 2
    &&& list[0].tasks.len() > 0
    &&& puts(
        list[0].tasks.last().action,
        server.config.spec_vhost_path(site.domain),
        nginx::spec_render_vhost(server.config, server.caps, site, ssl),
    )
    &&& reloads(list[1].tasks)
}

/// The first two stages write and apply a vhost.
proof fn lemma_serves(web: WebServer, name: Seq<char>, site: RecordView, ssl: bool)
    ensures
        serves(site::serve(Seq::empty(), name, web, site, ssl), web->Nginx_0, site, ssl),
{
    lifecycle::lemma_vhost_is_last(web->Nginx_0, site, ssl);
    assert(args_of(NginxServer::spec_reload()[0].action) =~= seq!["-t"@]);
    assert(args_of(NginxServer::spec_reload()[1].action) =~= seq!["reload"@, "nginx"@]);
}

/// A domain that is added to a site is one of the site's domains from then on, beside all
/// that it had, and the vhost that is written names it.
#[verifier::rlimit(40)]
pub proof fn law_added_domain_is_served(
    state: AgentState,
    site_id: i64,
    domain: String,
    fresh: Fresh,
    b: Begun,
)
    requires
        state.store@.contains_key(site_id),
        begins(state, Operation::AddDomain { site_id, domain }, fresh, b),
    ensures
        b is Run,
        ({
            let old = state.store@[site_id];
            let server = state.web->Nginx_0;
            flow_of(b) matches FlowView::Steps(ChangeView::Put(next)) && {
                &&& next == (RecordView { domains: next.domains, ..old })
                &&& forall|d: Seq<char>| #[trigger]
                    next.domains.contains(d) <==> old.domains.contains(d) || d == domain@
                &&& serves(plan_of(b), server, next, false)
                &&& text::has(
                    nginx::spec_render_vhost(server.config, server.caps, next, false),
                    domain@,
                )
            }
        }),
{
    let old = state.store@[site_id];
    let server = state.web->Nginx_0;
    let d = domain@;
    let domains = site::with_domain(old.domains, d);
    let next = RecordView { domains, ..old };
    if !old.domains.contains(d) {
        assert(domains[domains.len() - 1] == d);
    }
    assert forall|e: Seq<char>| #[trigger]
        domains.contains(e) <==> old.domains.contains(e) || e == d by {
        if old.domains.contains(e) {
            let i = choose|i: int| 0 <= i < old.domains.len() && old.domains[i] == e;
            assert(domains[i] == e);
        }
    }
    assert(domains.contains(d));
    law_vhost_names_every_domain(state.config, server, next, false, d);
    lemma_serves(state.web, "Update Nginx vhost"@, next, false);
}

/// A domain that is removed from a site is none of the site's domains from then on, which
/// keeps all others. The primary domain is never removed.
#[verifier::rlimit(40)]
pub proof fn law_removed_domain_is_gone(
    state: AgentState,
    site_id: i64,
    domain: String,
    fresh: Fresh,
    b: Begun,
)
    requires
        state.store@.contains_key(site_id),
        begins(state, Operation::RemoveDomain { site_id, domain }, fresh, b),
    ensures
        b is Run <==> state.store@[site_id].domain != domain@,
        b is Run || b is Answer,
        ({
            let old = state.store@[site_id];
            b is Run ==> (flow_of(b) matches FlowView::Steps(ChangeView::Put(next)) && {
                &&& next == (RecordView { domains: next.domains, ..old })
                &&& forall|d: Seq<char>| #[trigger]
                    next.domains.contains(d) <==> old.domains.contains(d) && d != domain@
                &&& serves(plan_of(b), state.web->Nginx_0, next, false)
            })
        }),
        b matches Begun::Answer(a) ==> !a.success,
{
    let old = state.store@[site_id];
    if b is Run {
        let domains = site::without_domain(old.domains, domain@);
        let next = RecordView { domains, ..old };
        assert forall|d: Seq<char>| #[trigger]
            domains.contains(d) <==> old.domains.contains(d) && d != domain@ by {
            lemma_without_domain(old.domains, domain@, d);
        }
        lemma_serves(state.web, "Update Nginx vhost"@, next, false);
    }
}

// ---------------------------------------------------------------------------
// Certificates
// ---------------------------------------------------------------------------

/// A domain is looked up, and has to point at the address, where one is given.
pub open spec fn looks_up(t: TaskView, domain: Seq<char>, address: Option<Seq<char>>) -> bool {
    &&& runs(t.action, "getent"@)
    &&& args_of(t.action) == seq!["hosts"@, domain]
    &&& t.verdict == (VerdictView::Resolves { domain, address })
}

/// Every domain has a flag before it.
proof fn lemma_domain_args(domains: Seq<Seq<char>>, i: int)
    requires
        0 <= i < domains.len(),
    ensures
        ssl::domain_args(domains).len() == 2 * domains.len(),
        ssl::domain_args(domains)[2 * i] == "-d"@,
        ssl::domain_args(domains)[2 * i + 1] == domains[i],
    decreases domains.len(),
{
    let front = domains.drop_last();
    if front.len() > 0 {
        lemma_domain_args(front, 0);
    } else {
        assert(ssl::domain_args(front).len() == 0);
    }
    if i < front.len() {
        lemma_domain_args(front, i);
    }
}

/// A certificate is asked for a list of domains, under the name of the first, once each
/// of them was looked up.
pub open spec fn certifies_all(
    tasks: Seq<TaskView>,
    wanted: Seq<Seq<char>>,
    address: Option<Seq<char>>,
) -> bool {
    let n = wanted.len() as int;
    &&& tasks.len() == n + 1
    &&& forall|i: int| 0 <= i < n ==> looks_up(#[trigger] tasks[i], wanted[i], address)
    &&& runs(tasks[n].action, "certbot"@)
    &&& args_of(tasks[n].action).contains("certonly"@)
    &&& has_pair(args_of(tasks[n].action), "--cert-name"@, wanted[0])
    &&& forall|i: int|
        0 <= i < n ==> has_pair(args_of(tasks[n].action), "-d"@, #[trigger] wanted[i])
}

/// What issues a certificate covers all of the domains.
proof fn lemma_certifies_all(config: Config, wanted: Seq<Seq<char>>)
    requires
        wanted.len() > 0,
    ensures
        certifies_all(
            ssl::spec_issue(config, wanted),
            wanted,
            text::text_opt(config.public_ip),
        ),
{
    let n = wanted.len() as int;
    let tasks = ssl::spec_issue(config, wanted);
    assert forall|i: int| 0 <= i < n implies looks_up(
        #[trigger] tasks[i],
        wanted[i],
        text::text_opt(config.public_ip),
    ) by {
        assert(args_of(tasks[i].action) =~= seq!["hosts"@, wanted[i]]);
    }
    let args = args_of(tasks[n].action);
    assert(args == ssl::certonly_args(config, wanted));
    assert(args[0] == "certonly"@);
    assert(args[7] == "--cert-name"@ && args[8] == wanted[0]);
    let more = ssl::domain_args(wanted);
    lemma_domain_args(wanted, 0);
    let k = args.len() - more.len();
    assert forall|i: int| 0 <= i < n implies has_pair(args, "-d"@, #[trigger] wanted[i]) by {
        lemma_domain_args(wanted, i);
        assert(args[k + 2 * i] == more[2 * i] && args[k + 2 * i + 1] == more[2 * i + 1]);
    }
}

/// The domains asked for, or all of a site's where none are.
pub open spec fn wanted_domains(asked: Seq<String>, site: RecordView) -> Seq<Seq<char>> {
    if asked.len() > 0 {
        text::texts(asked)
    } else {
        site.domains
    }
}

/// A certificate is asked for all of the domains given, or for all of the site's where
/// none are given, once each of them was looked up; then the vhost with TLS is written
/// and put to use.
#[verifier::rlimit(40)]
pub proof fn law_certificate_covers_the_domains(
    state: AgentState,
    site_id: i64,
    domains: Vec<String>,
    fresh: Fresh,
    b: Begun,
)
    requires
        state.store@.contains_key(site_id),
        begins(state, Operation::IssueCertificate { site_id, domains }, fresh, b),
        wanted_domains(domains@, state.store@[site_id]).len() > 0,
    ensures
        b is Run,
        ({
            let old = state.store@[site_id];
            let server = state.web->Nginx_0;
            let list = plan_of(b);
            let wanted = wanted_domains(domains@, old);
            &&& list.len() == 3
            &&& certifies_all(list[0].tasks, wanted, text::text_opt(state.config.public_ip))
            &&& puts_tls(
                list[1].tasks.last().action,
                server.config.spec_vhost_path(old.domain),
                old.domain,
            )
            &&& reloads(list[2].tasks)
            &&& flow_of(b) == (FlowView::Certificate { domains: wanted })
        }),
{
    let old = state.store@[site_id];
    let list = plan_of(b);
    let wanted = wanted_domains(domains@, old);
    assert(wanted =~= site::certificate_domains(old, text::texts(domains@)));
    lemma_certifies_all(state.config, wanted);
    lifecycle::lemma_vhost_is_last(state.web->Nginx_0, old, true);
    assert(args_of(NginxServer::spec_reload()[0].action) =~= seq!["-t"@]);
    assert(args_of(NginxServer::spec_reload()[1].action) =~= seq!["reload"@, "nginx"@]);
}

/// Renewing renews the certificate that is kept under the site's domain, then puts it to
/// use.
#[verifier::rlimit(40)]
pub proof fn law_renewal_is_put_to_use(state: AgentState, site_id: i64, fresh: Fresh, b: Begun)
    requires
        state.store@.contains_key(site_id),
        begins(state, Operation::RenewCertificate { site_id }, fresh, b),
    ensures
        b is Run,
        ({
            let site = state.store@[site_id];
            let list = plan_of(b);
            &&& list.len() == 2
            &&& runs(list[0].tasks[0].action, "certbot"@)
            &&& args_of(list[0].tasks[0].action)[0] == "renew"@
            &&& has_pair(args_of(list[0].tasks[0].action), "--cert-name"@, site.domain)
            &&& reloads(list[1].tasks)
        }),
{
    let list = plan_of(b);
    let args = args_of(list[0].tasks[0].action);
    assert(args[1] == "--cert-name"@);
    assert(args_of(NginxServer::spec_reload()[0].action) =~= seq!["-t"@]);
    assert(args_of(NginxServer::spec_reload()[1].action) =~= seq!["reload"@, "nginx"@]);
}

/// A certificate is told to be valid for 90 days from now.
#[verifier::rlimit(40)]
pub proof fn law_certificates_last_ninety_days(
    state: AgentState,
    end: RunView,
    now: UtcTime,
    c: Conclusion,
)
    requires
        end.flow is Certificate,
        end.runner.error is None,
        concludes(state, end, now, c),
    ensures
        c is Answer,
        carried(c) matches OperationData::Certificate { domains, expires_at }
            && text::texts(domains@) == end.flow->Certificate_domains && expires_at.secs == now.secs
            + 90 * 24 * 60 * 60,
{
}

// ---------------------------------------------------------------------------
// Caches
// ---------------------------------------------------------------------------

/// New cache settings are remembered, with nothing else of the site changed, and the
/// vhost that is written and put to use follows them; where the site is cached, its zone
/// is declared before that.
#[verifier::rlimit(40)]
pub proof fn law_cache_settings_are_put_to_use(
    state: AgentState,
    site_id: i64,
    settings: CacheSettings,
    fresh: Fresh,
    b: Begun,
)
    requires
        state.store@.contains_key(site_id),
        begins(state, Operation::SetCache { site_id, settings }, fresh, b),
    ensures
        b is Run,
        ({
            let server = state.web->Nginx_0;
            let next = RecordView { cache: settings, ..state.store@[site_id] };
            &&& flow_of(b) == FlowView::Steps(ChangeView::Put(next))
            &&& serves(plan_of(b), server, next, true)
            &&& some(
                plan_of(b),
                |a: ActionView|
                    puts(
                        a,
                        server.spec_cache_zone_path(next.domain),
                        nginx::spec_render_cache_zone(server.config, next),
                    ),
            ) || !settings.fastcgi_cache
            &&& some(
                plan_of(b),
                |a: ActionView|
                    puts(
                        a,
                        mu_plugin::plugin_path(state.config, next.domain),
                        mu_plugin::PLUGIN@,
                    ),
            )
        }),
{
    let server = state.web->Nginx_0;
    let next = RecordView { cache: settings, ..state.store@[site_id] };
    let list = plan_of(b);
    lemma_serves(state.web, "Rewrite Nginx vhost"@, next, true);
    assert(list[0].tasks == server.spec_write_site(next, true));
    let file = server.spec_cache_zone_path(next.domain);
    let zone = nginx::spec_render_cache_zone(server.config, next);
    let declared = |a: ActionView| puts(a, file, zone);
    if settings.fastcgi_cache {
        let w = nginx::write_tasks(file, zone);
        let k = w.len() - 1;
        assert(list[0].tasks[k] == w[k]);
        assert(declared(list[0].tasks[k].action));
        effects::show(list, declared, 0, k);
    }
    let plugin = |a: ActionView|
        puts(a, mu_plugin::plugin_path(state.config, next.domain), mu_plugin::PLUGIN@);
    let k = list[2].tasks.len() - 1;
    assert(plugin(list[2].tasks[k].action));
    effects::show(list, plugin, 2, k);
}

/// Clearing the cache of a site deletes the files in the directory that the site's zone
/// is declared in, and no others, and flushes the object cache of the site's WordPress.
#[verifier::rlimit(40)]
pub proof fn law_clearing_empties_the_sites_own_cache(
    state: AgentState,
    site_id: i64,
    fresh: Fresh,
    b: Begun,
)
    requires
        state.store@.contains_key(site_id),
        begins(state, Operation::ClearCache { site_id }, fresh, b),
    ensures
        b is Run,
        ({
            let site = state.store@[site_id];
            let server = state.web->Nginx_0;
            let list = plan_of(b);
            let dir = server.config.spec_cache_dir(site.domain);
            &&& list.len() == 2
            &&& runs(list[0].tasks[0].action, "find"@)
            &&& args_of(list[0].tasks[0].action) == seq![dir, "-type"@, "f"@, "-delete"@]
            &&& every(list, |a: ActionView| writes(a) matches Some(p) ==> p == dir)
            &&& wp_runs(
                list[1].tasks[0].action,
                site.container(),
                seq!["cache"@, "flush"@],
            )
            &&& text::has(
                nginx::spec_render_cache_zone(server.config, site),
                "fastcgi_cache_path "@ + dir + " "@,
            )
        }),
{
    effects::lemma_programs();
    let site = state.store@[site_id];
    let server = state.web->Nginx_0;
    let list = plan_of(b);
    let dir = server.config.spec_cache_dir(site.domain);
    assert(args_of(list[0].tasks[0].action) =~= seq![dir, "-type"@, "f"@, "-delete"@]);
    promises::lemma_wp(site.container(), seq!["cache"@, "flush"@]);
    let cached = RecordView {
        cache: CacheSettings { fastcgi_cache: true, ..site.cache },
        ..site
    };
    nginx::law_cache_follows_the_settings(server.config, server.caps, cached, false);
    reveal_strlit(" levels=1:2 keys_zone=");
    reveal_strlit(" ");
    let zone = nginx::spec_render_cache_zone(server.config, site);
    assert(zone == nginx::spec_render_cache_zone(server.config, cached));
    let mid = " levels=1:2 keys_zone="@;
    let part = "fastcgi_cache_path "@ + dir + " "@;
    let line = "fastcgi_cache_path "@ + dir + mid + text::swap(site.domain, '.', '_') + ":32m "@;
    assert(mid.take(1) =~= " "@);
    let rest = mid.skip(1) + text::swap(site.domain, '.', '_') + ":32m "@;
    assert(line =~= Seq::<char>::empty() + part + rest);
    effects::lemma_has_middle(Seq::empty(), part, rest);
    effects::lemma_has_part(zone, line, part);
}

/// A URL of the site is purged at its path below the purge location of the site's vhost.
pub proof fn law_urls_are_purged_by_their_path(domain: Seq<char>, rest: Seq<char>)
    ensures
        wordpress::path_of("https://"@ + domain + rest, domain) == rest,
        wordpress::path_of("http://"@ + domain + rest, domain) == rest,
{
    reveal_strlit("https://");
    reveal_strlit("http://");
    let a = "https://"@ + domain;
    let b = "http://"@ + domain;
    let s = a + rest;
    let t = b + rest;
    assert(s.subrange(0, a.len() as int) =~= a);
    assert(s.skip(a.len() as int) =~= rest);
    assert(t.subrange(0, b.len() as int) =~= b);
    assert(t.skip(b.len() as int) =~= rest);
    if text::starts_with(s, b) {
        assert(s.subrange(0, b.len() as int)[4] == b[4]);
    }
}

/// Every URL that is to be purged is asked for once at the purge location, in their
/// order, and where that fails the object cache is flushed; no failure ends the operation.
pub proof fn law_every_url_is_purged(site: RecordView, urls: Seq<Seq<char>>, i: int)
    requires
        0 <= i < urls.len(),
    ensures
        ({
            let list = wordpress::spec_purge_urls(site, urls);
            let a = list[2 * i].tasks[0].action;
            &&& list.len() == 2 * urls.len()
            &&& list[2 * i].tasks.len() == 1
            &&& runs(a, "curl"@)
            &&& from_end(a, 0) == "http://127.0.0.1/wp-panel-purge"@ + wordpress::path_of(
                urls[i],
                site.domain,
            )
            &&& list[2 * i].skip_on_ok == 1
            &&& list[2 * i].on_error is Continue && list[2 * i + 1].on_error is Continue
            &&& wp_runs(
                list[2 * i + 1].tasks[0].action,
                site.container(),
                seq!["eval"@, "wp_cache_flush()"@],
            )
        }),
    decreases urls.len(),
{
    let front = urls.drop_last();
    let before = wordpress::spec_purge_urls(site, front);
    let list = wordpress::spec_purge_urls(site, urls);
    promises::lemma_wp(site.container(), seq!["eval"@, "wp_cache_flush()"@]);
    if front.len() > 0 {
        law_every_url_is_purged(site, front, 0);
    } else {
        assert(before.len() == 0);
    }
    if i < front.len() {
        law_every_url_is_purged(site, front, i);
        assert(list[2 * i] == before[2 * i] && list[2 * i + 1] == before[2 * i + 1]);
    } else {
        let last = wordpress::purge_stages(site, urls.last());
        assert(list[2 * i] == last[0] && list[2 * i + 1] == last[1]);
    }
}

// ---------------------------------------------------------------------------
// WordPress
// ---------------------------------------------------------------------------

/// WordPress is updated, with its database, in the site's own container, and the site's
/// health is asked for after that. Where the host has a repository of its own, the whole
/// site is backed up into it before.
#[verifier::rlimit(40)]
pub proof fn law_update_is_backed_up_first(state: AgentState, site_id: i64, fresh: Fresh, b: Begun)
    requires
        state.store@.contains_key(site_id),
        begins(state, Operation::UpdateWordpress { site_id }, fresh, b),
    ensures
        b is Run,
        ({
            let site = state.store@[site_id];
            let list = plan_of(b);
            let root = state.config.spec_site_root(site.domain);
            &&& first_then(
                list,
                |a: ActionView| wp_runs(a, site.container(), seq!["core"@, "update"@]),
                |a: ActionView| docker_does(a, "inspect"@, site.container()),
            )
            &&& some(
                list,
                |a: ActionView| wp_runs(a, site.container(), seq!["core"@, "update-db"@]),
            )
            &&& state.config.restic_repo matches Some(repo) ==> first_then(
                list,
                |a: ActionView|
                    runs(a, "restic"@) && has_pair(args_of(a), "--repo"@, repo@)
                        && args_of(a).contains("backup"@) && from_end(a, 0) == root,
                |a: ActionView| wp_runs(a, site.container(), seq!["core"@, "update"@]),
            )
            &&& list[0].on_error is Abort && list[1].on_error is Abort
        }),
{
    effects::lemma_programs();
    let site = state.store@[site_id];
    let list = plan_of(b);
    let root = state.config.spec_site_root(site.domain);
    let core = |a: ActionView| wp_runs(a, site.container(), seq!["core"@, "update"@]);
    let data = |a: ActionView| wp_runs(a, site.container(), seq!["core"@, "update-db"@]);
    let asked = |a: ActionView| docker_does(a, "inspect"@, site.container());
    promises::lemma_wp(site.container(), seq!["core"@, "update"@]);
    promises::lemma_wp(site.container(), seq!["core"@, "update-db"@]);
    assert(core(list[1].tasks[0].action));
    assert(data(list[1].tasks[1].action));
    assert(asked(list[2].tasks[0].action));
    effects::show_order(list, core, asked, 1, 0, 2, 0);
    effects::show(list, data, 1, 1);
    if let Some(repo) = state.config.restic_repo {
        let saved = |a: ActionView|
            runs(a, "restic"@) && has_pair(args_of(a), "--repo"@, repo@) && args_of(a).contains(
                "backup"@,
            ) && from_end(a, 0) == root;
        let args = args_of(list[0].tasks[1].action);
        assert(args[0] == "--repo"@ && args[1] == repo@);
        assert(args[4] == "backup"@);
        assert(args[10] == root);
        assert(saved(list[0].tasks[1].action));
        effects::show_order(list, saved, core, 0, 1, 1, 0);
    }
}

/// WordPress is installed in the container of the site asked for, for the administrator
/// asked for, and told to use the database of the site.
#[verifier::rlimit(40)]
pub proof fn law_wordpress_is_installed_as_asked(
    state: AgentState,
    request: InstallWordpress,
    fresh: Fresh,
    b: Begun,
)
    requires
        state.store@.contains_key(request.site_id),
        begins(state, Operation::InstallWordpress(request), fresh, b),
    ensures
        b is Run,
        ({
            let site = state.store@[request.site_id];
            let tasks = plan_of(b)[0].tasks;
            &&& configures(
                tasks[1].action,
                site.container(),
                site.db_name,
                models::identifier_of(site.domain),
                fresh.password@,
            )
            &&& installs(
                tasks[2].action,
                site.container(),
                site.domain,
                request@.admin_user,
                request@.admin_email,
                request@.admin_password,
            )
        }),
{
    let site = state.store@[request.site_id];
    lifecycle::lemma_installs(site, site::local_credentials(site, fresh.password@), request@);
}

/// An operation that asks something of the WordPress of a site.
pub open spec fn wp_site(operation: Operation) -> Option<i64> {
    match operation {
        Operation::WpCli { site_id, .. } => Some(site_id),
        Operation::ListPlugins { site_id } => Some(site_id),
        Operation::ListThemes { site_id } => Some(site_id),
        Operation::ListWpUsers { site_id } => Some(site_id),
        Operation::ListCronEvents { site_id } => Some(site_id),
        Operation::CoreCheckUpdate { site_id } => Some(site_id),
        Operation::PluginAction { site_id, .. } => Some(site_id),
        Operation::ThemeAction { site_id, .. } => Some(site_id),
        Operation::UpdateAllPlugins { site_id } => Some(site_id),
        Operation::ResetWpPassword { site_id, .. } => Some(site_id),
        Operation::RunCronEvent { site_id, .. } => Some(site_id),
        Operation::SetWpCron { site_id, .. } => Some(site_id),
        _ => None,
    }
}

/// WP-CLI runs in a container.
pub open spec fn is_wp(a: ActionView, container: Seq<char>) -> bool {
    &&& runs(a, "docker"@)
    &&& args_of(a).len() > 6
    &&& args_of(a)[0] == "exec"@ && args_of(a)[3] == container && args_of(a)[4] == "wp"@
}

/// A plan whose stages run WP-CLI runs nothing else.
proof fn lemma_all_wp(list: Seq<StageView>, container: Seq<char>)
    requires
        0 < list.len() <= 2,
        forall|i: int|
            0 <= i < list.len() ==> (#[trigger] list[i]).tasks.len() == 1 && is_wp(
                list[i].tasks[0].action,
                container,
            ),
    ensures
        some(list, |a: ActionView| is_wp(a, container)),
        every(list, |a: ActionView| is_wp(a, container)),
{
    effects::show(list, |a: ActionView| is_wp(a, container), 0, 0);
}

/// What is asked of the WordPress of a site runs WP-CLI in the container of that site, and
/// nothing else.
#[verifier::rlimit(40)]
pub proof fn law_wordpress_is_asked_in_its_own_container(
    state: AgentState,
    operation: Operation,
    fresh: Fresh,
    b: Begun,
)
    requires
        begins(state, operation, fresh, b),
        wp_site(operation) is Some,
        b is Run,
    ensures
        state.store@.contains_key(wp_site(operation)->0),
        ({
            let container = state.store@[wp_site(operation)->0].container();
            &&& some(plan_of(b), |a: ActionView| is_wp(a, container))
            &&& every(plan_of(b), |a: ActionView| is_wp(a, container))
        }),
{
    let site = state.store@[wp_site(operation)->0];
    let c = site.container();
    let list = plan_of(b);
    let first = list[0].tasks[0];
    match operation {
        Operation::WpCli { site_id, args } => {
            assert(first == wordpress::wp(c, text::texts(args@)));
            lemma_all_wp(list, c);
        },
        Operation::ListPlugins { site_id } => {
            assert(first == wordpress::spec_list_plugins(c));
            lemma_all_wp(list, c);
        },
        Operation::ListThemes { site_id } => {
            assert(first == wordpress::spec_list_themes(c));
            lemma_all_wp(list, c);
        },
        Operation::ListWpUsers { site_id } => {
            assert(first == wordpress::spec_list_wp_users(c));
            lemma_all_wp(list, c);
        },
        Operation::ListCronEvents { site_id } => {
            assert(first == wordpress::spec_list_cron_events(c));
            lemma_all_wp(list, c);
        },
        Operation::PluginAction { site_id, slug, action } => {
            assert(first == wordpress::item_task(c, "plugin"@, slug@, action));
            lemma_all_wp(list, c);
        },
        Operation::ThemeAction { site_id, slug, action } => {
            assert(first == wordpress::item_task(c, "theme"@, slug@, action));
            lemma_all_wp(list, c);
        },
        Operation::UpdateAllPlugins { site_id } => {
            assert(first == wordpress::spec_update_all_plugins(c));
            lemma_all_wp(list, c);
        },
        Operation::ResetWpPassword { site_id, user_login } => {
            assert(first == wordpress::spec_reset_wp_password(c, user_login@, fresh.wp_password@));
            lemma_all_wp(list, c);
        },
        Operation::RunCronEvent { site_id, hook } => {
            assert(first == wordpress::hook_task(c, hook@));
            lemma_all_wp(list, c);
        },
        Operation::SetWpCron { site_id, mode } => {
            assert(first == wordpress::spec_set_wp_cron(c, mode));
            lemma_all_wp(list, c);
        },
        Operation::CoreCheckUpdate { site_id } => {
            assert(list[1].tasks[0] == wordpress::spec_check_update(c));
            lemma_all_wp(list, c);
        },
        _ => {},
    }
}

/// What is done to a plugin or a theme is done to the one asked for, with the verb that
/// stands for the action; the two kinds are never confused.
#[verifier::rlimit(40)]
pub proof fn law_plugins_and_themes_are_changed_as_asked(
    state: AgentState,
    site_id: i64,
    slug: String,
    action: WpItemAction,
    fresh: Fresh,
    plugin: Begun,
    theme: Begun,
)
    requires
        state.store@.contains_key(site_id),
        begins(state, Operation::PluginAction { site_id, slug, action }, fresh, plugin),
        begins(state, Operation::ThemeAction { site_id, slug, action }, fresh, theme),
        plugin is Run,
    ensures
        theme is Run,
        ({
            let container = state.store@[site_id].container();
            let verb = match action {
                WpItemAction::Activate => "activate"@,
                WpItemAction::Deactivate => "deactivate"@,
                WpItemAction::Update => "update"@,
                WpItemAction::Delete => "delete"@,
            };
            &&& wp_runs(
                plan_of(plugin)[0].tasks[0].action,
                container,
                seq!["plugin"@, verb, slug@],
            )
            &&& wp_runs(plan_of(theme)[0].tasks[0].action, container, seq!["theme"@, verb, slug@])
            &&& forall|i: int|
                0 <= i < slug@.len() ==> text::is_alnum(#[trigger] slug@[i]) || slug@[i] == '.'
                    || slug@[i] == '-' || slug@[i] == '_'
            &&& slug@.len() > 0 && slug@[0] != '-' && slug@[0] != '.'
        }),
{
    let container = state.store@[site_id].container();
    promises::lemma_wp(container, seq!["plugin"@, action.spec_str(), slug@]);
    promises::lemma_wp(container, seq!["theme"@, action.spec_str(), slug@]);
    text::lemma_byte_len(slug@);
}

/// The password that the panel is told is the one that the user asked for was given.
#[verifier::rlimit(40)]
pub proof fn law_told_password_is_the_one_set(
    state: AgentState,
    site_id: i64,
    user_login: String,
    fresh: Fresh,
    b: Begun,
    end: RunView,
    now: UtcTime,
    c: Conclusion,
)
    requires
        state.store@.contains_key(site_id),
        begins(state, Operation::ResetWpPassword { site_id, user_login }, fresh, b),
        end.flow == flow_of(b),
        end.runner.error is None,
        concludes(state, end, now, c),
    ensures
        b is Run,
        c is Answer,
        carried(c) matches OperationData::GeneratedPassword { user_login: login, password }
            && login@ == user_login@ && password@ == fresh.wp_password@ && wp_runs(
            plan_of(b)[0].tasks[0].action,
            state.store@[site_id].container(),
            seq!["user"@, "update"@, login@, "--user_pass="@ + password@],
        ),
{
    promises::lemma_wp(
        state.store@[site_id].container(),
        seq!["user"@, "update"@, user_login@, "--user_pass="@ + fresh.wp_password@],
    );
}

/// WordPress leaves its scheduled events to the host's cron exactly where it is told to,
/// and runs the event asked for.
#[verifier::rlimit(40)]
pub proof fn law_scheduled_events_run_as_asked(
    state: AgentState,
    site_id: i64,
    mode: CronMode,
    hook: String,
    fresh: Fresh,
    b: Begun,
    run: Begun,
)
    requires
        state.store@.contains_key(site_id),
        begins(state, Operation::SetWpCron { site_id, mode }, fresh, b),
        begins(state, Operation::RunCronEvent { site_id, hook }, fresh, run),
    ensures
        b is Run,
        wp_runs(
            plan_of(b)[0].tasks[0].action,
            state.store@[site_id].container(),
            seq![
                "config"@,
                "set"@,
                "DISABLE_WP_CRON"@,
                if mode == CronMode::SystemCron {
                    "true"@
                } else {
                    "false"@
                },
                "--raw"@,
            ],
        ),
        run is Run ==> wp_runs(
            plan_of(run)[0].tasks[0].action,
            state.store@[site_id].container(),
            seq!["cron"@, "event"@, "run"@, hook@],
        ),
{
    let container = state.store@[site_id].container();
    promises::lemma_wp(
        container,
        seq!["config"@, "set"@, "DISABLE_WP_CRON"@, "true"@, "--raw"@],
    );
    promises::lemma_wp(
        container,
        seq!["config"@, "set"@, "DISABLE_WP_CRON"@, "false"@, "--raw"@],
    );
    promises::lemma_wp(container, seq!["cron"@, "event"@, "run"@, hook@]);
}

/// WP-CLI runs a subcommand and a verb of it.
pub open spec fn wp_asks(a: ActionView, container: Seq<char>, what: Seq<char>, verb: Seq<char>) -> bool {
    is_wp(a, container) && args_of(a).len() > 7 && args_of(a)[6] == what && args_of(a)[7] == verb
}

/// What is listed of a site's WordPress is what was asked for, as a document; all plugins
/// are updated where that was asked.
pub proof fn law_lists_hold_what_was_asked_for(container: Seq<char>)
    ensures
        wp_asks(wordpress::spec_list_plugins(container).action, container, "plugin"@, "list"@),
        wp_asks(wordpress::spec_list_themes(container).action, container, "theme"@, "list"@),
        wp_asks(wordpress::spec_list_wp_users(container).action, container, "user"@, "list"@),
        wp_asks(wordpress::spec_list_cron_events(container).action, container, "cron"@, "event"@),
        args_of(wordpress::spec_list_cron_events(container).action)[8] == "list"@,
        args_of(wordpress::spec_list_plugins(container).action).contains("--format=json"@),
        args_of(wordpress::spec_list_themes(container).action).contains("--format=json"@),
        args_of(wordpress::spec_list_wp_users(container).action).contains("--format=json"@),
        args_of(wordpress::spec_list_cron_events(container).action).contains("--format=json"@),
        wp_asks(wordpress::spec_version(container).action, container, "core"@, "version"@),
        wp_asks(
            wordpress::spec_check_update(container).action,
            container,
            "core"@,
            "check-update"@,
        ),
        wp_runs(
            wordpress::spec_update_all_plugins(container).action,
            container,
            seq!["plugin"@, "update"@, "--all"@],
        ),
{
    promises::lemma_wp(container, seq!["plugin"@, "update"@, "--all"@]);
    assert(args_of(wordpress::spec_list_plugins(container).action)[8] == "--format=json"@);
    assert(args_of(wordpress::spec_list_themes(container).action)[8] == "--format=json"@);
    assert(args_of(wordpress::spec_list_wp_users(container).action)[8] == "--format=json"@);
    assert(args_of(wordpress::spec_list_cron_events(container).action)[9] == "--format=json"@);
}

} // verus!
