//! What the operations on a site promise over the site's life, from its creation to its
//! removal.

use vstd::prelude::*;
use crate::agent::config::Config;
use crate::agent::ops::database;
use crate::agent::ops::dispatch::{begins, Begun};
use crate::agent::ops::docker;
use crate::agent::ops::docker::has_pair;
use crate::agent::ops::effects;
use crate::agent::ops::effects::{
    args_of, below, docker_does, every, first_then, from_end, is_name, removes, runs, some,
    starts, writes,
};
use crate::agent::ops::filesystem;
use crate::agent::ops::flow::{ChangeView, FlowView, Fresh};
use crate::agent::ops::mu_plugin;
use crate::agent::ops::nginx;
use crate::agent::ops::nginx::NginxServer;
use crate::agent::ops::promises;
use crate::agent::ops::promises::{flow_of, image_of, makes_database, plan_of};
use crate::agent::ops::site;
use crate::agent::ops::ssl;
use crate::agent::ops::webserver::WebServer;
use crate::agent::ops::wordpress;
use crate::agent::plan;
use crate::agent::plan::{ActionView, OnErrorView, TaskView};
use crate::agent::state::AgentState;
use crate::agent::store;
use crate::agent::store::RecordView;
use crate::common::models;
use crate::common::models::{PhpVersion, ResourceLimits, SiteStatus};
use crate::common::protocol::{CreateSite, InstallView, Operation};
use crate::digits;
use crate::text;

verus! {

// ---------------------------------------------------------------------------
// Creating
// ---------------------------------------------------------------------------

/// A certificate is requested under the name of a domain, for that domain.
pub open spec fn certifies(a: ActionView, domain: Seq<char>) -> bool {
    &&& runs(a, "certbot"@)
    &&& args_of(a).contains("certonly"@)
    &&& has_pair(args_of(a), "--cert-name"@, domain)
    &&& has_pair(args_of(a), "-d"@, domain)
}

/// A file is written.
pub open spec fn puts(a: ActionView, file: Seq<char>, text: Seq<char>) -> bool {
    a matches ActionView::WriteFile { path, contents, .. } && path == file && contents == text
}

/// The vhost of a site is written with TLS: it listens on port 443 and names the
/// certificate that is kept under the site's domain.
pub open spec fn puts_tls(a: ActionView, file: Seq<char>, domain: Seq<char>) -> bool {
    a matches ActionView::WriteFile { path, contents, .. } && path == file && text::has(
        contents,
        "    listen 443 ssl"@,
    ) && text::has(
        contents,
        "ssl_certificate     /etc/letsencrypt/live/"@ + domain + "/fullchain.pem;"@,
    )
}

/// The configuration of Nginx is tested, then applied.
pub open spec fn reloads(tasks: Seq<TaskView>) -> bool {
    &&& tasks.len() >= 2
    &&& runs(tasks[0].action, "nginx"@) && args_of(tasks[0].action) == seq!["-t"@]
    &&& runs(tasks[1].action, "systemctl"@) && args_of(tasks[1].action) == seq![
        "reload"@,
        "nginx"@,
    ]
}

/// The web server writes the vhost of a site last.
pub proof fn lemma_vhost_is_last(server: NginxServer, site: RecordView, ssl: bool)
    ensures
        server.spec_write_site(site, ssl).len() > 0,
        puts(
            server.spec_write_site(site, ssl).last().action,
            server.config.spec_vhost_path(site.domain),
            nginx::spec_render_vhost(server.config, server.caps, site, ssl),
        ),
        ssl ==> puts_tls(
            server.spec_write_site(site, ssl).last().action,
            server.config.spec_vhost_path(site.domain),
            site.domain,
        ),
{
    nginx::law_vhost_has_tls_where_asked(server.config, server.caps, site, ssl);
}

/// What is written for a site without TLS is not the vhost with it.
proof fn lemma_plain_is_plain(server: NginxServer, site: RecordView, j: int)
    requires
        0 <= j < server.spec_write_site(site, false).len(),
    ensures
        ({
            let a = server.spec_write_site(site, false)[j].action;
            a matches ActionView::WriteFile { contents, .. } ==> contents
                != nginx::spec_render_vhost(server.config, server.caps, site, true)
        }),
{
    nginx::law_tls_makes_another_vhost(server.config, server.caps, site);
}

/// The request for a certificate of one domain.
proof fn lemma_certifies(config: Config, domain: Seq<char>)
    ensures
        ssl::spec_issue(config, seq![domain]).len() == 2,
        certifies(ssl::spec_issue(config, seq![domain])[1].action, domain),
{
    let one = seq![domain];
    let args = ssl::certonly_args(config, one);
    let n = args.len() as int;
    assert(one.drop_last() =~= Seq::empty());
    assert(one.last() == domain);
    reveal_with_fuel(ssl::domain_args, 2);
    assert(ssl::domain_args(one) =~= seq!["-d"@, domain]);
    assert(args[0] == "certonly"@);
    assert(args[7] == "--cert-name"@ && args[8] == domain);
    assert(args[n - 2] == "-d"@ && args[n - 1] == domain);
    assert(ssl::spec_issue(config, one)[1].action == plan::command("certbot"@, args));
}

/// Where TLS is requested, a new site gets its certificate, then the vhost with TLS under
/// that certificate, which is tested and applied, and only its health is asked for after
/// that. Where the certificate fails, exactly the stages that put it to use are left out.
/// Where TLS is not requested, no certificate is asked for and nothing but the cache
/// plugin is written that could be the vhost with TLS.
#[verifier::rlimit(40)]
pub proof fn law_new_site_has_tls_where_requested(
    state: AgentState,
    request: CreateSite,
    fresh: Fresh,
    b: Begun,
)
    requires
        begins(state, Operation::CreateSite(request), fresh, b),
    ensures
        b is Run,
        ({
            let server = state.web->Nginx_0;
            let domain = request.domain@;
            let file = server.config.spec_vhost_path(domain);
            let list = plan_of(b);
            let n = list.len() as int;
            &&& flow_of(b) is Created
            &&& if request.request_ssl {
                &&& n > 4
                &&& list[n - 4].tasks.len() > 0
                &&& certifies(list[n - 4].tasks.last().action, domain)
                &&& list[n - 4].on_error matches OnErrorView::Skip { stages, .. } && stages == 2
                &&& list[n - 3].tasks.len() > 0
                &&& puts_tls(list[n - 3].tasks.last().action, file, domain)
                &&& reloads(list[n - 2].tasks)
            } else {
                every(
                    list,
                    |a: ActionView|
                        !runs(a, "certbot"@) && (a matches ActionView::WriteFile {
                            path,
                            contents,
                            ..
                        } ==> path == mu_plugin::plugin_path(state.config, domain) || contents
                            != nginx::spec_render_vhost(
                            server.config,
                            server.caps,
                            flow_of(b)->Created_record,
                            true,
                        )),
                )
            }
            &&& n > 0 && list[n - 1].tasks.len() > 0
            &&& docker_does(
                list[n - 1].tasks[0].action,
                "inspect"@,
                models::container_name_of(domain),
            )
        }),
{
    let server = state.web->Nginx_0;
    let domain = request.domain@;
    let list = plan_of(b);
    let n = list.len() as int;
    let site = flow_of(b)->Created_record;
    let k = if request.install_wordpress {
        5int
    } else {
        4int
    };
    assert(list[n - 1] == site::health_check(site));
    if request.request_ssl {
        assert(n == k + 7);
        assert(list[n - 4] == site::certificate_stage(state.config, site));
        assert(list[n - 3].tasks == server.spec_write_site(site, true));
        assert(list[n - 2].tasks == NginxServer::spec_reload());
        lemma_certifies(state.config, domain);
        assert(site.domains =~= seq![domain]);
        lemma_vhost_is_last(server, site, true);
        assert(args_of(NginxServer::spec_reload()[0].action) =~= seq!["-t"@]);
    } else {
        assert(n == k + 4);
        let p = |a: ActionView|
            !runs(a, "certbot"@) && (a matches ActionView::WriteFile { path, contents, .. } ==> path
                == mu_plugin::plugin_path(state.config, domain) || contents
                != nginx::spec_render_vhost(server.config, server.caps, site, true));
        assert forall|i: int, j: int|
            0 <= i < n && 0 <= j < list[i].tasks.len() implies p(
            (#[trigger] list[i].tasks[j]).action,
        ) by {
            effects::lemma_programs();
            if i == k {
                assert(list[i].tasks == server.spec_write_site(site, false));
                lemma_plain_is_plain(server, site, j);
                promises::lemma_web_writes(state.web, site, false, j);
            } else if i < 4 {
                assert(list[i] == site::provision(state.config, site, fresh.password@)[i]);
            } else if i < k {
                assert(runs(list[i].tasks[j].action, "docker"@));
            }
        }
    }
}

/// A user without a login is made, under a UID.
pub open spec fn adds_user(a: ActionView, uid: u32, name: Seq<char>) -> bool {
    &&& runs(a, "useradd"@)
    &&& has_pair(args_of(a), "--uid"@, digits::dec(uid as nat))
    &&& has_pair(args_of(a), "--shell"@, "/usr/sbin/nologin"@)
    &&& from_end(a, 0) == name
}

/// A tree is handed over to the user with a UID.
pub open spec fn hands_over(a: ActionView, uid: u32, dir: Seq<char>) -> bool {
    let n = digits::dec(uid as nat);
    runs(a, "chown"@) && args_of(a) == seq!["-R"@, n + ":"@ + n, dir]
}

/// WordPress is told what to connect to its database with.
pub open spec fn configures(
    a: ActionView,
    container: Seq<char>,
    name: Seq<char>,
    user: Seq<char>,
    password: Seq<char>,
) -> bool {
    &&& runs(a, "docker"@)
    &&& args_of(a).len() > 7
    &&& args_of(a)[3] == container
    &&& args_of(a)[6] == "config"@ && args_of(a)[7] == "create"@
    &&& args_of(a).contains("--dbname="@ + name)
    &&& args_of(a).contains("--dbuser="@ + user)
    &&& args_of(a).contains("--dbpass="@ + password)
}

/// WordPress is installed at the address of a domain, with an administrator.
pub open spec fn installs(
    a: ActionView,
    container: Seq<char>,
    domain: Seq<char>,
    user: Seq<char>,
    email: Seq<char>,
    password: Seq<char>,
) -> bool {
    &&& runs(a, "docker"@)
    &&& args_of(a).len() > 7
    &&& args_of(a)[3] == container
    &&& args_of(a)[6] == "core"@ && args_of(a)[7] == "install"@
    &&& args_of(a).contains("--url=https://"@ + domain)
    &&& args_of(a).contains("--admin_user="@ + user)
    &&& args_of(a).contains("--admin_email="@ + email)
    &&& args_of(a).contains("--admin_password="@ + password)
}

/// What an installation of WordPress configures and installs.
pub proof fn lemma_installs(site: RecordView, c: database::CredentialsView, i: InstallView)
    ensures
        ({
            let tasks = wordpress::spec_install(site, c, i);
            &&& tasks.len() == 6
            &&& configures(tasks[1].action, site.container(), c.name, c.user, c.password)
            &&& args_of(tasks[1].action).contains("--dbhost="@ + c.host)
            &&& installs(
                tasks[2].action,
                site.container(),
                site.domain,
                i.admin_user,
                i.admin_email,
                i.admin_password,
            )
            &&& forall|j: int| 0 <= j < 6 ==> runs((#[trigger] tasks[j]).action, "docker"@)
        }),
{
    let tasks = wordpress::spec_install(site, c, i);
    let one = args_of(tasks[1].action);
    assert(one[8] == "--dbname="@ + c.name && one[9] == "--dbuser="@ + c.user);
    assert(one[10] == "--dbpass="@ + c.password && one[11] == "--dbhost="@ + c.host);
    let two = args_of(tasks[2].action);
    assert(two[8] == "--url=https://"@ + site.domain);
    assert(two[10] == "--admin_user="@ + i.admin_user);
    assert(two[11] == "--admin_email="@ + i.admin_email);
    assert(two[12] == "--admin_password="@ + i.admin_password);
}

/// A new site gets a user of its own, who owns its directory; a database under the site's
/// name; a container with the PHP version asked for, run as that user; and a vhost. What
/// is remembered of the site is what was asked for.
#[verifier::rlimit(40)]
pub proof fn law_new_site_is_what_was_requested(
    state: AgentState,
    request: CreateSite,
    fresh: Fresh,
    b: Begun,
)
    requires
        begins(state, Operation::CreateSite(request), fresh, b),
    ensures
        b is Run,
        ({
            let server = state.web->Nginx_0;
            let domain = request.domain@;
            let root = state.config.spec_site_root(domain);
            let list = plan_of(b);
            let site = flow_of(b)->Created_record;
            let name = models::identifier_of(domain);
            let secret = fresh.password@;
            &&& site.site_id == request.site_id && site.domain == domain
            &&& site.php_version == request.php_version && site.database_mode
                == request.database_mode
            &&& site.limits == request.limits && site.cache == request.cache
            &&& site.domains == seq![domain] && site.status == SiteStatus::Provisioning
            &&& first_then(
                list,
                |a: ActionView| adds_user(a, site.uid, name),
                |a: ActionView| hands_over(a, site.uid, root),
            )
            &&& first_then(
                list,
                |a: ActionView| hands_over(a, site.uid, root),
                |a: ActionView| makes_database(a, name, name, secret),
            )
            &&& first_then(
                list,
                |a: ActionView| makes_database(a, name, name, secret),
                |a: ActionView| starts_as(a, domain, request.php_version, site.uid),
            )
            &&& some(
                list,
                |a: ActionView|
                    puts(
                        a,
                        server.config.spec_vhost_path(domain),
                        nginx::spec_render_vhost(server.config, server.caps, site, false),
                    ),
            )
        }),
{
    let site = flow_of(b)->Created_record;
    assert(site.domains =~= seq![request.domain@]);
    lemma_provisions(
        state.config,
        state.web,
        site,
        fresh.password@,
        site::wanted_install(request, fresh.other_password@),
        request.request_ssl,
    );
}

/// The container of a site is started with a PHP version, as the user with a UID.
pub open spec fn starts_as(a: ActionView, domain: Seq<char>, version: PhpVersion, uid: u32) -> bool {
    starts(a, docker::spec_container_name(domain, version), image_of(version)) && has_pair(
        args_of(a),
        "--user"@,
        digits::dec(uid as nat) + ":"@ + digits::dec(uid as nat),
    )
}

/// The container of a site is started for the site.
pub proof fn lemma_starts_as(config: Config, site: RecordView, version: PhpVersion)
    ensures
        starts_as(
            plan::command("docker"@, docker::start_args(config, site, version)),
            site.domain,
            version,
            site.uid,
        ),
{
    let args = docker::start_args(config, site, version);
    let uid = digits::dec(site.uid as nat);
    assert(args[4] == "--name"@ && args[5] == docker::spec_container_name(site.domain, version));
    assert(args[6] == "--user"@ && args[7] == uid + ":"@ + uid);
}

/// What the plan of a new site provides.
proof fn lemma_provisions(
    config: Config,
    web: WebServer,
    site: RecordView,
    secret: Seq<char>,
    install: Option<InstallView>,
    request_ssl: bool,
)
    ensures
        ({
            let list = site::create_plan(config, web, site, secret, install, request_ssl);
            let server = web->Nginx_0;
            let root = config.spec_site_root(site.domain);
            let name = models::identifier_of(site.domain);
            &&& first_then(
                list,
                |a: ActionView| adds_user(a, site.uid, name),
                |a: ActionView| hands_over(a, site.uid, root),
            )
            &&& first_then(
                list,
                |a: ActionView| hands_over(a, site.uid, root),
                |a: ActionView| makes_database(a, name, name, secret),
            )
            &&& first_then(
                list,
                |a: ActionView| makes_database(a, name, name, secret),
                |a: ActionView| starts_as(a, site.domain, site.php_version, site.uid),
            )
            &&& some(
                list,
                |a: ActionView|
                    puts(
                        a,
                        server.config.spec_vhost_path(site.domain),
                        nginx::spec_render_vhost(server.config, server.caps, site, false),
                    ),
            )
        }),
{
    let list = site::create_plan(config, web, site, secret, install, request_ssl);
    let server = web->Nginx_0;
    let root = config.spec_site_root(site.domain);
    let name = models::identifier_of(site.domain);
    let uid = digits::dec(site.uid as nat);
    let made_user = |a: ActionView| adds_user(a, site.uid, name);
    let owned = |a: ActionView| hands_over(a, site.uid, root);
    let made = |a: ActionView| makes_database(a, name, name, secret);
    let begun = |a: ActionView| starts_as(a, site.domain, site.php_version, site.uid);
    let served = |a: ActionView|
        puts(
            a,
            server.config.spec_vhost_path(site.domain),
            nginx::spec_render_vhost(server.config, server.caps, site, false),
        );
    let base = site::provision(config, site, secret);
    assert(forall|i: int| 0 <= i < 4 ==> list[i] == base[i]);
    let add = args_of(base[0].tasks[0].action);
    assert(add[4] == "--uid"@ && add[5] == uid);
    assert(add[2] == "--shell"@ && add[3] == "/usr/sbin/nologin"@);
    assert(made_user(list[0].tasks[0].action));
    assert(args_of(base[1].tasks[4].action) =~= seq!["-R"@, uid + ":"@ + uid, root]);
    assert(owned(list[1].tasks[4].action));
    promises::lemma_makes_database(config, site, secret);
    assert(made(list[2].tasks[0].action));
    lemma_starts_as(config, site, site.php_version);
    assert(begun(list[3].tasks[0].action));
    effects::show_order(list, made_user, owned, 0, 0, 1, 4);
    effects::show_order(list, owned, made, 1, 4, 2, 0);
    effects::show_order(list, made, begun, 2, 0, 3, 0);
    let k = if install is Some {
        5int
    } else {
        4int
    };
    assert(list[k].tasks == server.spec_write_site(site, false));
    lemma_vhost_is_last(server, site, false);
    effects::show(list, served, k, list[k].tasks.len() - 1);
}

/// WordPress is installed on a new site exactly where that was asked for: at the site's
/// address, for the administrator asked for, or else for one with a password of its own.
/// It is told to use the database that was made for the site, with that database's
/// password, once the container runs.
#[verifier::rlimit(40)]
pub proof fn law_wordpress_is_installed_where_requested(
    state: AgentState,
    request: CreateSite,
    fresh: Fresh,
    b: Begun,
)
    requires
        begins(state, Operation::CreateSite(request), fresh, b),
    ensures
        b is Run,
        ({
            let domain = request.domain@;
            let list = plan_of(b);
            let site = flow_of(b)->Created_record;
            let name = models::identifier_of(domain);
            let container = models::container_name_of(domain);
            let (user, email, password) = match request.wordpress {
                Some(i) => (i@.admin_user, i@.admin_email, i@.admin_password),
                None => ("admin"@, "admin@"@ + domain, fresh.other_password@),
            };
            &&& request.install_wordpress ==> first_then(
                list,
                |a: ActionView| starts_as(a, domain, request.php_version, site.uid),
                |a: ActionView| configures(a, container, name, name, fresh.password@),
            )
            &&& request.install_wordpress ==> some(
                list,
                |a: ActionView| installs(a, container, domain, user, email, password),
            )
            &&& !request.install_wordpress ==> every(
                list,
                |a: ActionView|
                    !(runs(a, "docker"@) && args_of(a).len() > 6 && args_of(a)[6] == "core"@),
            )
        }),
{
    let site = flow_of(b)->Created_record;
    lemma_install_stage(
        state.config,
        state.web,
        site,
        fresh.password@,
        site::wanted_install(request, fresh.other_password@),
        request.request_ssl,
    );
}

/// The plan of a new site installs WordPress where it is to.
#[verifier::rlimit(40)]
proof fn lemma_install_stage(
    config: Config,
    web: WebServer,
    site: RecordView,
    secret: Seq<char>,
    install: Option<InstallView>,
    request_ssl: bool,
)
    ensures
        ({
            let list = site::create_plan(config, web, site, secret, install, request_ssl);
            let name = models::identifier_of(site.domain);
            let container = site.container();
            match install {
                Some(i) => {
                    &&& first_then(
                        list,
                        |a: ActionView| starts_as(a, site.domain, site.php_version, site.uid),
                        |a: ActionView| configures(a, container, name, name, secret),
                    )
                    &&& some(
                        list,
                        |a: ActionView|
                            installs(
                                a,
                                container,
                                site.domain,
                                i.admin_user,
                                i.admin_email,
                                i.admin_password,
                            ),
                    )
                },
                None => every(
                    list,
                    |a: ActionView|
                        !(runs(a, "docker"@) && args_of(a).len() > 6 && args_of(a)[6] == "core"@),
                ),
            }
        }),
{
    let list = site::create_plan(config, web, site, secret, install, request_ssl);
    let n = list.len() as int;
    let name = models::identifier_of(site.domain);
    let container = site.container();
    let base = site::provision(config, site, secret);
    assert(forall|i: int| 0 <= i < 4 ==> list[i] == base[i]);
    match install {
        Some(i) => {
            let begun = |a: ActionView| starts_as(a, site.domain, site.php_version, site.uid);
            let told = |a: ActionView| configures(a, container, name, name, secret);
            let put = |a: ActionView|
                installs(
                    a,
                    container,
                    site.domain,
                    i.admin_user,
                    i.admin_email,
                    i.admin_password,
                );
            let c = database::credentials_of(site, secret);
            lemma_installs(site, c, i);
            assert(list[4] == site::install_stage(site, secret, i));
            assert(told(list[4].tasks[1].action));
            assert(put(list[4].tasks[2].action));
            lemma_starts_as(config, site, site.php_version);
            assert(begun(list[3].tasks[0].action));
            effects::show_order(list, begun, told, 3, 0, 4, 1);
            effects::show(list, put, 4, 2);
        },
        None => {
            let cored = |a: ActionView|
                runs(a, "docker"@) && args_of(a).len() > 6 && args_of(a)[6] == "core"@;
            effects::lemma_programs();
            reveal_strlit("core");
            reveal_strlit("--user");
            reveal_strlit("--memory");
            assert forall|i: int, j: int|
                0 <= i < n && 0 <= j < list[i].tasks.len() implies !cored(
                (#[trigger] list[i].tasks[j]).action,
            ) by {
                let a = list[i].tasks[j].action;
                if i == 4 {
                    promises::lemma_web_writes(web, site, false, j);
                } else if i == 7 && request_ssl {
                    lemma_issue_programs(config, site.domains, j);
                } else if i == 8 && request_ssl {
                    promises::lemma_web_writes(web, site, true, j);
                } else if i == 2 {
                    if site.database_mode is Dedicated {
                        assert(args_of(a)[6] == "--memory"@);
                    }
                } else if i == 3 {
                    assert(args_of(a)[6] == "--user"@);
                }
            }
        },
    }
}

/// Nothing that issues a certificate runs in a container.
#[verifier::rlimit(40)]
proof fn lemma_issue_programs(config: Config, domains: Seq<Seq<char>>, j: int)
    requires
        0 <= j < ssl::spec_issue(config, domains).len(),
    ensures
        !runs(ssl::spec_issue(config, domains)[j].action, "docker"@),
{
    effects::lemma_programs();
}

// ---------------------------------------------------------------------------
// Removing
// ---------------------------------------------------------------------------

/// The user of a site is removed.
pub open spec fn removes_user(a: ActionView, name: Seq<char>) -> bool {
    runs(a, "userdel"@) && args_of(a) == seq![name]
}

/// A deleted site loses its container, its vhost, its database, its user and its files,
/// and is forgotten. Nothing is removed outside of its own directory. With its backups
/// kept, they stay, and the rest of its files goes; else its whole directory goes.
#[verifier::rlimit(40)]
pub proof fn law_deleted_site_leaves_nothing_but_its_backups(
    state: AgentState,
    site_id: i64,
    keep_backups: bool,
    fresh: Fresh,
    b: Begun,
)
    requires
        begins(state, Operation::DeleteSite { site_id, keep_backups }, fresh, b),
        state.store@.contains_key(site_id),
        is_name(state.store@[site_id].domain),
    ensures
        b is Run,
        ({
            let server = state.web->Nginx_0;
            let site = state.store@[site_id];
            let root = state.config.spec_site_root(site.domain);
            let list = plan_of(b);
            let name = models::identifier_of(site.domain);
            &&& some(list, |a: ActionView| docker_does(a, "rm"@, site.container()))
            &&& some(
                list,
                |a: ActionView|
                    a == ActionView::RemoveFile(server.config.spec_vhost_path(site.domain)),
            )
            &&& some(list, |a: ActionView| a == database::spec_drop(site)[0].action)
            &&& some(list, |a: ActionView| removes_user(a, name))
            &&& every(list, |a: ActionView| runs(a, "rm"@) ==> below(args_of(a).last(), root))
            &&& keep_backups ==> every(
                list,
                |a: ActionView| runs(a, "rm"@) ==> !below(root + "/backups"@, args_of(a).last()),
            ) && some(list, |a: ActionView| removes(a, root + "/public_html"@)) && some(
                list,
                |a: ActionView| removes(a, root + "/logs"@),
            ) && some(list, |a: ActionView| removes(a, root + "/tmp"@))
            &&& !keep_backups ==> some(list, |a: ActionView| removes(a, root))
            &&& flow_of(b) == FlowView::Steps(ChangeView::Remove(site_id))
            &&& forall|i: int| 0 <= i < list.len() ==> plan::strict(#[trigger] list[i])
        }),
{
    effects::lemma_programs();
    reveal_strlit("/");
    reveal_strlit("public_html");
    reveal_strlit("logs");
    reveal_strlit("tmp");
    reveal_strlit("/public_html");
    reveal_strlit("/logs");
    reveal_strlit("/tmp");
    reveal_strlit("/backups");
    let server = state.web->Nginx_0;
    let site = state.store@[site_id];
    let root = state.config.spec_site_root(site.domain);
    let list = plan_of(b);
    let name = models::identifier_of(site.domain);
    effects::lemma_in_site(state.config, site.domain, "public_html"@);
    effects::lemma_in_site(state.config, site.domain, "logs"@);
    effects::lemma_in_site(state.config, site.domain, "tmp"@);
    let public = root + "/public_html"@;
    let logs = root + "/logs"@;
    let tmp = root + "/tmp"@;
    assert(state.config.spec_in_site(site.domain, "public_html"@) =~= public);
    assert(state.config.spec_in_site(site.domain, "logs"@) =~= logs);
    assert(state.config.spec_in_site(site.domain, "tmp"@) =~= tmp);
    let stopped = |a: ActionView| docker_does(a, "rm"@, site.container());
    let hidden = |a: ActionView|
        a == ActionView::RemoveFile(server.config.spec_vhost_path(site.domain));
    let dropped = |a: ActionView| a == database::spec_drop(site)[0].action;
    let gone = |a: ActionView| removes_user(a, name);
    assert(list == site::delete_plan(state.config, state.web, site, keep_backups));
    assert(stopped(list[0].tasks[0].action));
    effects::show(list, stopped, 0, 0);
    assert(hidden(list[1].tasks[0].action));
    effects::show(list, hidden, 1, 0);
    assert(dropped(list[3].tasks[0].action));
    effects::show(list, dropped, 3, 0);
    assert(args_of(list[5].tasks[0].action) =~= seq![name]);
    assert(gone(list[5].tasks[0].action));
    effects::show(list, gone, 5, 0);
    let files = filesystem::spec_remove_tree(state.config, site.domain, keep_backups);
    assert(list[4].tasks == files);
    if keep_backups {
        let a = |a: ActionView| removes(a, public);
        let c = |a: ActionView| removes(a, logs);
        let d = |a: ActionView| removes(a, tmp);
        assert(a(list[4].tasks[0].action));
        effects::show(list, a, 4, 0);
        assert(c(list[4].tasks[1].action));
        effects::show(list, c, 4, 1);
        assert(d(list[4].tasks[2].action));
        effects::show(list, d, 4, 2);
    } else {
        let a = |a: ActionView| removes(a, root);
        assert(a(list[4].tasks[0].action));
        effects::show(list, a, 4, 0);
    }
    let kept = root + "/backups"@;
    assert forall|i: int, j: int|
        0 <= i < list.len() && 0 <= j < list[i].tasks.len() implies ({
        let a = (#[trigger] list[i].tasks[j]).action;
        runs(a, "rm"@) ==> below(args_of(a).last(), root) && (keep_backups ==> !below(
            kept,
            args_of(a).last(),
        ))
    }) by {
        let a = list[i].tasks[j].action;
        if i == 4 && keep_backups {
            let dir = args_of(a).last();
            if below(kept, dir) {
                effects::lemma_begins(kept, dir);
                let at = root.len() as int + 1;
                assert(kept[at] == 'b');
                assert(dir[at] != 'b');
            }
        } else if i == 3 {
            assert(!runs(a, "rm"@));
        }
    }
}

// ---------------------------------------------------------------------------
// Running
// ---------------------------------------------------------------------------

/// Starting a site starts its own container, with its own PHP version, and asks whether
/// it runs.
#[verifier::rlimit(40)]
pub proof fn law_sites_are_started(state: AgentState, site_id: i64, fresh: Fresh, b: Begun)
    requires
        state.store@.contains_key(site_id),
        begins(state, Operation::StartSite { site_id }, fresh, b),
    ensures
        b is Run,
        ({
            let site = state.store@[site_id];
            &&& first_then(
                plan_of(b),
                |a: ActionView| starts_as(a, site.domain, site.php_version, site.uid),
                |a: ActionView| docker_does(a, "inspect"@, site.container()),
            )
            &&& flow_of(b) == FlowView::Started { record: site }
        }),
{
    let site = state.store@[site_id];
    let list = plan_of(b);
    let begun = |a: ActionView| starts_as(a, site.domain, site.php_version, site.uid);
    let asked = |a: ActionView| docker_does(a, "inspect"@, site.container());
    lemma_starts_as(state.config, site, site.php_version);
    assert(begun(list[0].tasks[0].action));
    assert(asked(list[1].tasks[0].action));
    effects::show_order(list, begun, asked, 0, 0, 1, 0);
}

/// Stopping a site stops its own container and does nothing else; the site is remembered
/// as stopped, and otherwise as it was.
#[verifier::rlimit(40)]
pub proof fn law_sites_are_stopped(state: AgentState, site_id: i64, fresh: Fresh, b: Begun)
    requires
        state.store@.contains_key(site_id),
        begins(state, Operation::StopSite { site_id }, fresh, b),
    ensures
        b is Run,
        ({
            let site = state.store@[site_id];
            &&& some(plan_of(b), |a: ActionView| docker_does(a, "stop"@, site.container()))
            &&& every(plan_of(b), |a: ActionView| docker_does(a, "stop"@, site.container()))
            &&& flow_of(b) matches FlowView::Steps(ChangeView::Put(next)) && next.status
                == SiteStatus::Stopped && next == (RecordView { status: next.status, ..site })
        }),
{
    let site = state.store@[site_id];
    let list = plan_of(b);
    let halted = |a: ActionView| docker_does(a, "stop"@, site.container());
    assert(halted(list[0].tasks[0].action));
    effects::show(list, halted, 0, 0);
}

/// Restarting a site restarts its own container and asks whether it runs; nothing is
/// written, and the site is remembered as it was.
#[verifier::rlimit(40)]
pub proof fn law_sites_are_restarted(state: AgentState, site_id: i64, fresh: Fresh, b: Begun)
    requires
        state.store@.contains_key(site_id),
        begins(state, Operation::RestartSite { site_id }, fresh, b),
    ensures
        b is Run,
        ({
            let site = state.store@[site_id];
            &&& first_then(
                plan_of(b),
                |a: ActionView| docker_does(a, "restart"@, site.container()),
                |a: ActionView| docker_does(a, "inspect"@, site.container()),
            )
            &&& every(plan_of(b), |a: ActionView| runs(a, "docker"@) && writes(a) is None)
            &&& flow_of(b) == FlowView::Steps(ChangeView::Keep)
        }),
{
    effects::lemma_programs();
    let site = state.store@[site_id];
    let list = plan_of(b);
    let again = |a: ActionView| docker_does(a, "restart"@, site.container());
    let asked = |a: ActionView| docker_does(a, "inspect"@, site.container());
    assert(again(list[0].tasks[0].action));
    assert(asked(list[1].tasks[0].action));
    effects::show_order(list, again, asked, 0, 0, 1, 0);
}

/// The limits that a running container gets are those that it would be started with from
/// then on, and are remembered; nothing else of the site changes.
#[verifier::rlimit(40)]
pub proof fn law_new_limits_outlive_the_container(
    state: AgentState,
    site_id: i64,
    limits: ResourceLimits,
    fresh: Fresh,
    b: Begun,
    version: PhpVersion,
)
    requires
        state.store@.contains_key(site_id),
        begins(state, Operation::SetLimits { site_id, limits }, fresh, b),
    ensures
        b is Run,
        ({
            let site = state.store@[site_id];
            let next = RecordView { limits, ..site };
            let args = docker::start_args(state.config, next, version);
            let now = plan_of(b)[0].tasks[0].action;
            &&& flow_of(b) == FlowView::Steps(ChangeView::Put(next))
            &&& docker_does(now, "update"@, site.container())
            &&& exists|cpus: Seq<char>|
                has_pair(args_of(now), "--cpus"@, cpus) && has_pair(args, "--cpus"@, cpus)
            &&& has_pair(
                args_of(now),
                "--memory"@,
                digits::dec(limits.memory_mb as nat) + "m"@,
            )
            &&& has_pair(args, "--memory"@, digits::dec(limits.memory_mb as nat) + "m"@)
            &&& has_pair(
                args,
                "--env"@,
                "PHP_FPM_MAX_CHILDREN="@ + digits::dec(limits.php_workers as nat),
            )
        }),
{
    let site = state.store@[site_id];
    let next = RecordView { limits, ..site };
    let args = docker::start_args(state.config, next, version);
    let now = args_of(plan_of(b)[0].tasks[0].action);
    let cpus = limits.cpus();
    assert(args[8] == "--cpus"@ && args[9] == cpus);
    assert(args[10] == "--memory"@);
    assert(args[29] == "--env"@);
    assert(now[1] == "--cpus"@ && now[2] == cpus);
    assert(now[3] == "--memory"@);
    assert(has_pair(now, "--cpus"@, cpus) && has_pair(args, "--cpus"@, cpus));
}

/// The share of the processor is written so that it reads back: the cores before the
/// point, and two digits for the hundredths after it.
pub proof fn law_processor_share_is_read_back(limits: ResourceLimits)
    ensures
        ({
            let s = limits.cpus();
            let n = s.len() as int;
            &&& n >= 4
            &&& s[n - 3] == '.'
            &&& digits::all_digits(s.take(n - 3)) && digits::all_digits(s.skip(n - 2))
            &&& digits::value(s.take(n - 3)) * 100 + digits::value(s.skip(n - 2))
                == limits.cpu_hundredths
        }),
{
    reveal_strlit(".");
    let whole = (limits.cpu_hundredths / 100) as nat;
    let part = (limits.cpu_hundredths % 100) as nat;
    digits::lemma_dec(whole);
    digits::lemma_dec2(part);
    let s = limits.cpus();
    let n = s.len() as int;
    assert(s.take(n - 3) =~= digits::dec(whole));
    assert(s.skip(n - 2) =~= digits::dec2(part));
}

/// Only directories of the site's own are mounted into its container.
pub proof fn law_only_the_sites_own_files_are_mounted(
    config: Config,
    site: RecordView,
    version: PhpVersion,
)
    requires
        is_name(site.domain),
    ensures
        ({
            let args = docker::start_args(config, site, version);
            forall|i: int|
                0 <= i < args.len() - 1 && #[trigger] args[i] == "--volume"@ ==> below(
                    args[i + 1],
                    config.spec_site_root(site.domain),
                )
        }),
{
    reveal_strlit("--volume");
    reveal_strlit("public_html");
    reveal_strlit("logs");
    reveal_strlit("tmp");
    reveal_strlit("/");
    effects::lemma_in_site(config, site.domain, "public_html"@);
    effects::lemma_in_site(config, site.domain, "logs"@);
    effects::lemma_in_site(config, site.domain, "tmp"@);
    let args = docker::start_args(config, site, version);
    let root = config.spec_site_root(site.domain);
    let front = root + "/"@;
    assert(args[24].subrange(0, front.len() as int) =~= front);
    assert(args[26].subrange(0, front.len() as int) =~= front);
    assert(args[28].subrange(0, front.len() as int) =~= front);
    lemma_volume_flags(config, site, version);
}

/// Where the flags for mounts stand.
proof fn lemma_volume_flags(config: Config, site: RecordView, version: PhpVersion)
    ensures
        ({
            let args = docker::start_args(config, site, version);
            forall|i: int|
                0 <= i < args.len() - 1 && #[trigger] args[i] == "--volume"@ ==> i == 23 || i == 25
                    || i == 27
        }),
{
    reveal_strlit("--volume");
    reveal_strlit("run");
    reveal_strlit("--detach");
    reveal_strlit("--restart");
    reveal_strlit("unless-stopped");
    reveal_strlit("--name");
    reveal_strlit("wp-");
    reveal_strlit("--user");
    reveal_strlit("--cpus");
    reveal_strlit("--memory");
    reveal_strlit("--memory-swap");
    reveal_strlit("--pids-limit");
    reveal_strlit("512");
    reveal_strlit("--security-opt");
    reveal_strlit("no-new-privileges");
    reveal_strlit("--cap-drop");
    reveal_strlit("ALL");
    reveal_strlit("--read-only");
    reveal_strlit("--tmpfs");
    reveal_strlit("/tmp:rw,noexec,nosuid,size=128m");
    reveal_strlit("--env");
    reveal_strlit("PHP_FPM_MAX_CHILDREN=");
    reveal_strlit("PHP_FPM_UID=");
    reveal_strlit("--label");
    reveal_strlit("wp-panel.site=");
    reveal_strlit("wp-panel.php=");
    reveal_strlit("wp-panel/php-fpm:");
    let args = docker::start_args(config, site, version);
    let flag = "--volume"@;
    digits::lemma_dec(site.uid as nat);
    digits::lemma_dec((site.limits.cpu_hundredths / 100) as nat);
    digits::lemma_dec(site.limits.memory_mb as nat);
    assert(flag.len() == 8 && flag[0] == '-' && flag[2] == 'v');
    assert(text::is_digit(args[7][0]));
    assert(text::is_digit(args[9][0]));
    assert(text::is_digit(args[11][0]));
    assert(text::is_digit(args[13][0]));
    assert(args[5][0] == 'w');
    assert(args[30][0] == 'P' && args[32][0] == 'P');
    assert(args[34][0] == 'w' && args[36][0] == 'w');
    lemma_mounts_are_no_flags(config, site, version);
}

/// What is mounted ends in the name of a place in the container.
proof fn lemma_mounts_are_no_flags(config: Config, site: RecordView, version: PhpVersion)
    ensures
        ({
            let args = docker::start_args(config, site, version);
            args[24] != "--volume"@ && args[26] != "--volume"@ && args[28] != "--volume"@
        }),
{
    reveal_strlit("--volume");
    reveal_strlit(":/var/www/html");
    reveal_strlit(":/var/log/php");
    reveal_strlit(":/run/php");
    let args = docker::start_args(config, site, version);
    let flag = "--volume"@;
    assert(args[24].last() == 'l' && args[24].len() > 8);
    assert(args[26].last() == 'p');
    assert(args[28].last() == 'p');
    assert(flag.last() == 'e');
}

/// The container that is remembered for a new site is the one that its plan starts.
#[verifier::rlimit(40)]
pub proof fn law_new_container_is_remembered(
    state: AgentState,
    request: CreateSite,
    fresh: Fresh,
    b: Begun,
)
    requires
        begins(state, Operation::CreateSite(request), fresh, b),
    ensures
        b is Run,
        flow_of(b) matches FlowView::Created { record, container_stage, remember } && remember
            && starts_as(
            plan_of(b)[container_stage].tasks[0].action,
            request.domain@,
            request.php_version,
            record.uid,
        ),
{
    let site = flow_of(b)->Created_record;
    let base = site::provision(state.config, site, fresh.password@);
    assert(plan_of(b)[3] == base[3]);
    lemma_starts_as(state.config, site, site.php_version);
}

/// A new site has a UID that no site has, at or above the first that sites get.
#[verifier::rlimit(40)]
pub proof fn law_new_site_has_a_uid_of_its_own(
    state: AgentState,
    request: CreateSite,
    fresh: Fresh,
    b: Begun,
)
    requires
        begins(state, Operation::CreateSite(request), fresh, b),
        state.has_room(),
    ensures
        b is Run,
        ({
            let uid = (flow_of(b)->Created_record).uid;
            &&& state.config.uid_base <= uid
            &&& forall|id: i64| #[trigger]
                state.store@.contains_key(id) ==> state.store@[id].uid != uid
        }),
{
    store::law_next_uid_is_the_lowest_unused(state.store, state.config.uid_base, 0);
    let uid = (flow_of(b)->Created_record).uid;
    assert forall|id: i64| #[trigger] state.store@.contains_key(id) implies state.store@[id].uid
        != uid by {
        if state.store@[id].uid == uid {
            assert(state.store.uses(uid));
        }
    }
}

} // verus!
