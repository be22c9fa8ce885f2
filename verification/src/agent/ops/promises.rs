//! What the operations of the agent promise as a whole: stated of what is asked of the
//! host, in terms of what was asked of the agent.

use vstd::prelude::*;
use crate::agent::config::Config;
use crate::agent::exec;
use crate::agent::ops::backup;
use crate::agent::ops::database;
use crate::agent::ops::dispatch::{begins, concludes, Begun, Conclusion};
use crate::agent::ops::docker;
use crate::agent::ops::docker::has_pair;
use crate::agent::ops::effects;
use crate::agent::ops::effects::{
    args_of, below, copies, docker_does, dumps, ends_with, every, first_then, from_end, is_name,
    loads, removes, runs, script_of, some, starts, wp_runs, writes,
};
use crate::agent::ops::filesystem;
use crate::agent::ops::flow::{ChangeView, FlowView, Fresh, RunView};
use crate::agent::ops::nginx;
use crate::agent::ops::site;
use crate::agent::ops::webserver::WebServer;
use crate::agent::ops::wordpress;
use crate::agent::ops::wpconfig;
use crate::agent::ops::wpconfig::DbConfigView;
use crate::agent::plan;
use crate::agent::plan::{ActionView, StageView, TaskView};
use crate::agent::state::AgentState;
use crate::agent::store::RecordView;
use crate::clock::UtcTime;
use crate::common::models;
use crate::common::models::{BackupScope, PhpVersion};
use crate::common::protocol::{CloneSite, Operation, ResticTarget, ResticTargetView};
use crate::digits;
use crate::text;

verus! {

/// The plan that an operation begins with.
pub open spec fn plan_of(b: Begun) -> Seq<StageView> {
    b->Run_0@.runner.plan
}

/// What the end of the plan means.
pub open spec fn flow_of(b: Begun) -> FlowView {
    b->Run_0@.flow
}

// ---------------------------------------------------------------------------
// PHP
// ---------------------------------------------------------------------------

/// The image of a PHP version: it ends in the version's text.
pub open spec fn image_of(version: PhpVersion) -> Seq<char> {
    "wp-panel/php-fpm:"@ + version.spec_str()
}

/// Different versions have different texts, which end in their second number.
pub proof fn lemma_version_texts(v: PhpVersion)
    ensures
        v.spec_str().len() == 3,
        v.spec_str()[0] == '8',
        v.spec_str()[1] == '.',
        v.spec_str()[2] == match v {
            PhpVersion::Php81 => '1',
            PhpVersion::Php82 => '2',
            PhpVersion::Php83 => '3',
            PhpVersion::Php84 => '4',
        },
{
    reveal_strlit("8.1");
    reveal_strlit("8.2");
    reveal_strlit("8.3");
    reveal_strlit("8.4");
}

/// The command that starts the container of a site names, last, an image that ends in the
/// text of the version asked for; so two containers have one image exactly where the
/// same version was asked for, and it is the image that is fetched for that version.
pub proof fn law_image_is_the_version_asked_for(
    config: Config,
    site: RecordView,
    other: RecordView,
    v: PhpVersion,
    w: PhpVersion,
)
    ensures
        ends_with(docker::start_args(config, site, v).last(), v.spec_str()),
        docker::start_args(config, site, v).last() == docker::start_args(config, other, w).last()
            <==> v == w,
        docker::spec_pull(v).len() == 1,
        docker_does(
            docker::spec_pull(v)[0].action,
            "pull"@,
            docker::start_args(config, site, v).last(),
        ),
{
    lemma_version_texts(v);
    lemma_version_texts(w);
    let x = docker::start_args(config, site, v).last();
    let y = docker::start_args(config, other, w).last();
    assert(x.subrange(x.len() - 3, x.len() as int) =~= v.spec_str());
    if x == y {
        assert(x.last() == v.spec_str()[2]);
        assert(y.last() == w.spec_str()[2]);
    }
}

/// A switch fetches the image of the version asked for, then starts from it a container
/// of its own, beside the old one, and asks that one whether it runs; nothing else is
/// started, and no file is touched before the answer is there.
#[verifier::rlimit(40)]
pub proof fn law_switch_starts_the_version_asked_for(
    state: AgentState,
    site_id: i64,
    version: PhpVersion,
    fresh: Fresh,
    b: Begun,
)
    requires
        begins(state, Operation::SwitchPhp { site_id, version }, fresh, b),
        state.store@.contains_key(site_id),
        state.store@[site_id].php_version != version,
    ensures
        b is Run,
        ({
            let site = state.store@[site_id];
            let name = docker::spec_container_name(site.domain, version);
            &&& first_then(
                plan_of(b),
                |a: ActionView| docker_does(a, "pull"@, image_of(version)),
                |a: ActionView| starts(a, name, image_of(version)),
            )
            &&& first_then(
                plan_of(b),
                |a: ActionView| starts(a, name, image_of(version)),
                |a: ActionView| docker_does(a, "inspect"@, name),
            )
            &&& every(
                plan_of(b),
                |a: ActionView|
                    runs(a, "docker"@) && writes(a) is None && (args_of(a)[0] == "run"@ ==> starts(
                        a,
                        name,
                        image_of(version),
                    )),
            )
            &&& flow_of(b) == FlowView::SwitchCheck { record: site, version }
        }),
{
    effects::lemma_programs();
    let site = state.store@[site_id];
    let list = plan_of(b);
    let name = docker::spec_container_name(site.domain, version);
    let next = RecordView { php_version: version, ..site };
    let args = docker::start_args(state.config, next, version);
    assert(args[4] == "--name"@ && args[5] == name);
    assert(list == site::switch_plan(state.config, site, version));
    let pulls = |a: ActionView| docker_does(a, "pull"@, image_of(version));
    let begun = |a: ActionView| starts(a, name, image_of(version));
    let asked = |a: ActionView| docker_does(a, "inspect"@, name);
    effects::show_order(list, pulls, begun, 0, 0, 1, 0);
    effects::show_order(list, begun, asked, 1, 0, 2, 0);
}

// ---------------------------------------------------------------------------
// Databases
// ---------------------------------------------------------------------------

/// A database is made on the host, or in a container of its own, for a user with a
/// password.
pub open spec fn makes_database(
    a: ActionView,
    name: Seq<char>,
    user: Seq<char>,
    password: Seq<char>,
) -> bool {
    ||| runs(a, "mysql"@) && args_of(a).len() > 0 && text::has(
        from_end(a, 0),
        "CREATE DATABASE IF NOT EXISTS `"@ + name + "`"@,
    ) && text::has(
        from_end(a, 0),
        "CREATE USER IF NOT EXISTS '"@ + user + "'@'localhost' IDENTIFIED BY '"@ + password + "'"@,
    ) && text::has(
        from_end(a, 0),
        "GRANT ALL PRIVILEGES ON `"@ + name + "`.* TO '"@ + user + "'@'localhost'"@,
    )
    ||| docker_does(a, "run"@, "mariadb:11.4"@) && has_pair(
        args_of(a),
        "--env"@,
        "MARIADB_DATABASE="@ + name,
    ) && has_pair(args_of(a), "--env"@, "MARIADB_USER="@ + user) && has_pair(
        args_of(a),
        "--env"@,
        "MARIADB_PASSWORD="@ + password,
    )
}

/// The database of a site is made under the site's own name.
#[verifier::spinoff_prover]
#[verifier::rlimit(40)]
pub proof fn lemma_makes_database(config: Config, site: RecordView, password: Seq<char>)
    ensures
        database::spec_create(config, site, password).len() == 1,
        ({
            let name = models::identifier_of(site.domain);
            makes_database(database::spec_create(config, site, password)[0].action, name, name, password)
        }),
        writes(database::spec_create(config, site, password)[0].action) is None,
        !runs(database::spec_create(config, site, password)[0].action, "rsync"@),
        !runs(database::spec_create(config, site, password)[0].action, "sh"@),
{
    effects::lemma_programs();
    let name = models::identifier_of(site.domain);
    let a = database::spec_create(config, site, password)[0].action;
    if site.database_mode is Shared {
        reveal_strlit("` CHARACTER SET utf8mb4 COLLATE utf8mb4_unicode_ci; CREATE USER IF NOT EXISTS '");
        reveal_strlit("`");
        reveal_strlit("CREATE USER IF NOT EXISTS '");
        reveal_strlit("'; GRANT ALL PRIVILEGES ON `");
        reveal_strlit("GRANT ALL PRIVILEGES ON `");
        reveal_strlit("'");
        reveal_strlit("'@'localhost'; FLUSH PRIVILEGES;");
        reveal_strlit("'@'localhost'");
        let sql = from_end(a, 0);
        let mid = "` CHARACTER SET utf8mb4 COLLATE utf8mb4_unicode_ci; CREATE USER IF NOT EXISTS '"@;
        let grant = "'; GRANT ALL PRIVILEGES ON `"@;
        let last = "'@'localhost'; FLUSH PRIVILEGES;"@;
        let n = mid.len() as int;
        assert(mid.take(1) =~= "`"@);
        assert(mid.skip(n - 27) =~= "CREATE USER IF NOT EXISTS '"@);
        assert(grant.take(1) =~= "'"@);
        assert(grant.skip(3) =~= "GRANT ALL PRIVILEGES ON `"@);
        assert(last.take(13) =~= "'@'localhost'"@);
        let one = "CREATE DATABASE IF NOT EXISTS `"@ + name + "`"@;
        let two = "CREATE USER IF NOT EXISTS '"@ + name + "'@'localhost' IDENTIFIED BY '"@
            + password + "'"@;
        let three = "GRANT ALL PRIVILEGES ON `"@ + name + "`.* TO '"@ + name + "'@'localhost'"@;
        let tail = name + "`.* TO '"@ + name + last;
        let rest = name + "'@'localhost' IDENTIFIED BY '"@ + password + grant + tail;
        let head = "CREATE DATABASE IF NOT EXISTS `"@ + name;
        let none = Seq::<char>::empty();
        assert(sql =~= none + one + (mid.skip(1) + rest));
        effects::lemma_has_middle(none, one, mid.skip(1) + rest);
        let before = head + mid.take(n - 27);
        assert(sql =~= before + two + (grant.skip(1) + tail));
        effects::lemma_has_middle(before, two, grant.skip(1) + tail);
        let front = head + mid + name + "'@'localhost' IDENTIFIED BY '"@ + password + grant.take(3);
        assert(sql =~= front + three + last.skip(13));
        effects::lemma_has_middle(front, three, last.skip(13));
    } else {
        let args = args_of(a);
        assert(args[10] == "--env"@ && args[11] == "MARIADB_DATABASE="@ + name);
        assert(args[12] == "--env"@ && args[13] == "MARIADB_USER="@ + name);
        assert(args[14] == "--env"@ && args[15] == "MARIADB_PASSWORD="@ + password);
    }
}

/// The database of a site that is dropped is the one that was made for it, with its user.
pub proof fn law_dropped_database_is_the_one_made(
    config: Config,
    site: RecordView,
    password: Seq<char>,
)
    ensures
        ({
            let made = database::spec_create(config, site, password);
            let dropped = database::spec_drop(site);
            let name = models::identifier_of(site.domain);
            &&& made.len() == 1 && dropped.len() == 1
            &&& makes_database(made[0].action, name, name, password)
            &&& match site.database_mode {
                models::DatabaseMode::Shared => runs(dropped[0].action, "mysql"@) && text::has(
                    from_end(dropped[0].action, 0),
                    "DROP DATABASE IF EXISTS `"@ + name + "`;"@,
                ) && text::has(
                    from_end(dropped[0].action, 0),
                    "DROP USER IF EXISTS '"@ + name + "'@'localhost';"@,
                ),
                models::DatabaseMode::Dedicated => exists|container: Seq<char>|
                    has_pair(args_of(made[0].action), "--name"@, container) && docker_does(
                        dropped[0].action,
                        "rm"@,
                        container,
                    ),
            }
        }),
{
    lemma_makes_database(config, site, password);
    let name = models::identifier_of(site.domain);
    let a = database::spec_drop(site)[0].action;
    if site.database_mode is Shared {
        reveal_strlit("`; DROP USER IF EXISTS '");
        reveal_strlit("`;");
        reveal_strlit("DROP USER IF EXISTS '");
        let mid = "`; DROP USER IF EXISTS '"@;
        let sql = from_end(a, 0);
        let one = "DROP DATABASE IF EXISTS `"@ + name + "`;"@;
        let two = "DROP USER IF EXISTS '"@ + name + "'@'localhost';"@;
        let none = Seq::<char>::empty();
        assert(mid.take(2) =~= "`;"@);
        assert(mid.skip(3) =~= "DROP USER IF EXISTS '"@);
        assert(sql =~= none + one + (mid.skip(2) + name + "'@'localhost';"@));
        effects::lemma_has_middle(none, one, mid.skip(2) + name + "'@'localhost';"@);
        let front = "DROP DATABASE IF EXISTS `"@ + name + mid.take(3);
        assert(sql =~= front + two + none);
        effects::lemma_has_middle(front, two, none);
    } else {
        let args = args_of(database::spec_create(config, site, password)[0].action);
        assert(args[4] == "--name"@ && args[5] == database::db_container(site));
        let container = database::db_container(site);
        assert(has_pair(args, "--name"@, container) && docker_does(a, "rm"@, container));
    }
}

// ---------------------------------------------------------------------------
// Copies
// ---------------------------------------------------------------------------

/// The web server keeps the files of a site outside of a directory.
pub open spec fn keeps_out(web: WebServer, site: RecordView, dir: Seq<char>) -> bool {
    forall|j: int|
        0 <= j < web.spec_write_site(site, false).len() ==> (writes(
            (#[trigger] web.spec_write_site(site, false)[j]).action,
        ) matches Some(p) ==> !below(p, dir))
}

/// A script reads one database and fills another, under the credentials of each.
pub open spec fn pipes(a: ActionView, from: DbConfigView, to: database::CredentialsView) -> bool {
    script_of(a) matches Some(s) && text::starts_with(
        s,
        "mysqldump -u"@ + exec::quoted(from.user) + " -p"@ + exec::quoted(from.password) + " "@
            + exec::quoted(from.name) + " | "@,
    ) && ends_with(
        s,
        " | mysql -u"@ + exec::quoted(to.user) + " -p"@ + exec::quoted(to.password) + " "@
            + exec::quoted(to.name),
    )
}

/// The pipeline of a copy reads the source's database and fills the other one.
#[verifier::rlimit(40)]
proof fn lemma_pipes(from: DbConfigView, to: database::CredentialsView)
    ensures
        pipes(database::shell(site::copy_script(from, to)).action, from, to),
{
    effects::lemma_programs();
    reveal_strlit(" | mysql -u");
    reveal_strlit(" | ");
    let s = site::copy_script(from, to);
    let mid = " | mysql -u"@;
    assert(mid.take(3) =~= " | "@);
    let first = "mysqldump -u"@ + exec::quoted(from.user) + " -p"@ + exec::quoted(from.password)
        + " "@ + exec::quoted(from.name);
    let last = mid + exec::quoted(to.user) + " -p"@ + exec::quoted(to.password) + " "@
        + exec::quoted(to.name);
    assert(s =~= first + last);
    let a = first + " | "@;
    assert(s.subrange(0, a.len() as int) =~= a);
    assert(s.subrange(s.len() - last.len(), s.len() as int) =~= last);
}

/// A copy of a site takes its files from the source and puts them into the copy's own
/// directory, and nothing that it does writes into the source's directory. The database
/// of the copy is made anew, filled from the source's, and the copy is told to use it.
/// The container runs the version that the copy is to have.
#[verifier::rlimit(40)]
pub proof fn law_clone_leaves_its_source_alone(
    config: Config,
    web: WebServer,
    source: RecordView,
    db: DbConfigView,
    target: RecordView,
    staging: bool,
    search_replace: bool,
    password: Seq<char>,
)
    requires
        is_name(source.domain),
        is_name(target.domain),
        source.domain != target.domain,
        keeps_out(web, target, config.spec_site_root(source.domain)),
    ensures
        ({
            let list = site::clone_plan(
                config,
                web,
                source,
                db,
                target,
                staging,
                search_replace,
                password,
            );
            let from = config.spec_site_root(source.domain) + "/public_html/"@;
            let to = config.spec_site_root(target.domain) + "/public_html/"@;
            let name = models::identifier_of(target.domain);
            &&& some(list, |a: ActionView| copies(a, from, to))
            &&& every(list, |a: ActionView| runs(a, "rsync"@) ==> copies(a, from, to))
            &&& every(
                list,
                |a: ActionView|
                    writes(a) matches Some(p) ==> !below(p, config.spec_site_root(source.domain)),
            )
            &&& exists|c: database::CredentialsView|
                #![trigger c.name, c.user]
                c.name == name && c.user == name && c.password == password && first_then(
                    list,
                    |a: ActionView| makes_database(a, name, name, password),
                    |a: ActionView| pipes(a, db, c),
                )
            &&& some(
                list,
                |a: ActionView| starts(
                    a,
                    docker::spec_container_name(target.domain, target.php_version),
                    image_of(target.php_version),
                ),
            )
        }),
{
    let away = config.spec_site_root(source.domain);
    let from = away + "/public_html/"@;
    let to = config.spec_site_root(target.domain) + "/public_html/"@;
    let list = site::clone_plan(
        config,
        web,
        source,
        db,
        target,
        staging,
        search_replace,
        password,
    );
    let copied = site::copy_plan(config, source, db, target, password);
    assert(copied.len() == 7);
    assert(forall|i: int| 0 <= i < 7 ==> list[i] == copied[i]);
    lemma_copy_writes(config, source, db, target, password, 2, 0);
    let moves = |a: ActionView| copies(a, from, to);
    assert(moves(list[2].tasks[0].action)) by {
        effects::lemma_programs();
    }
    effects::show(list, moves, 2, 0);
    let c = database::credentials_of(target, password);
    lemma_makes_database(config, target, password);
    lemma_pipes(db, c);
    let made = |a: ActionView| makes_database(a, c.name, c.user, password);
    let filled = |a: ActionView| pipes(a, db, c);
    effects::show_order(list, made, filled, 3, 0, 4, 0);
    let name = docker::spec_container_name(target.domain, target.php_version);
    let args = docker::start_args(config, target, target.php_version);
    assert(args[4] == "--name"@ && args[5] == name);
    let begun = |a: ActionView| starts(a, name, image_of(target.php_version));
    effects::show(list, begun, 6, 0);
    let n = list.len() as int;
    assert forall|i: int, j: int|
        0 <= i < n && 0 <= j < list[i].tasks.len() implies ({
        let a = (#[trigger] list[i].tasks[j]).action;
        &&& runs(a, "rsync"@) ==> copies(a, from, to)
        &&& writes(a) matches Some(p) ==> !below(p, away)
    }) by {
        let a = list[i].tasks[j].action;
        if i < 7 {
            lemma_copy_writes(config, source, db, target, password, i, j);
            if let Some(p) = writes(a) {
                effects::lemma_trees_apart(config, target.domain, source.domain, p);
            }
        } else if i == n - 3 {
            assert(list[i].tasks == web.spec_write_site(target, false));
            lemma_web_writes(web, target, false, j);
        } else {
            effects::lemma_programs();
        }
    }
}

/// The stages of a copy write into the copy's directory alone, and copy files into it.
#[verifier::rlimit(40)]
proof fn lemma_copy_writes(
    config: Config,
    source: RecordView,
    db: DbConfigView,
    target: RecordView,
    password: Seq<char>,
    i: int,
    j: int,
)
    requires
        is_name(source.domain),
        is_name(target.domain),
        0 <= i < 7,
        0 <= j < site::copy_plan(config, source, db, target, password)[i].tasks.len(),
    ensures
        ({
            let a = site::copy_plan(config, source, db, target, password)[i].tasks[j].action;
            let root = config.spec_site_root(target.domain);
            &&& writes(a) matches Some(p) ==> below(p, root)
            &&& runs(a, "rsync"@) ==> copies(
                a,
                config.spec_site_root(source.domain) + "/public_html/"@,
                root + "/public_html/"@,
            )
        }),
{
    effects::lemma_programs();
    let list = site::copy_plan(config, source, db, target, password);
    if i == 1 {
        lemma_tree_writes(config, target.domain, target.uid, j);
    } else if i == 2 {
        reveal_strlit("public_html");
        reveal_strlit("/");
        reveal_strlit("/public_html/");
        let part = "/"@ + "public_html"@ + "/"@;
        assert(part =~= "/public_html/"@);
        effects::lemma_in_site(config, source.domain, "public_html"@);
        effects::lemma_in_site(config, target.domain, "public_html"@);
        assert(config.spec_site_root(target.domain) + "/public_html/"@ =~= config.spec_in_site(
            target.domain,
            "public_html"@,
        ) + "/"@);
        assert(config.spec_site_root(source.domain) + "/public_html/"@ =~= config.spec_in_site(
            source.domain,
            "public_html"@,
        ) + "/"@);
    } else if i == 3 {
        lemma_makes_database(config, target, password);
    }
}

/// What makes the directories of a site writes into the site's directory, and hands all
/// of it to the site's user.
#[verifier::rlimit(40)]
pub proof fn lemma_tree_writes(config: Config, domain: Seq<char>, uid: u32, j: int)
    requires
        is_name(domain),
        0 <= j < filesystem::spec_create_tree(config, domain, uid).len(),
    ensures
        ({
            let a = filesystem::spec_create_tree(config, domain, uid)[j].action;
            &&& writes(a) matches Some(p) && below(p, config.spec_site_root(domain))
            &&& !runs(a, "rsync"@)
        }),
{
    effects::lemma_programs();
    reveal_strlit("public_html");
    reveal_strlit("logs");
    reveal_strlit("backups");
    reveal_strlit("tmp");
    effects::lemma_in_site(config, domain, "public_html"@);
    effects::lemma_in_site(config, domain, "logs"@);
    effects::lemma_in_site(config, domain, "backups"@);
    effects::lemma_in_site(config, domain, "tmp"@);
}

/// What the web server does to write the files of a site is to make directories and
/// write files.
pub proof fn lemma_web_writes(web: WebServer, site: RecordView, ssl: bool, j: int)
    requires
        0 <= j < web.spec_write_site(site, ssl).len(),
    ensures
        ({
            let a = web.spec_write_site(site, ssl)[j].action;
            a is MakeDir || a is WriteFile
        }),
{
}

/// URLs are replaced in a container: one text by another, everywhere.
pub open spec fn replaces(a: ActionView, container: Seq<char>, from: Seq<char>, to: Seq<char>) -> bool {
    wp_runs(a, container, seq!["search-replace"@, from, to, "--all-tables"@, "--precise"@])
}

/// Search engines are asked to leave a site alone.
pub open spec fn hides(a: ActionView, container: Seq<char>) -> bool {
    wp_runs(a, container, seq!["option"@, "update"@, "blog_public"@, "0"@])
}

/// Once the source's configuration was read, a copy takes the files of the site asked for
/// to the domain asked for, writes nothing into the directory of the source, starts the
/// PHP version asked for, replaces the source's domain by its own exactly where that was
/// asked for, and is hidden from search engines exactly where it is a staging copy.
#[verifier::rlimit(40)]
pub proof fn law_clone_copies_what_was_asked(
    state: AgentState,
    request: CloneSite,
    fresh: Fresh,
    b: Begun,
    end: RunView,
    now: UtcTime,
    c: Conclusion,
)
    requires
        begins(state, Operation::CloneSite(request), fresh, b),
        b is Run,
        end.flow == flow_of(b),
        end.runner.error is None,
        concludes(state, end, now, c),
        c is Continue,
        is_name(state.store@[request.source_site_id].domain),
        is_name(request.target_domain@),
        keeps_out(
            state.web,
            flow_of(b)->target,
            state.config.spec_site_root(state.store@[request.source_site_id].domain),
        ),
    ensures
        ({
            let source = state.store@[request.source_site_id];
            let domain = request.target_domain@;
            let root = state.config.spec_site_root(source.domain);
            let from = root + "/public_html/"@;
            let to = state.config.spec_site_root(domain) + "/public_html/"@;
            let container = models::container_name_of(domain);
            let list = c->Continue_0@.runner.plan;
            &&& some(list, |a: ActionView| copies(a, from, to))
            &&& every(list, |a: ActionView| runs(a, "rsync"@) ==> copies(a, from, to))
            &&& every(list, |a: ActionView| writes(a) matches Some(p) ==> !below(p, root))
            &&& some(
                list,
                |a: ActionView|
                    starts(
                        a,
                        docker::spec_container_name(domain, request.php_version),
                        image_of(request.php_version),
                    ),
            )
            &&& some(list, |a: ActionView| replaces(a, container, source.domain, domain))
                <==> request.search_replace
            &&& some(list, |a: ActionView| hides(a, container)) <==> request.staging
            &&& c->Continue_0@.flow matches FlowView::Created { record, .. } && record.domain
                == domain && record.site_id == request.target_site_id && record.php_version
                == request.php_version
        }),
{
    let source = state.store@[request.source_site_id];
    let target = flow_of(b)->target;
    let password = fresh.password@;
    let db = wpconfig::spec_read_db_config(state.config, source, end.runner.output(0))->Ok_0;
    law_clone_leaves_its_source_alone(
        state.config,
        state.web,
        source,
        db,
        target,
        request.staging,
        request.search_replace,
        password,
    );
    lemma_clone_options(
        state.config,
        state.web,
        source,
        db,
        target,
        request.staging,
        request.search_replace,
        password,
    );
}

/// WP-CLI runs with the arguments given.
pub proof fn lemma_wp(container: Seq<char>, args: Seq<Seq<char>>)
    ensures
        wp_runs(wordpress::wp(container, args).action, container, args),
{
    let a = wordpress::wp(container, args).action;
    assert(args_of(a) =~= seq![
        "exec"@,
        "--workdir"@,
        "/var/www/html"@,
        container,
        "wp"@,
        "--path=/var/www/html"@,
    ] + args);
}

/// The options of a copy.
#[verifier::rlimit(40)]
proof fn lemma_clone_options(
    config: Config,
    web: WebServer,
    source: RecordView,
    db: DbConfigView,
    target: RecordView,
    staging: bool,
    search_replace: bool,
    password: Seq<char>,
)
    ensures
        ({
            let list = site::clone_plan(
                config,
                web,
                source,
                db,
                target,
                staging,
                search_replace,
                password,
            );
            let container = target.container();
            &&& some(list, |a: ActionView| replaces(a, container, source.domain, target.domain))
                <==> search_replace
            &&& some(list, |a: ActionView| hides(a, container)) <==> staging
        }),
{
    effects::lemma_programs();
    reveal_strlit("search-replace");
    reveal_strlit("option");
    reveal_strlit("config");
    let list = site::clone_plan(
        config,
        web,
        source,
        db,
        target,
        staging,
        search_replace,
        password,
    );
    let container = target.container();
    let moved = |a: ActionView| replaces(a, container, source.domain, target.domain);
    let hidden = |a: ActionView| hides(a, container);
    let copied = site::copy_plan(config, source, db, target, password);
    assert(forall|i: int| 0 <= i < 7 ==> list[i] == copied[i]);
    let n = list.len() as int;
    lemma_wp(
        container,
        seq!["search-replace"@, source.domain, target.domain, "--all-tables"@, "--precise"@],
    );
    lemma_wp(container, seq!["option"@, "update"@, "blog_public"@, "0"@]);
    if search_replace {
        assert(moved(list[7].tasks[0].action));
        effects::show(list, moved, 7, 0);
    }
    if staging {
        let k = if search_replace {
            8int
        } else {
            7int
        };
        assert(hidden(list[k].tasks[0].action));
        effects::show(list, hidden, k, 0);
    }
    assert forall|i: int, j: int|
        0 <= i < n && 0 <= j < list[i].tasks.len() implies ({
        let a = (#[trigger] list[i].tasks[j]).action;
        &&& moved(a) ==> search_replace
        &&& hidden(a) ==> staging
    }) by {
        let a = list[i].tasks[j].action;
        if i < 7 {
            lemma_copy_commands(config, source, db, target, password, i, j);
        } else if i == n - 3 {
            assert(list[i].tasks == web.spec_write_site(target, false));
            lemma_web_writes(web, target, false, j);
        } else if i == n - 1 {
            assert(args_of(a).len() < 6);
        } else if i == n - 2 {
            assert(!runs(a, "docker"@));
        }
        if moved(a) {
            assert(args_of(a).len() == 11);
            assert(args_of(a)[6] == "search-replace"@);
        }
        if hidden(a) {
            assert(args_of(a).len() == 10);
            assert(args_of(a)[6] == "option"@);
        }
    }
}

/// The stages of a copy run WP-CLI to configure the copy alone.
#[verifier::rlimit(40)]
proof fn lemma_copy_commands(
    config: Config,
    source: RecordView,
    db: DbConfigView,
    target: RecordView,
    password: Seq<char>,
    i: int,
    j: int,
)
    requires
        0 <= i < 7,
        0 <= j < site::copy_plan(config, source, db, target, password)[i].tasks.len(),
    ensures
        ({
            let a = site::copy_plan(config, source, db, target, password)[i].tasks[j].action;
            runs(a, "docker"@) ==> args_of(a).len() >= 12
        }),
{
    effects::lemma_programs();
    let list = site::copy_plan(config, source, db, target, password);
    if i == 3 {
        assert(list[i].tasks == database::spec_create(config, target, password));
    }
}

// ---------------------------------------------------------------------------
// Backups
// ---------------------------------------------------------------------------

/// A backup of files and database, in one of its scopes, covers the files.
pub open spec fn has_files(scope: BackupScope) -> bool {
    !(scope is DatabaseOnly)
}

/// A backup of files and database, in one of its scopes, covers the database.
pub open spec fn has_database(scope: BackupScope) -> bool {
    !(scope is FilesOnly)
}

/// Restic snapshots a path into a repository.
pub open spec fn snapshots(a: ActionView, target: ResticTargetView, path: Seq<char>) -> bool {
    &&& runs(a, "restic"@)
    &&& has_pair(args_of(a), "--repo"@, target.repo)
    &&& has_pair(args_of(a), "--password"@, target.password)
    &&& args_of(a).contains("backup"@)
    &&& from_end(a, 0) == path
    &&& a->Run_0.env == target.env
}

/// Restic puts a snapshot of a repository into a directory.
pub open spec fn fetches(
    a: ActionView,
    target: ResticTargetView,
    snapshot_id: Seq<char>,
    dir: Seq<char>,
) -> bool {
    &&& runs(a, "restic"@)
    &&& has_pair(args_of(a), "--repo"@, target.repo)
    &&& has_pair(args_of(a), "--password"@, target.password)
    &&& has_pair(args_of(a), "restore"@, snapshot_id)
    &&& has_pair(args_of(a), "--target"@, dir)
    &&& a->Run_0.env == target.env
}

/// The tasks of one stage, as a plan.
pub open spec fn as_plan(tasks: Seq<TaskView>) -> Seq<StageView> {
    seq![plan::silent(tasks)]
}

/// A backup dumps the site's database exactly where its scope covers the database, into a
/// file that lies in what is snapshotted afterwards; and it snapshots the site's whole
/// directory exactly where its scope covers the files.
#[verifier::rlimit(40)]
pub proof fn law_backup_covers_its_scope(
    config: Config,
    site: RecordView,
    scope: BackupScope,
    target: ResticTargetView,
)
    requires
        is_name(site.domain),
    ensures
        ({
            let list = backup::spec_create(config, site, scope, target);
            let n = list.len() as int;
            let name = models::identifier_of(site.domain);
            let root = config.spec_site_root(site.domain);
            &&& n >= 1
            &&& exists|what: Seq<char>|
                #![trigger snapshots(list[n - 1].action, target, what)]
                snapshots(list[n - 1].action, target, what) && below(
                    root + "/backups/database.sql"@,
                    what,
                ) && (what == root <==> has_files(scope)) && below(what, root)
            &&& some(
                as_plan(list),
                |a: ActionView| dumps(a, name, root + "/backups/database.sql"@),
            ) <==> has_database(scope)
            &&& has_pair(args_of(list[n - 1].action), "--tag"@, "site="@ + site.domain)
        }),
{
    effects::lemma_programs();
    reveal_strlit("backups");
    reveal_strlit("backups/database.sql");
    reveal_strlit("/backups/database.sql");
    reveal_strlit("/");
    effects::lemma_in_site(config, site.domain, "backups"@);
    effects::lemma_in_site(config, site.domain, "backups/database.sql"@);
    let list = backup::spec_create(config, site, scope, target);
    let n = list.len() as int;
    let name = models::identifier_of(site.domain);
    let root = config.spec_site_root(site.domain);
    let file = root + "/backups/database.sql"@;
    assert("/"@ + "backups/database.sql"@ =~= "/backups/database.sql"@);
    assert(database::dump_path(config, site) =~= file);
    let last = list[n - 1].action;
    let args = args_of(last);
    assert(args[0] == "--repo"@ && args[1] == target.repo);
    assert(args[2] == "--password"@ && args[3] == target.password);
    assert(args[4] == "backup"@);
    assert(args[5] == "--tag"@ && args[6] == "site="@ + site.domain);
    let what = args[10];
    assert(snapshots(last, target, what));
    if scope is DatabaseOnly {
        let front = what + "/"@;
        assert(file.subrange(0, front.len() as int) =~= front);
        assert(what.len() > root.len());
    } else {
        let front = root + "/"@;
        assert(file.subrange(0, front.len() as int) =~= front);
    }
    let dumped = |a: ActionView| dumps(a, name, file);
    if has_database(scope) {
        lemma_dumps(config, site);
        assert(dumped(as_plan(list)[0].tasks[0].action));
        effects::show(as_plan(list), dumped, 0, 0);
    } else {
        assert forall|i: int, j: int|
            0 <= i < 1 && 0 <= j < as_plan(list)[i].tasks.len() implies !dumped(
            (#[trigger] as_plan(list)[i].tasks[j]).action,
        ) by {}
    }
}

/// The dump of a site's database.
#[verifier::rlimit(40)]
proof fn lemma_dumps(config: Config, site: RecordView)
    ensures
        dumps(
            database::spec_dump(config, site).action,
            models::identifier_of(site.domain),
            database::dump_path(config, site),
        ),
{
    effects::lemma_programs();
    reveal_strlit("mysqldump ");
    reveal_strlit("mysqldump --protocol=socket --single-transaction --quick '");
    reveal_strlit(" '");
    reveal_strlit("' && gzip --force '");
    reveal_strlit("'");
    let name = models::identifier_of(site.domain);
    let file = database::dump_path(config, site);
    let s = args_of(database::spec_dump(config, site).action)[1];
    let head = "mysqldump --protocol=socket --single-transaction --quick '"@;
    let zip = "' && gzip --force '"@;
    let n = head.len() as int;
    assert(head.take(10) =~= "mysqldump "@);
    assert(s.subrange(0, 10) =~= "mysqldump "@);
    assert(head.skip(n - 2) =~= " '"@);
    assert(zip.take(1) =~= "'"@);
    let mid = " '"@ + name + "' > '"@ + file + "'"@;
    let back = zip.skip(1) + file + "'"@;
    assert(s =~= head.take(n - 2) + mid + back);
    effects::lemma_has_middle(head.take(n - 2), mid, back);
}

/// A restore fetches the snapshot asked for into a directory of its own, syncs the site's
/// files exactly where its scope covers the files, loads the dump that a backup of its
/// scope holds into the site's database exactly where its scope covers the database, and
/// then clears its directory. So a full restore does both, and each scope puts back what
/// a backup of that scope covers.
#[verifier::rlimit(40)]
pub proof fn law_restore_puts_back_what_a_backup_covers(
    state: AgentState,
    site_id: i64,
    snapshot_id: String,
    scope: BackupScope,
    target: ResticTarget,
    fresh: Fresh,
    b: Begun,
)
    requires
        begins(
            state,
            Operation::RestoreBackup { site_id, snapshot_id, scope, target },
            fresh,
            b,
        ),
        state.store@.contains_key(site_id),
        is_name(state.store@[site_id].domain),
    ensures
        b is Run,
        ({
            let site = state.store@[site_id];
            let list = plan_of(b);
            let name = models::identifier_of(site.domain);
            let root = state.config.spec_site_root(site.domain);
            let dir = "/tmp/restore-"@ + digits::dec_int(site.site_id as int);
            let backup = as_plan(backup::spec_create(state.config, site, scope, target@));
            let loaded = |a: ActionView| loads(a, name, dir + "/backups/database.sql"@);
            let synced = |a: ActionView| copies(a, dir + "/"@, root + "/public_html"@);
            &&& some(list, |a: ActionView| fetches(a, target@, snapshot_id@, dir))
            &&& some(list, loaded) <==> has_database(scope)
            &&& some(list, loaded) <==> some(
                backup,
                |a: ActionView| dumps(a, name, root + "/backups/database.sql"@),
            )
            &&& some(list, synced) <==> has_files(scope)
            &&& some(list, |a: ActionView| removes(a, dir))
            &&& every(
                list,
                |a: ActionView|
                    writes(a) matches Some(p) ==> p == dir || below(p, root),
            )
            &&& flow_of(b) == FlowView::Steps(ChangeView::Keep)
        }),
{
    let site = state.store@[site_id];
    let list = plan_of(b);
    law_backup_covers_its_scope(state.config, site, scope, target@);
    lemma_restores(state.config, site, snapshot_id@, scope, target@);
}

/// What the plan of a restore does.
#[verifier::rlimit(40)]
proof fn lemma_restores(
    config: Config,
    site: RecordView,
    snapshot_id: Seq<char>,
    scope: BackupScope,
    target: ResticTargetView,
)
    requires
        is_name(site.domain),
    ensures
        ({
            let list = site::restore_plan(config, site, snapshot_id, scope, target);
            let name = models::identifier_of(site.domain);
            let root = config.spec_site_root(site.domain);
            let dir = "/tmp/restore-"@ + digits::dec_int(site.site_id as int);
            &&& some(list, |a: ActionView| fetches(a, target, snapshot_id, dir))
            &&& some(list, |a: ActionView| loads(a, name, dir + "/backups/database.sql"@))
                <==> has_database(scope)
            &&& some(list, |a: ActionView| copies(a, dir + "/"@, root + "/public_html"@))
                <==> has_files(scope)
            &&& some(list, |a: ActionView| removes(a, dir))
            &&& every(
                list,
                |a: ActionView| writes(a) matches Some(p) ==> p == dir || below(p, root),
            )
        }),
{
    effects::lemma_programs();
    reveal_strlit("public_html");
    reveal_strlit("/public_html");
    reveal_strlit("/");
    assert("/"@ + "public_html"@ =~= "/public_html"@);
    effects::lemma_in_site(config, site.domain, "public_html"@);
    let list = site::restore_plan(config, site, snapshot_id, scope, target);
    let tasks = backup::spec_restore(config, site, snapshot_id, scope, target);
    let name = models::identifier_of(site.domain);
    let root = config.spec_site_root(site.domain);
    let dir = "/tmp/restore-"@ + digits::dec_int(site.site_id as int);
    let public = root + "/public_html"@;
    assert(config.spec_in_site(site.domain, "public_html"@) =~= public);
    let file = dir + "/backups/database.sql"@;
    let fetched = |a: ActionView| fetches(a, target, snapshot_id, dir);
    let loaded = |a: ActionView| loads(a, name, file);
    let synced = |a: ActionView| copies(a, dir + "/"@, public);
    let cleared = |a: ActionView| removes(a, dir);
    let n = tasks.len() as int;
    assert(list[0].tasks == tasks);
    let args = args_of(tasks[0].action);
    assert(args[0] == "--repo"@ && args[1] == target.repo);
    assert(args[2] == "--password"@ && args[3] == target.password);
    assert(args[4] == "restore"@ && args[5] == snapshot_id);
    assert(args[6] == "--target"@ && args[7] == dir);
    assert(fetched(list[0].tasks[0].action));
    effects::show(list, fetched, 0, 0);
    assert(cleared(list[0].tasks[n - 1].action));
    effects::show(list, cleared, 0, n - 1);
    lemma_loads(site, file);
    if has_database(scope) {
        assert(loaded(list[0].tasks[n - 3].action));
        effects::show(list, loaded, 0, n - 3);
    }
    if has_files(scope) {
        assert(synced(list[0].tasks[1].action));
        effects::show(list, synced, 0, 1);
    }
    assert forall|i: int, j: int|
        0 <= i < list.len() && 0 <= j < list[i].tasks.len() implies ({
        let a = (#[trigger] list[i].tasks[j]).action;
        &&& loaded(a) ==> has_database(scope)
        &&& synced(a) ==> has_files(scope)
        &&& writes(a) matches Some(p) ==> p == dir || below(p, root)
    }) by {
        if i == 0 {
            assert(list[i].tasks[j] == tasks[j]);
        }
    }
}

/// A dump is loaded into the database of the site, from the file given.
#[verifier::rlimit(40)]
pub proof fn lemma_loads(site: RecordView, file: Seq<char>)
    ensures
        loads(database::spec_import_dump(site, file).action, models::identifier_of(site.domain), file),
        loads(database::spec_import(site, file).action, models::identifier_of(site.domain), file),
{
    effects::lemma_programs();
    reveal_strlit(".gz'; fi && mysql --protocol=socket '");
    reveal_strlit("mysql --protocol=socket '");
    let name = models::identifier_of(site.domain);
    let mid = ".gz'; fi && mysql --protocol=socket '"@;
    let n = mid.len() as int;
    assert(mid.skip(n - 25) =~= "mysql --protocol=socket '"@);
    let pat = "mysql --protocol=socket '"@ + name + "' < '"@ + file + "'"@;
    let s = args_of(database::spec_import_dump(site, file).action)[1];
    assert(s.subrange(s.len() - pat.len(), s.len() as int) =~= pat);
    let t = args_of(database::spec_import(site, file).action)[1];
    assert(t.subrange(t.len() - pat.len(), t.len() as int) =~= pat);
}

/// WordPress is told a constant.
pub open spec fn sets(a: ActionView, container: Seq<char>, name: Seq<char>, value: Seq<char>) -> bool {
    wp_runs(a, container, seq!["config"@, "set"@, name, value, "--raw"@, "--allow-root"@])
}

/// A copy is told to use the database that was made for it, not the source's; a staging
/// copy, and no other, is told that it is one. The copy is served under its own vhost, and
/// its own container is asked whether it runs.
pub proof fn law_copies_stand_on_their_own(
    config: Config,
    web: WebServer,
    source: RecordView,
    db: DbConfigView,
    target: RecordView,
    staging: bool,
    search_replace: bool,
    password: Seq<char>,
)
    ensures
        ({
            let list = site::clone_plan(
                config,
                web,
                source,
                db,
                target,
                staging,
                search_replace,
                password,
            );
            let n = list.len() as int;
            let c = target.container();
            let name = models::identifier_of(target.domain);
            let server = web->Nginx_0;
            let marked = |a: ActionView|
                script_of(a) == Some(
                    "docker exec "@ + c
                        + " wp config set WP_ENVIRONMENT_TYPE staging --raw --allow-root"@,
                );
            &&& some(list, |a: ActionView| sets(a, c, "DB_NAME"@, name))
            &&& some(list, |a: ActionView| sets(a, c, "DB_USER"@, name))
            &&& some(list, |a: ActionView| sets(a, c, "DB_PASSWORD"@, password))
            &&& staging ==> some(list, marked)
            &&& !staging ==> n == if search_replace {
                11
            } else {
                10int
            }
            &&& n > 3
            &&& list[n - 3].tasks.len() > 0
            &&& list[n - 3].tasks.last().action matches ActionView::WriteFile {
                path,
                contents,
                ..
            } && path == server.config.spec_vhost_path(target.domain) && contents
                == nginx::spec_render_vhost(server.config, server.caps, target, false)
            &&& docker_does(list[n - 1].tasks[0].action, "inspect"@, c)
        }),
{
    let list = site::clone_plan(
        config,
        web,
        source,
        db,
        target,
        staging,
        search_replace,
        password,
    );
    let n = list.len() as int;
    let c = target.container();
    let name = models::identifier_of(target.domain);
    let copied = site::copy_plan(config, source, db, target, password);
    assert(forall|i: int| 0 <= i < 7 ==> list[i] == copied[i]);
    lemma_wp(c, seq!["config"@, "set"@, "DB_NAME"@, name, "--raw"@, "--allow-root"@]);
    lemma_wp(c, seq!["config"@, "set"@, "DB_USER"@, name, "--raw"@, "--allow-root"@]);
    lemma_wp(c, seq!["config"@, "set"@, "DB_PASSWORD"@, password, "--raw"@, "--allow-root"@]);
    let one = |a: ActionView| sets(a, c, "DB_NAME"@, name);
    let two = |a: ActionView| sets(a, c, "DB_USER"@, name);
    let three = |a: ActionView| sets(a, c, "DB_PASSWORD"@, password);
    assert(one(list[5].tasks[0].action));
    assert(two(list[5].tasks[1].action));
    assert(three(list[5].tasks[2].action));
    effects::show(list, one, 5, 0);
    effects::show(list, two, 5, 1);
    effects::show(list, three, 5, 2);
    if staging {
        let marked = |a: ActionView|
            script_of(a) == Some(
                "docker exec "@ + c
                    + " wp config set WP_ENVIRONMENT_TYPE staging --raw --allow-root"@,
            );
        let k = if search_replace {
            9int
        } else {
            8int
        };
        assert(marked(list[k].tasks[0].action));
        effects::show(list, marked, k, 0);
    }
    assert(list[n - 3].tasks == web.spec_write_site(target, false));
}

/// A copy begins by reading the source's own configuration, and nothing else is done
/// before that is known.
#[verifier::rlimit(40)]
pub proof fn law_copies_begin_with_the_source(
    state: AgentState,
    request: CloneSite,
    fresh: Fresh,
    b: Begun,
)
    requires
        begins(state, Operation::CloneSite(request), fresh, b),
        state.store@.contains_key(request.source_site_id),
    ensures
        b is Run <==> state.store@[request.source_site_id].domain != request.target_domain@,
        b is Run ==> ({
            let source = state.store@[request.source_site_id];
            &&& plan_of(b).len() == 1
            &&& plan_of(b)[0].tasks.len() == 1
            &&& plan_of(b)[0].tasks[0].action == ActionView::ReadFile(
                state.config.spec_in_site(source.domain, "public_html/wp-config.php"@),
            )
            &&& flow_of(b) matches FlowView::CloneFrom { source: from, target, .. } && from
                == source && target.limits == source.limits && target.cache == source.cache
                && target.database_mode == source.database_mode
        }),
{
}

/// A restore fetches first and clears its directory last; in between, the site's files
/// belong to the site's user again. Then its container is restarted and asked whether it
/// runs.
pub proof fn law_restored_sites_are_restarted(
    config: Config,
    site: RecordView,
    snapshot_id: Seq<char>,
    scope: BackupScope,
    target: ResticTargetView,
)
    ensures
        ({
            let list = site::restore_plan(config, site, snapshot_id, scope, target);
            let tasks = list[0].tasks;
            let n = tasks.len() as int;
            let dir = "/tmp/restore-"@ + digits::dec_int(site.site_id as int);
            let uid = digits::dec(site.uid as nat);
            &&& list.len() == 3
            &&& n >= 4
            &&& fetches(tasks[0].action, target, snapshot_id, dir)
            &&& runs(tasks[n - 2].action, "chown"@) && args_of(tasks[n - 2].action) == seq![
                "-R"@,
                uid + ":"@ + uid,
                config.spec_site_root(site.domain),
            ]
            &&& removes(tasks[n - 1].action, dir)
            &&& docker_does(list[1].tasks[0].action, "restart"@, site.container())
            &&& docker_does(list[2].tasks[0].action, "inspect"@, site.container())
            &&& forall|i: int| 0 <= i < 3 ==> plan::strict(#[trigger] list[i])
        }),
{
    let list = site::restore_plan(config, site, snapshot_id, scope, target);
    let tasks = list[0].tasks;
    let n = tasks.len() as int;
    let dir = "/tmp/restore-"@ + digits::dec_int(site.site_id as int);
    let uid = digits::dec(site.uid as nat);
    let args = args_of(tasks[0].action);
    assert(args[0] == "--repo"@ && args[1] == target.repo);
    assert(args[2] == "--password"@ && args[3] == target.password);
    assert(args[4] == "restore"@ && args[5] == snapshot_id);
    assert(args[6] == "--target"@ && args[7] == dir);
    assert(args_of(tasks[n - 2].action) =~= seq![
        "-R"@,
        uid + ":"@ + uid,
        config.spec_site_root(site.domain),
    ]);
}

/// A switch is refused exactly where the site already runs the version asked for.
#[verifier::rlimit(40)]
pub proof fn law_switch_to_the_same_version_is_refused(
    state: AgentState,
    site_id: i64,
    version: PhpVersion,
    fresh: Fresh,
    b: Begun,
)
    requires
        begins(state, Operation::SwitchPhp { site_id, version }, fresh, b),
        state.store@.contains_key(site_id),
    ensures
        b is Run <==> state.store@[site_id].php_version != version,
        b matches Begun::Answer(a) ==> !a.success,
{
}

} // verus!
