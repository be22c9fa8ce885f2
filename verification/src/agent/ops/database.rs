//! MariaDB provisioning. Shared mode creates a schema and a user restricted to
//! it; dedicated mode gives the site its own container.

use vstd::prelude::*;
use crate::agent::config::Config;
use crate::agent::ops::docker;
use crate::agent::ops::filesystem::system_user;
use crate::agent::plan;
use crate::agent::plan::{Task, TaskView};
use crate::agent::store::{RecordView, SiteRecord};
use crate::common::models;
use crate::common::models::DatabaseMode;
use crate::text;

verus! {

#[derive(Debug)]
pub struct Credentials {
    pub name: String,
    pub user: String,
    pub password: String,
    pub host: String,
}

/// [`Credentials`] with its texts as sequences of characters.
pub struct CredentialsView {
    pub name: Seq<char>,
    pub user: Seq<char>,
    pub password: Seq<char>,
    pub host: Seq<char>,
}

impl View for Credentials {
    type V = CredentialsView;

    open spec fn view(&self) -> CredentialsView {
        CredentialsView {
            name: self.name@,
            user: self.user@,
            password: self.password@,
            host: self.host@,
        }
    }
}

/// The characters that passwords are made of: they survive shell quoting and
/// wp-config, and none of them is easily taken for another.
pub const ALPHABET: &'static str = "abcdefghijkmnopqrstuvwxyzABCDEFGHJKLMNPQRSTUVWXYZ23456789";

/// How many characters a password has.
pub const PASSWORD_LENGTH: usize = 24;

/// A random number below `bound`: `rand::rng().random_range(0..bound)`. Which one
/// is left to chance.
#[verifier::external_body]
fn random_below(bound: usize) -> (n: usize)
    requires
        bound > 0,
    ensures
        n < bound,
{
    rand::Rng::random_range(&mut rand::rng(), 0..bound)
}

/// A text that [`generate_password`] may come up with.
pub open spec fn is_password(s: Seq<char>) -> bool {
    s.len() == PASSWORD_LENGTH && forall|i: int|
        0 <= i < s.len() ==> ALPHABET@.contains(#[trigger] s[i])
}

/// 24 characters from an alphabet that survives shell quoting and wp-config.
pub fn generate_password() -> (s: String)
    ensures
        is_password(s@),
{
    proof {
        reveal_strlit("abcdefghijkmnopqrstuvwxyzABCDEFGHJKLMNPQRSTUVWXYZ23456789");
    }
    let letters = text::chars_of(ALPHABET);
    let mut s = String::new();
    let mut i: usize = 0;
    while i < PASSWORD_LENGTH
        invariant
            letters@ == ALPHABET@,
            letters@.len() > 0,
            i <= PASSWORD_LENGTH,
            s@.len() == i,
            forall|j: int| 0 <= j < i ==> ALPHABET@.contains(#[trigger] s@[j]),
        decreases PASSWORD_LENGTH - i,
    {
        let k = random_below(letters.len());
        s.push(letters[k]);
        assert(ALPHABET@.contains(ALPHABET@[k as int]));
        i += 1;
    }
    s
}

pub fn db_name(domain: &str) -> (s: String)
    ensures
        s@ == models::identifier_of(domain@),
{
    system_user(domain)
}

/// The container of a site's own database.
pub open spec fn db_container(site: RecordView) -> Seq<char> {
    site.container() + "-db"@
}

/// Executable form of [`db_container`].
fn db_container_name(site: &SiteRecord) -> (s: String)
    ensures
        s@ == db_container(site@),
{
    let c = site.container_name();
    text::cat2(c.as_str(), "-db")
}

/// What WordPress connects to the database of a site with.
pub open spec fn credentials_of(site: RecordView, password: Seq<char>) -> CredentialsView {
    CredentialsView {
        name: models::identifier_of(site.domain),
        user: models::identifier_of(site.domain),
        password,
        host: match site.database_mode {
            DatabaseMode::Shared => "127.0.0.1"@,
            DatabaseMode::Dedicated => db_container(site),
        },
    }
}

/// Executable form of [`credentials_of`].
pub fn credentials(site: &SiteRecord, password: &str) -> (c: Credentials)
    ensures
        c@ == credentials_of(site@, password@),
{
    Credentials {
        name: db_name(site.domain.as_str()),
        user: system_user(site.domain.as_str()),
        password: password.to_owned(),
        host: match site.database_mode {
            DatabaseMode::Shared => "127.0.0.1".to_owned(),
            DatabaseMode::Dedicated => db_container_name(site),
        },
    }
}

/// The statements that create the schema and the user of a site.
pub open spec fn create_sql(name: Seq<char>, user: Seq<char>, password: Seq<char>) -> Seq<char> {
    "CREATE DATABASE IF NOT EXISTS `"@ + name
        + "` CHARACTER SET utf8mb4 COLLATE utf8mb4_unicode_ci; CREATE USER IF NOT EXISTS '"@ + user
        + "'@'localhost' IDENTIFIED BY '"@ + password + "'; GRANT ALL PRIVILEGES ON `"@ + name
        + "`.* TO '"@ + user + "'@'localhost'; FLUSH PRIVILEGES;"@
}

/// Executable form of [`create_sql`].
fn write_create_sql(name: &str, user: &str, password: &str) -> (s: String)
    ensures
        s@ == create_sql(name@, user@, password@),
{
    let mut s = text::cat5(
        "CREATE DATABASE IF NOT EXISTS `",
        name,
        "` CHARACTER SET utf8mb4 COLLATE utf8mb4_unicode_ci; CREATE USER IF NOT EXISTS '",
        user,
        "'@'localhost' IDENTIFIED BY '",
    );
    s.append(password);
    s.append("'; GRANT ALL PRIVILEGES ON `");
    s.append(name);
    s.append("`.* TO '");
    s.append(user);
    s.append("'@'localhost'; FLUSH PRIVILEGES;");
    s
}

/// The arguments that start a site's own database.
pub open spec fn dedicated_args(config: Config, site: RecordView, c: CredentialsView) -> Seq<
    Seq<char>,
> {
    seq![
        "run"@,
        "--detach"@,
        "--restart"@,
        "unless-stopped"@,
        "--name"@,
        db_container(site),
        "--memory"@,
        "512m"@,
        "--volume"@,
        config.spec_in_site(site.domain, "mysql"@) + ":/var/lib/mysql"@,
        "--env"@,
        "MARIADB_DATABASE="@ + c.name,
        "--env"@,
        "MARIADB_USER="@ + c.user,
        "--env"@,
        "MARIADB_PASSWORD="@ + c.password,
        "--env"@,
        "MARIADB_RANDOM_ROOT_PASSWORD=yes"@,
        "--label"@,
        "wp-panel.site="@ + site.domain,
        "mariadb:11.4"@,
    ]
}

/// Runs SQL statements on the host's server.
pub open spec fn mysql(sql: Seq<char>) -> TaskView {
    plan::plain(plan::command("mysql"@, seq!["--protocol=socket"@, "-e"@, sql]))
}

/// Creates the database of a site.
pub open spec fn spec_create(config: Config, site: RecordView, password: Seq<char>) -> Seq<
    TaskView,
> {
    let c = credentials_of(site, password);
    match site.database_mode {
        DatabaseMode::Shared => seq![mysql(create_sql(c.name, c.user, c.password))],
        DatabaseMode::Dedicated => docker::docker(dedicated_args(config, site, c)),
    }
}

/// Creates the database of a site, with the credentials of [`credentials`].
pub fn create(config: &Config, site: &SiteRecord, password: &str) -> (v: Vec<Task>)
    ensures
        plan::tasks(v@) == spec_create(*config, site@, password@),
{
    let c = credentials(site, password);
    match site.database_mode {
        DatabaseMode::Shared => {
            let sql = write_create_sql(c.name.as_str(), c.user.as_str(), c.password.as_str());
            plan::only(
                plan::run("mysql", text::list3("--protocol=socket", "-e", sql.as_str())),
            )
        },
        DatabaseMode::Dedicated => {
            let container = db_container_name(site);
            let data = config.in_site(site.domain.as_str(), "mysql");
            let data = text::cat2(data.as_str(), ":/var/lib/mysql");
            let database = text::cat2("MARIADB_DATABASE=", c.name.as_str());
            let user = text::cat2("MARIADB_USER=", c.user.as_str());
            let secret = text::cat2("MARIADB_PASSWORD=", c.password.as_str());
            let label = text::cat2("wp-panel.site=", site.domain.as_str());
            let mut args = text::list10(
                "run",
                "--detach",
                "--restart",
                "unless-stopped",
                "--name",
                container.as_str(),
                "--memory",
                "512m",
                "--volume",
                data.as_str(),
            );
            text::more8(
                &mut args,
                "--env",
                database.as_str(),
                "--env",
                user.as_str(),
                "--env",
                secret.as_str(),
                "--env",
                "MARIADB_RANDOM_ROOT_PASSWORD=yes",
            );
            text::more3(&mut args, "--label", label.as_str(), "mariadb:11.4");
            assert(text::texts(args@) =~= dedicated_args(*config, site@, c@));
            plan::only(plan::run("docker", args))
        },
    }
}

/// The statements that drop the schema and the user of a site.
pub open spec fn drop_sql(name: Seq<char>, user: Seq<char>) -> Seq<char> {
    "DROP DATABASE IF EXISTS `"@ + name + "`; DROP USER IF EXISTS '"@ + user + "'@'localhost';"@
}

/// Drops the database of a site.
pub open spec fn spec_drop(site: RecordView) -> Seq<TaskView> {
    match site.database_mode {
        DatabaseMode::Shared => seq![
            mysql(drop_sql(models::identifier_of(site.domain), models::identifier_of(site.domain))),
        ],
        DatabaseMode::Dedicated => docker::spec_remove(db_container(site)),
    }
}

pub fn drop(site: &SiteRecord) -> (v: Vec<Task>)
    ensures
        plan::tasks(v@) == spec_drop(site@),
{
    match site.database_mode {
        DatabaseMode::Shared => {
            let name = db_name(site.domain.as_str());
            let user = system_user(site.domain.as_str());
            let sql = text::cat5(
                "DROP DATABASE IF EXISTS `",
                name.as_str(),
                "`; DROP USER IF EXISTS '",
                user.as_str(),
                "'@'localhost';",
            );
            plan::only(
                plan::run("mysql", text::list3("--protocol=socket", "-e", sql.as_str())),
            )
        },
        DatabaseMode::Dedicated => {
            let container = db_container_name(site);
            docker::remove(container.as_str())
        },
    }
}

/// Where the dump of a site's database goes before it is compressed; `.gz` is then added
/// to its name.
pub open spec fn dump_path(config: Config, site: RecordView) -> Seq<char> {
    config.spec_in_site(site.domain, "backups/database.sql"@)
}

/// A shell command.
pub open spec fn shell(script: Seq<char>) -> TaskView {
    plan::plain(plan::command("sh"@, seq!["-c"@, script]))
}

/// Executable form of [`shell`].
pub fn shell_task(script: &str) -> (t: Task)
    ensures
        t@ == shell(script@),
{
    plan::plain_task(plan::run("sh", text::list2("-c", script)))
}

/// Writes a gzipped dump into the site's backups directory.
pub open spec fn spec_dump(config: Config, site: RecordView) -> TaskView {
    let file = dump_path(config, site);
    shell(
        "mysqldump --protocol=socket --single-transaction --quick '"@ + models::identifier_of(
            site.domain,
        ) + "' > '"@ + file + "' && gzip --force '"@ + file + "'"@,
    )
}

/// Writes a gzipped dump into the site's backups directory.
pub fn dump(config: &Config, site: &SiteRecord) -> (t: Task)
    ensures
        t@ == spec_dump(*config, site@),
{
    let target = config.in_site(site.domain.as_str(), "backups/database.sql");
    let name = db_name(site.domain.as_str());
    let mut script = text::cat4(
        "mysqldump --protocol=socket --single-transaction --quick '",
        name.as_str(),
        "' > '",
        target.as_str(),
    );
    script.append("' && gzip --force '");
    script.append(target.as_str());
    script.append("'");
    shell_task(script.as_str())
}

/// Reads a dump into the database of a site: the gzipped one, whose name is `path` and
/// `.gz`, or else the plain one.
pub open spec fn spec_import_dump(site: RecordView, path: Seq<char>) -> TaskView {
    shell(
        "if [ -e '"@ + path + ".gz' ]; then gunzip --force '"@ + path
            + ".gz'; fi && mysql --protocol=socket '"@ + models::identifier_of(site.domain)
            + "' < '"@ + path + "'"@,
    )
}

/// Executable form of [`spec_import_dump`].
pub fn import_dump(site: &SiteRecord, path: &str) -> (t: Task)
    ensures
        t@ == spec_import_dump(site@, path@),
{
    let name = db_name(site.domain.as_str());
    let mut script = text::cat5(
        "if [ -e '",
        path,
        ".gz' ]; then gunzip --force '",
        path,
        ".gz'; fi && mysql --protocol=socket '",
    );
    script.append(name.as_str());
    script.append("' < '");
    script.append(path);
    script.append("'");
    shell_task(script.as_str())
}

/// Reads a dump into the database of a site.
pub open spec fn spec_import(site: RecordView, path: Seq<char>) -> TaskView {
    shell(
        "mysql --protocol=socket '"@ + models::identifier_of(site.domain) + "' < '"@ + path + "'"@,
    )
}

pub fn import(site: &SiteRecord, path: &str) -> (t: Task)
    ensures
        t@ == spec_import(site@, path@),
{
    let name = db_name(site.domain.as_str());
    let script = text::cat5("mysql --protocol=socket '", name.as_str(), "' < '", path, "'");
    shell_task(script.as_str())
}

} // verus!
