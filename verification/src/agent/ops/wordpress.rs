//! WordPress operations, all through WP-CLI inside the site container.
//!
//! WP-CLI subcommands are whitelisted: the panel cannot ask the agent to run
//! arbitrary commands, only WordPress management verbs.

use vstd::prelude::*;
use crate::agent::exec::{CommandOutput, OutputView};
use crate::agent::ops::database::{Credentials, CredentialsView};
use crate::agent::ops::docker;
use crate::agent::plan;
use crate::agent::plan::{Action, ActionView, OnError, OnErrorView, Stage, StageView, Task, TaskView};
use crate::agent::store::{RecordView, SiteRecord};
use crate::common::error::{Error, ErrorView};
use crate::common::models::{CronMode, PluginInfo, ThemeInfo, WpItemAction, WpUserInfo};
use crate::common::protocol::{InstallView, InstallWordpress};
use crate::json;
use crate::text;

verus! {

// ---------------------------------------------------------------------------
// WP-CLI
// ---------------------------------------------------------------------------

/// A WP-CLI command in a container.
pub open spec fn wp(container: Seq<char>, args: Seq<Seq<char>>) -> TaskView {
    plan::plain(
        docker::spec_exec_in(container, seq!["wp"@, "--path=/var/www/html"@] + args),
    )
}

/// A WP-CLI command in a container.
pub fn wp_task(container: &str, args: &Vec<String>) -> (t: Task)
    ensures
        t@ == wp(container@, text::texts(args@)),
{
    let mut argv = text::list2("wp", "--path=/var/www/html");
    text::push_all(&mut argv, args);
    plan::plain_task(docker::exec_in(container, &argv))
}

/// Subcommands that the panel may ask for.
pub open spec fn allowed(subcommand: Seq<char>) -> bool {
    ||| subcommand == "core"@
    ||| subcommand == "plugin"@
    ||| subcommand == "theme"@
    ||| subcommand == "option"@
    ||| subcommand == "user"@
    ||| subcommand == "cache"@
    ||| subcommand == "db"@
    ||| subcommand == "search-replace"@
    ||| subcommand == "cron"@
    ||| subcommand == "rewrite"@
    ||| subcommand == "transient"@
    ||| subcommand == "site"@
    ||| subcommand == "post"@
    ||| subcommand == "media"@
}

/// Executable form of [`allowed`].
pub fn is_allowed(subcommand: &str) -> (r: bool)
    ensures
        r == allowed(subcommand@),
{
    text::same(subcommand, "core") || text::same(subcommand, "plugin") || text::same(
        subcommand,
        "theme",
    ) || text::same(subcommand, "option") || text::same(subcommand, "user") || text::same(
        subcommand,
        "cache",
    ) || text::same(subcommand, "db") || text::same(subcommand, "search-replace") || text::same(
        subcommand,
        "cron",
    ) || text::same(subcommand, "rewrite") || text::same(subcommand, "transient") || text::same(
        subcommand,
        "site",
    ) || text::same(subcommand, "post") || text::same(subcommand, "media")
}

/// What the panel may ask for is management of WordPress and its data; nothing that runs
/// code, opens a shell, reaches the configuration or another host is among it.
pub proof fn law_nothing_that_runs_code_is_allowed(subcommand: Seq<char>)
    requires
        allowed(subcommand),
    ensures
        subcommand != "eval"@,
        subcommand != "eval-file"@,
        subcommand != "shell"@,
        subcommand != "config"@,
        subcommand != "package"@,
        subcommand != "cli"@,
        subcommand != "server"@,
        subcommand != "import"@,
        subcommand != "export"@,
        subcommand != "scaffold"@,
        subcommand == "core"@ || subcommand == "plugin"@ || subcommand == "theme"@ || subcommand
            == "option"@ || subcommand == "user"@ || subcommand == "cache"@ || subcommand == "db"@
            || subcommand == "search-replace"@ || subcommand == "cron"@ || subcommand
            == "rewrite"@ || subcommand == "transient"@ || subcommand == "site"@ || subcommand
            == "post"@ || subcommand == "media"@,
{
    lemma_first_letters();
}

/// What tells the subcommands apart.
proof fn lemma_first_letters()
    ensures
        "eval"@.len() == 4,
        "eval"@[0] == 'e',
        "eval"@[1] == 'v',
        "eval-file"@.len() == 9,
        "eval-file"@[0] == 'e',
        "eval-file"@[1] == 'v',
        "shell"@.len() == 5,
        "shell"@[0] == 's',
        "shell"@[1] == 'h',
        "config"@.len() == 6,
        "config"@[0] == 'c',
        "config"@[1] == 'o',
        "package"@.len() == 7,
        "package"@[0] == 'p',
        "package"@[1] == 'a',
        "cli"@.len() == 3,
        "cli"@[0] == 'c',
        "cli"@[1] == 'l',
        "server"@.len() == 6,
        "server"@[0] == 's',
        "server"@[1] == 'e',
        "import"@.len() == 6,
        "import"@[0] == 'i',
        "import"@[1] == 'm',
        "export"@.len() == 6,
        "export"@[0] == 'e',
        "export"@[1] == 'x',
        "scaffold"@.len() == 8,
        "scaffold"@[0] == 's',
        "scaffold"@[1] == 'c',
        "core"@.len() == 4,
        "core"@[0] == 'c',
        "core"@[1] == 'o',
        "plugin"@.len() == 6,
        "plugin"@[0] == 'p',
        "plugin"@[1] == 'l',
        "theme"@.len() == 5,
        "theme"@[0] == 't',
        "theme"@[1] == 'h',
        "option"@.len() == 6,
        "option"@[0] == 'o',
        "option"@[1] == 'p',
        "user"@.len() == 4,
        "user"@[0] == 'u',
        "user"@[1] == 's',
        "cache"@.len() == 5,
        "cache"@[0] == 'c',
        "cache"@[1] == 'a',
        "db"@.len() == 2,
        "db"@[0] == 'd',
        "db"@[1] == 'b',
        "search-replace"@.len() == 14,
        "search-replace"@[0] == 's',
        "search-replace"@[1] == 'e',
        "cron"@.len() == 4,
        "cron"@[0] == 'c',
        "cron"@[1] == 'r',
        "rewrite"@.len() == 7,
        "rewrite"@[0] == 'r',
        "rewrite"@[1] == 'e',
        "transient"@.len() == 9,
        "transient"@[0] == 't',
        "transient"@[1] == 'r',
        "site"@.len() == 4,
        "site"@[0] == 's',
        "site"@[1] == 'i',
        "post"@.len() == 4,
        "post"@[0] == 'p',
        "post"@[1] == 'o',
        "media"@.len() == 5,
        "media"@[0] == 'm',
        "media"@[1] == 'e',
{
    reveal_strlit("eval");
    reveal_strlit("eval-file");
    reveal_strlit("shell");
    reveal_strlit("config");
    reveal_strlit("package");
    reveal_strlit("cli");
    reveal_strlit("server");
    reveal_strlit("import");
    reveal_strlit("export");
    reveal_strlit("scaffold");
    reveal_strlit("core");
    reveal_strlit("plugin");
    reveal_strlit("theme");
    reveal_strlit("option");
    reveal_strlit("user");
    reveal_strlit("cache");
    reveal_strlit("db");
    reveal_strlit("search-replace");
    reveal_strlit("cron");
    reveal_strlit("rewrite");
    reveal_strlit("transient");
    reveal_strlit("site");
    reveal_strlit("post");
    reveal_strlit("media");
}

/// Characters that mean something to a shell.
pub open spec fn has_meta(arg: Seq<char>) -> bool {
    arg.contains(';') || arg.contains('`') || arg.contains('$')
}

/// Why panel-supplied WP-CLI arguments are refused, if they are.
pub open spec fn refusal(args: Seq<Seq<char>>) -> Option<ErrorView> {
    if args.len() == 0 {
        Some(ErrorView::Invalid("no wp-cli subcommand supplied"@))
    } else if !allowed(args[0]) {
        Some(ErrorView::Invalid("`wp "@ + args[0] + "` is not allowed by this agent"@))
    } else if exists|i: int| 0 <= i < args.len() && has_meta(#[trigger] args[i]) {
        Some(ErrorView::Invalid("wp-cli arguments contain shell metacharacters"@))
    } else {
        None
    }
}

/// Whether an argument holds a character of [`has_meta`].
fn is_meta(arg: &str) -> (r: bool)
    ensures
        r == has_meta(arg@),
{
    let cs = text::chars_of(arg);
    text::has_char(cs.as_slice(), ';') || text::has_char(cs.as_slice(), '`') || text::has_char(
        cs.as_slice(),
        '$',
    )
}

/// Entry point for panel-supplied WP-CLI arguments.
pub fn passthrough(site: &SiteRecord, args: &Vec<String>) -> (r: Result<Task, Error>)
    ensures
        match r {
            Ok(t) => refusal(text::texts(args@)) is None && t@ == wp(
                site@.container(),
                text::texts(args@),
            ),
            Err(e) => refusal(text::texts(args@)) == Some(e@),
        },
{
    let ghost all = text::texts(args@);
    if args.len() == 0 {
        return Err(Error::invalid("no wp-cli subcommand supplied"));
    }
    let subcommand = args[0].as_str();
    assert(all[0] == subcommand@);
    if !is_allowed(subcommand) {
        return Err(
            Error::Invalid(text::cat3("`wp ", subcommand, "` is not allowed by this agent")),
        );
    }
    let mut i: usize = 0;
    while i < args.len()
        invariant
            i <= args@.len(),
            all == text::texts(args@),
            forall|j: int| 0 <= j < i ==> !has_meta(#[trigger] all[j]),
            all.len() > 0,
            allowed(all[0]),
        decreases args@.len() - i,
    {
        assert(all[i as int] == args@[i as int]@);
        if is_meta(args[i].as_str()) {
            return Err(Error::invalid("wp-cli arguments contain shell metacharacters"));
        }
        i += 1;
    }
    let container = site.container_name();
    Ok(wp_task(container.as_str(), args))
}

// ---------------------------------------------------------------------------
// Installing and updating
// ---------------------------------------------------------------------------

/// Asks for the version of WordPress.
pub open spec fn spec_version(container: Seq<char>) -> TaskView {
    wp(container, seq!["core"@, "version"@])
}

/// Asks for the version of WordPress.
pub fn version(container: &str) -> (t: Task)
    ensures
        t@ == spec_version(container@),
{
    wp_task(container, &text::list2("core", "version"))
}

/// Downloads, configures and installs WordPress; the last task prints its version.
pub open spec fn spec_install(
    site: RecordView,
    c: CredentialsView,
    request: InstallView,
) -> Seq<TaskView> {
    let container = site.container();
    seq![
        wp(container, seq!["core"@, "download"@, "--locale="@ + request.locale]),
        wp(
            container,
            seq![
                "config"@,
                "create"@,
                "--dbname="@ + c.name,
                "--dbuser="@ + c.user,
                "--dbpass="@ + c.password,
                "--dbhost="@ + c.host,
                "--dbcharset=utf8mb4"@,
                "--skip-check"@,
            ],
        ),
        wp(
            container,
            seq![
                "core"@,
                "install"@,
                "--url=https://"@ + site.domain,
                "--title="@ + request.site_title,
                "--admin_user="@ + request.admin_user,
                "--admin_email="@ + request.admin_email,
                "--admin_password="@ + request.admin_password,
                "--skip-email"@,
            ],
        ),
        wp(container, seq!["rewrite"@, "structure"@, "/%postname%/"@]),
        wp(container, seq!["option"@, "update"@, "blog_public"@, "1"@]),
        spec_version(container),
    ]
}

pub fn install(site: &SiteRecord, c: &Credentials, request: &InstallWordpress) -> (v: Vec<Task>)
    ensures
        plan::tasks(v@) == spec_install(site@, c@, request@),
{
    let container = site.container_name();
    let container = container.as_str();
    let mut v = plan::no_tasks();
    let locale = text::cat2("--locale=", request.locale.as_str());
    plan::push_task(
        &mut v,
        wp_task(container, &text::list3("core", "download", locale.as_str())),
    );
    let name = text::cat2("--dbname=", c.name.as_str());
    let user = text::cat2("--dbuser=", c.user.as_str());
    let pass = text::cat2("--dbpass=", c.password.as_str());
    let host = text::cat2("--dbhost=", c.host.as_str());
    plan::push_task(
        &mut v,
        wp_task(
            container,
            &text::list8(
                "config",
                "create",
                name.as_str(),
                user.as_str(),
                pass.as_str(),
                host.as_str(),
                "--dbcharset=utf8mb4",
                "--skip-check",
            ),
        ),
    );
    let url = text::cat2("--url=https://", site.domain.as_str());
    let title = text::cat2("--title=", request.site_title.as_str());
    let admin = text::cat2("--admin_user=", request.admin_user.as_str());
    let email = text::cat2("--admin_email=", request.admin_email.as_str());
    let secret = text::cat2("--admin_password=", request.admin_password.as_str());
    plan::push_task(
        &mut v,
        wp_task(
            container,
            &text::list8(
                "core",
                "install",
                url.as_str(),
                title.as_str(),
                admin.as_str(),
                email.as_str(),
                secret.as_str(),
                "--skip-email",
            ),
        ),
    );
    plan::push_task(
        &mut v,
        wp_task(container, &text::list3("rewrite", "structure", "/%postname%/")),
    );
    plan::push_task(
        &mut v,
        wp_task(container, &text::list4("option", "update", "blog_public", "1")),
    );
    plan::push_task(&mut v, version(container));
    v
}

/// Updates WordPress and its database; the last task prints the new version.
pub open spec fn spec_update_core(container: Seq<char>) -> Seq<TaskView> {
    seq![
        wp(container, seq!["core"@, "update"@]),
        wp(container, seq!["core"@, "update-db"@]),
        spec_version(container),
    ]
}

pub fn update_core(container: &str) -> (v: Vec<Task>)
    ensures
        plan::tasks(v@) == spec_update_core(container@),
{
    let mut v = plan::no_tasks();
    plan::push_task(&mut v, wp_task(container, &text::list2("core", "update")));
    plan::push_task(&mut v, wp_task(container, &text::list2("core", "update-db")));
    plan::push_task(&mut v, version(container));
    v
}

/// Empties the object cache.
pub open spec fn spec_flush_cache(container: Seq<char>) -> TaskView {
    wp(container, seq!["cache"@, "flush"@])
}

pub fn flush_cache(container: &str) -> (t: Task)
    ensures
        t@ == spec_flush_cache(container@),
{
    wp_task(container, &text::list2("cache", "flush"))
}

/// Replaces the site URL everywhere.
pub open spec fn spec_search_replace(
    container: Seq<char>,
    from: Seq<char>,
    to: Seq<char>,
) -> TaskView {
    wp(container, seq!["search-replace"@, from, to, "--all-tables"@, "--precise"@])
}

/// Replaces the site URL everywhere. Used by clone and staging.
pub fn search_replace(container: &str, from: &str, to: &str) -> (t: Task)
    ensures
        t@ == spec_search_replace(container@, from@, to@),
{
    wp_task(container, &text::list5("search-replace", from, to, "--all-tables", "--precise"))
}

/// Sets one constant in wp-config.php.
pub open spec fn set_constant(container: Seq<char>, name: Seq<char>, value: Seq<char>) -> TaskView {
    wp(container, seq!["config"@, "set"@, name, value, "--raw"@, "--allow-root"@])
}

/// Set database credentials in wp-config.php.
pub open spec fn spec_set_db_config(container: Seq<char>, c: CredentialsView) -> Seq<TaskView> {
    seq![
        set_constant(container, "DB_NAME"@, c.name),
        set_constant(container, "DB_USER"@, c.user),
        set_constant(container, "DB_PASSWORD"@, c.password),
    ]
}

/// Set database credentials in wp-config.php.
pub fn set_db_config(container: &str, c: &Credentials) -> (v: Vec<Task>)
    ensures
        plan::tasks(v@) == spec_set_db_config(container@, c@),
{
    let mut v = plan::no_tasks();
    plan::push_task(
        &mut v,
        wp_task(
            container,
            &text::list6("config", "set", "DB_NAME", c.name.as_str(), "--raw", "--allow-root"),
        ),
    );
    plan::push_task(
        &mut v,
        wp_task(
            container,
            &text::list6("config", "set", "DB_USER", c.user.as_str(), "--raw", "--allow-root"),
        ),
    );
    plan::push_task(
        &mut v,
        wp_task(
            container,
            &text::list6(
                "config",
                "set",
                "DB_PASSWORD",
                c.password.as_str(),
                "--raw",
                "--allow-root",
            ),
        ),
    );
    v
}

// ---------------------------------------------------------------------------
// Plugins, themes, users, cron
// ---------------------------------------------------------------------------

/// Characters of a plugin or theme slug.
pub open spec fn is_slug_char(c: char) -> bool {
    text::is_alnum(c) || c == '.' || c == '-' || c == '_'
}

/// Why a plugin/theme slug is refused, if it is: alphanumeric, dots, hyphens,
/// underscores only.
pub open spec fn slug_error(slug: Seq<char>) -> Option<ErrorView> {
    if text::byte_len(slug) == 0 || text::byte_len(slug) > 64 {
        Some(ErrorView::Invalid("slug must be 1-64 characters"@))
    } else if exists|i: int| 0 <= i < slug.len() && !is_slug_char(#[trigger] slug[i]) {
        Some(ErrorView::Invalid("slug contains invalid characters"@))
    } else if slug.len() > 0 && (slug[0] == '.' || slug[0] == '-') {
        Some(ErrorView::Invalid("slug must start with a letter or digit"@))
    } else {
        None
    }
}

/// Validate a plugin/theme slug.
pub fn validate_slug(slug: &str) -> (r: Result<(), Error>)
    ensures
        match r {
            Ok(_) => slug_error(slug@) is None,
            Err(e) => slug_error(slug@) == Some(e@),
        },
{
    let n = text::bytes_in(slug);
    if n == 0 || n > 64 {
        return Err(Error::invalid("slug must be 1-64 characters"));
    }
    let cs = text::chars_of(slug);
    let mut i: usize = 0;
    while i < cs.len()
        invariant
            i <= cs@.len(),
            cs@ == slug@,
            forall|j: int| 0 <= j < i ==> is_slug_char(#[trigger] slug@[j]),
            0 < text::byte_len(slug@) <= 64,
        decreases cs@.len() - i,
    {
        let c = cs[i];
        if !(text::alnum(c) || c == '.' || c == '-' || c == '_') {
            assert(!is_slug_char(slug@[i as int]));
            return Err(Error::invalid("slug contains invalid characters"));
        }
        i += 1;
    }
    if cs.len() > 0 && (cs[0] == '.' || cs[0] == '-') {
        return Err(Error::invalid("slug must start with a letter or digit"));
    }
    Ok(())
}

/// Asks for the plugins of a site.
pub open spec fn spec_list_plugins(container: Seq<char>) -> TaskView {
    wp(
        container,
        seq![
            "plugin"@,
            "list"@,
            "--format=json"@,
            "--fields=name,status,version,update_version,auto_update"@,
        ],
    )
}

pub fn list_plugins(container: &str) -> (t: Task)
    ensures
        t@ == spec_list_plugins(container@),
{
    wp_task(
        container,
        &text::list4(
            "plugin",
            "list",
            "--format=json",
            "--fields=name,status,version,update_version,auto_update",
        ),
    )
}

/// Asks for the themes of a site.
pub open spec fn spec_list_themes(container: Seq<char>) -> TaskView {
    wp(
        container,
        seq![
            "theme"@,
            "list"@,
            "--format=json"@,
            "--fields=name,status,version,update_version"@,
        ],
    )
}

pub fn list_themes(container: &str) -> (t: Task)
    ensures
        t@ == spec_list_themes(container@),
{
    wp_task(
        container,
        &text::list4(
            "theme",
            "list",
            "--format=json",
            "--fields=name,status,version,update_version",
        ),
    )
}

/// Asks for the users of a site.
pub open spec fn spec_list_wp_users(container: Seq<char>) -> TaskView {
    wp(
        container,
        seq![
            "user"@,
            "list"@,
            "--format=json"@,
            "--fields=ID,user_login,user_email,roles"@,
        ],
    )
}

pub fn list_wp_users(container: &str) -> (t: Task)
    ensures
        t@ == spec_list_wp_users(container@),
{
    wp_task(
        container,
        &text::list4(
            "user",
            "list",
            "--format=json",
            "--fields=ID,user_login,user_email,roles",
        ),
    )
}

/// [`WpUserInfo`] with its texts as sequences of characters.
pub struct WpUserView {
    pub id: i64,
    pub login: Seq<char>,
    pub email: Seq<char>,
    pub role: Seq<char>,
}

impl View for WpUserInfo {
    type V = WpUserView;

    open spec fn view(&self) -> WpUserView {
        WpUserView { id: self.id, login: self.login@, email: self.email@, role: self.role@ }
    }
}

/// The views of a list of users.
pub open spec fn users(v: Seq<WpUserInfo>) -> Seq<WpUserView> {
    v.map_values(|u: WpUserInfo| u@)
}

/// The user that a JSON object describes; what it leaves out is empty.
pub open spec fn user_of(doc: Seq<char>) -> WpUserView {
    WpUserView {
        id: match json::i64_member(doc, "ID"@) {
            Some(id) => id,
            None => 0,
        },
        login: json::text_or(json::str_member(doc, "user_login"@), ""@),
        email: json::text_or(json::str_member(doc, "user_email"@), ""@),
        role: json::text_or(json::str_member(doc, "roles"@), ""@),
    }
}

/// Executable form of [`user_of`].
pub fn read_user(doc: &str) -> (u: WpUserInfo)
    ensures
        u@ == user_of(doc@),
{
    WpUserInfo {
        id: match json::get_i64(doc, "ID") {
            Some(id) => id,
            None => 0,
        },
        login: json::get_str_or(doc, "user_login", ""),
        email: json::get_str_or(doc, "user_email", ""),
        role: json::get_str_or(doc, "roles", ""),
    }
}

/// What is shown for the users of a site in dry-run.
pub open spec fn demo_user() -> WpUserView {
    WpUserView {
        id: 1,
        login: "admin"@,
        email: "admin@example.com"@,
        role: "administrator"@,
    }
}

/// The users in the answer to [`spec_list_wp_users`].
pub open spec fn users_in(out: OutputView) -> Result<Seq<WpUserView>, ErrorView> {
    if out.skipped {
        Ok(seq![demo_user()])
    } else {
        match json::json_elements(out.trimmed()) {
            Ok(list) => Ok(list.map_values(|doc: Seq<char>| user_of(doc))),
            Err(reason) => Err(ErrorView::Internal(reason)),
        }
    }
}

/// Executable form of [`users_in`].
pub fn read_users(out: &CommandOutput) -> (r: Result<Vec<WpUserInfo>, Error>)
    ensures
        match r {
            Ok(list) => users_in(out@) == Ok::<Seq<WpUserView>, ErrorView>(users(list@)),
            Err(e) => users_in(out@) == Err::<Seq<WpUserView>, ErrorView>(e@),
        },
{
    let mut list: Vec<WpUserInfo> = Vec::new();
    if out.skipped {
        let user = WpUserInfo {
            id: 1,
            login: "admin".to_owned(),
            email: "admin@example.com".to_owned(),
            role: "administrator".to_owned(),
        };
        list.push(user);
        assert(users(list@) =~= seq![demo_user()]);
        return Ok(list);
    }
    let doc = out.trimmed_stdout();
    match json::elements(doc.as_str()) {
        Err(reason) => Err(Error::Internal(reason)),
        Ok(raw) => {
            let ghost docs = text::texts(raw@);
            let ghost all = docs.map_values(|d: Seq<char>| user_of(d));
            let mut i: usize = 0;
            while i < raw.len()
                invariant
                    i <= raw@.len(),
                    docs == text::texts(raw@),
                    all == docs.map_values(|d: Seq<char>| user_of(d)),
                    users(list@) =~= all.take(i as int),
                decreases raw@.len() - i,
            {
                let user = read_user(raw[i].as_str());
                let ghost before = users(list@);
                list.push(user);
                assert(users(list@) =~= before.push(user@));
                i += 1;
            }
            assert(users(list@) =~= all);
            Ok(list)
        },
    }
}

/// Asks for the scheduled events of a site.
pub open spec fn spec_list_cron_events(container: Seq<char>) -> TaskView {
    wp(
        container,
        seq![
            "cron"@,
            "event"@,
            "list"@,
            "--format=json"@,
            "--fields=hook,next_run_relative,schedule"@,
        ],
    )
}

pub fn list_cron_events(container: &str) -> (t: Task)
    ensures
        t@ == spec_list_cron_events(container@),
{
    wp_task(
        container,
        &text::list5(
            "cron",
            "event",
            "list",
            "--format=json",
            "--fields=hook,next_run_relative,schedule",
        ),
    )
}

/// Asks whether WordPress can be updated.
pub open spec fn spec_check_update(container: Seq<char>) -> TaskView {
    wp(container, seq!["core"@, "check-update"@, "--format=json"@])
}

pub fn check_update(container: &str) -> (t: Task)
    ensures
        t@ == spec_check_update(container@),
{
    wp_task(container, &text::list3("core", "check-update", "--format=json"))
}

/// The version that an update offers: under `update`, the `version` or else the
/// `new_version`.
pub open spec fn offered(doc: Seq<char>) -> Option<Seq<char>> {
    match json::json_member(doc, "update"@) {
        None => None,
        Some(update) => match json::json_member(update, "version"@) {
            Some(v) => json::json_str(v),
            None => json::str_member(update, "new_version"@),
        },
    }
}

/// Executable form of [`offered`].
pub fn read_offer(doc: &str) -> (r: Option<String>)
    ensures
        text::text_opt(r) == offered(doc@),
{
    match json::member(doc, "update") {
        None => None,
        Some(update) => match json::member(update.as_str(), "version") {
            Some(v) => json::as_str(v.as_str()),
            None => json::get_str(update.as_str(), "new_version"),
        },
    }
}

/// The newest version in the answer to [`spec_check_update`]: an array of
/// updates, empty where WordPress is up to date.
pub open spec fn latest_in(out: OutputView) -> Result<Option<Seq<char>>, ErrorView> {
    if out.skipped {
        Ok(None)
    } else {
        match json::json_elements(out.trimmed()) {
            Ok(list) => Ok(
                if list.len() > 0 {
                    offered(list[0])
                } else {
                    None
                },
            ),
            Err(reason) => Err(ErrorView::Internal(reason)),
        }
    }
}

/// Executable form of [`latest_in`].
pub fn read_latest(out: &CommandOutput) -> (r: Result<Option<String>, Error>)
    ensures
        match r {
            Ok(v) => latest_in(out@) == Ok::<Option<Seq<char>>, ErrorView>(text::text_opt(v)),
            Err(e) => latest_in(out@) == Err::<Option<Seq<char>>, ErrorView>(e@),
        },
{
    if out.skipped {
        return Ok(None);
    }
    let doc = out.trimmed_stdout();
    match json::elements(doc.as_str()) {
        Err(reason) => Err(Error::Internal(reason)),
        Ok(list) => if list.len() > 0 {
            assert(text::texts(list@)[0] == list@[0]@);
            Ok(read_offer(list[0].as_str()))
        } else {
            Ok(None)
        },
    }
}

/// Does something to a plugin or a theme.
pub open spec fn item_task(
    container: Seq<char>,
    item: Seq<char>,
    slug: Seq<char>,
    action: WpItemAction,
) -> TaskView {
    wp(container, seq![item, action.spec_str(), slug])
}

/// Does something to a plugin, unless its slug is refused.
pub fn plugin_action(container: &str, slug: &str, action: WpItemAction) -> (r: Result<Task, Error>)
    ensures
        match r {
            Ok(t) => slug_error(slug@) is None && t@ == item_task(
                container@,
                "plugin"@,
                slug@,
                action,
            ),
            Err(e) => slug_error(slug@) == Some(e@),
        },
{
    match validate_slug(slug) {
        Err(e) => Err(e),
        Ok(_) => Ok(wp_task(container, &text::list3("plugin", action.as_str(), slug))),
    }
}

/// Does something to a theme, unless its slug is refused.
pub fn theme_action(container: &str, slug: &str, action: WpItemAction) -> (r: Result<Task, Error>)
    ensures
        match r {
            Ok(t) => slug_error(slug@) is None && t@ == item_task(
                container@,
                "theme"@,
                slug@,
                action,
            ),
            Err(e) => slug_error(slug@) == Some(e@),
        },
{
    match validate_slug(slug) {
        Err(e) => Err(e),
        Ok(_) => Ok(wp_task(container, &text::list3("theme", action.as_str(), slug))),
    }
}

/// Updates every plugin.
pub open spec fn spec_update_all_plugins(container: Seq<char>) -> TaskView {
    wp(container, seq!["plugin"@, "update"@, "--all"@])
}

pub fn update_all_plugins(container: &str) -> (t: Task)
    ensures
        t@ == spec_update_all_plugins(container@),
{
    wp_task(container, &text::list3("plugin", "update", "--all"))
}

/// Gives a user a new password.
pub open spec fn spec_reset_wp_password(
    container: Seq<char>,
    user_login: Seq<char>,
    password: Seq<char>,
) -> TaskView {
    wp(container, seq!["user"@, "update"@, user_login, "--user_pass="@ + password])
}

pub fn reset_wp_password(container: &str, user_login: &str, password: &str) -> (t: Task)
    ensures
        t@ == spec_reset_wp_password(container@, user_login@, password@),
{
    let secret = text::cat2("--user_pass=", password);
    wp_task(container, &text::list4("user", "update", user_login, secret.as_str()))
}

/// Characters of a cron hook.
pub open spec fn is_hook_char(c: char) -> bool {
    text::is_alnum(c) || c == '_' || c == '-'
}

/// Why a cron hook is refused, if it is: anything that isn't a simple hook name.
pub open spec fn hook_error(hook: Seq<char>) -> Option<ErrorView> {
    if exists|i: int| 0 <= i < hook.len() && !is_hook_char(#[trigger] hook[i]) {
        Some(ErrorView::Invalid("invalid cron hook name"@))
    } else {
        None
    }
}

/// Runs a scheduled event now.
pub open spec fn hook_task(container: Seq<char>, hook: Seq<char>) -> TaskView {
    wp(container, seq!["cron"@, "event"@, "run"@, hook])
}

/// Runs a scheduled event now, unless its name is refused.
pub fn run_cron_event(container: &str, hook: &str) -> (r: Result<Task, Error>)
    ensures
        match r {
            Ok(t) => hook_error(hook@) is None && t@ == hook_task(container@, hook@),
            Err(e) => hook_error(hook@) == Some(e@),
        },
{
    let cs = text::chars_of(hook);
    let mut i: usize = 0;
    while i < cs.len()
        invariant
            i <= cs@.len(),
            cs@ == hook@,
            forall|j: int| 0 <= j < i ==> is_hook_char(#[trigger] hook@[j]),
        decreases cs@.len() - i,
    {
        let c = cs[i];
        if !text::alnum(c) && c != '_' && c != '-' {
            assert(!is_hook_char(hook@[i as int]));
            return Err(Error::invalid("invalid cron hook name"));
        }
        i += 1;
    }
    Ok(wp_task(container, &text::list4("cron", "event", "run", hook)))
}

/// Says who runs the scheduled events of a site.
pub open spec fn spec_set_wp_cron(container: Seq<char>, mode: CronMode) -> TaskView {
    let disabled = match mode {
        CronMode::WpCron => "false"@,
        CronMode::SystemCron => "true"@,
    };
    wp(container, seq!["config"@, "set"@, "DISABLE_WP_CRON"@, disabled, "--raw"@])
}

pub fn set_wp_cron(container: &str, mode: CronMode) -> (t: Task)
    ensures
        t@ == spec_set_wp_cron(container@, mode),
{
    let disabled = match mode {
        CronMode::WpCron => "false",
        CronMode::SystemCron => "true",
    };
    wp_task(container, &text::list5("config", "set", "DISABLE_WP_CRON", disabled, "--raw"))
}

// ---------------------------------------------------------------------------
// Purging
// ---------------------------------------------------------------------------

/// The part of a URL after the site's own scheme and domain; any other URL as it is.
pub open spec fn path_of(url: Seq<char>, domain: Seq<char>) -> Seq<char> {
    match text::strip_prefix(url, "http://"@ + domain) {
        Some(p) => p,
        None => match text::strip_prefix(url, "https://"@ + domain) {
            Some(p) => p,
            None => url,
        },
    }
}

/// Purges one URL through the purge location of the site's vhost. Where that
/// fails, because the module is not there, the object cache is flushed.
pub open spec fn purge_stages(site: RecordView, url: Seq<char>) -> Seq<StageView> {
    seq![
        StageView {
            skip_on_ok: 1,
            ..plan::attempt(
                seq![
                    plan::plain(
                        plan::command(
                            "curl"@,
                            seq![
                                "-s"@,
                                "-o"@,
                                "/dev/null"@,
                                "-w"@,
                                "%{http_code}"@,
                                "http://127.0.0.1/wp-panel-purge"@ + path_of(url, site.domain),
                            ],
                        ),
                    ),
                ],
            )
        },
        plan::attempt(seq![wp(site.container(), seq!["eval"@, "wp_cache_flush()"@])]),
    ]
}

/// Purges the URLs one after another.
pub open spec fn spec_purge_urls(site: RecordView, urls: Seq<Seq<char>>) -> Seq<StageView>
    decreases urls.len(),
{
    if urls.len() == 0 {
        Seq::empty()
    } else {
        spec_purge_urls(site, urls.drop_last()) + purge_stages(site, urls.last())
    }
}

/// Executable form of [`path_of`].
fn path_in(url: &str, domain: &str) -> (s: String)
    ensures
        s@ == path_of(url@, domain@),
{
    let cs = text::chars_of(url);
    let http = text::cat2("http://", domain);
    match text::after_prefix(cs.as_slice(), http.as_str()) {
        Some(p) => text::string_of(p),
        None => {
            let https = text::cat2("https://", domain);
            match text::after_prefix(cs.as_slice(), https.as_str()) {
                Some(p) => text::string_of(p),
                None => url.to_owned(),
            }
        },
    }
}

/// Appends the stages of [`purge_stages`].
fn push_purge(v: &mut Vec<Stage>, site: &SiteRecord, url: &str)
    ensures
        plan::stages(final(v)@) == plan::stages(old(v)@) + purge_stages(site@, url@),
{
    let ghost before = plan::stages(v@);
    let p = path_in(url, site.domain.as_str());
    let target = text::cat2("http://127.0.0.1/wp-panel-purge", p.as_str());
    let list = plan::only(
        plan::run(
            "curl",
            text::list6("-s", "-o", "/dev/null", "-w", "%{http_code}", target.as_str()),
        ),
    );
    let mut stage = plan::attempt_stage(list);
    stage.skip_on_ok = 1;
    plan::push_stage(v, stage);
    let container = site.container_name();
    let mut fallback = plan::no_tasks();
    plan::push_task(
        &mut fallback,
        wp_task(container.as_str(), &text::list2("eval", "wp_cache_flush()")),
    );
    plan::push_stage(v, plan::attempt_stage(fallback));
    assert(plan::stages(v@) =~= before + purge_stages(site@, url@));
}

/// Purges the URLs one after another.
pub fn purge_urls(site: &SiteRecord, urls: &Vec<String>) -> (v: Vec<Stage>)
    ensures
        plan::stages(v@) == spec_purge_urls(site@, text::texts(urls@)),
{
    let ghost all = text::texts(urls@);
    let mut v = plan::no_stages();
    let mut i: usize = 0;
    while i < urls.len()
        invariant
            i <= urls@.len(),
            all == text::texts(urls@),
            plan::stages(v@) == spec_purge_urls(site@, all.take(i as int)),
        decreases urls@.len() - i,
    {
        push_purge(&mut v, site, urls[i].as_str());
        assert(all.take(i + 1).drop_last() =~= all.take(i as int));
        i += 1;
    }
    assert(all.take(i as int) =~= all);
    v
}

// ---------------------------------------------------------------------------
// Shown in dry-run
// ---------------------------------------------------------------------------

/// [`PluginInfo`] with its texts as sequences of characters.
pub struct PluginView {
    pub name: Seq<char>,
    pub slug: Seq<char>,
    pub status: Seq<char>,
    pub version: Seq<char>,
    pub update_version: Option<Seq<char>>,
    pub auto_update: bool,
}

impl View for PluginInfo {
    type V = PluginView;

    open spec fn view(&self) -> PluginView {
        PluginView {
            name: self.name@,
            slug: self.slug@,
            status: self.status@,
            version: self.version@,
            update_version: text::text_opt(self.update_version),
            auto_update: self.auto_update,
        }
    }
}

/// [`ThemeInfo`] with its texts as sequences of characters.
pub struct ThemeView {
    pub name: Seq<char>,
    pub slug: Seq<char>,
    pub status: Seq<char>,
    pub version: Seq<char>,
    pub update_version: Option<Seq<char>>,
}

impl View for ThemeInfo {
    type V = ThemeView;

    open spec fn view(&self) -> ThemeView {
        ThemeView {
            name: self.name@,
            slug: self.slug@,
            status: self.status@,
            version: self.version@,
            update_version: text::text_opt(self.update_version),
        }
    }
}

/// The views of a list of plugins.
pub open spec fn plugins(v: Seq<PluginInfo>) -> Seq<PluginView> {
    v.map_values(|p: PluginInfo| p@)
}

/// The views of a list of themes.
pub open spec fn themes(v: Seq<ThemeInfo>) -> Seq<ThemeView> {
    v.map_values(|t: ThemeInfo| t@)
}

/// The plugins that are shown for a site in dry-run.
pub open spec fn shown_plugins() -> Seq<PluginView> {
    seq![
        PluginView {
            name: "Akismet Anti-Spam"@,
            slug: "akismet"@,
            status: "active"@,
            version: "5.3.5"@,
            update_version: None,
            auto_update: false,
        },
        PluginView {
            name: "Classic Editor"@,
            slug: "classic-editor"@,
            status: "inactive"@,
            version: "1.6.6"@,
            update_version: Some("1.6.7"@),
            auto_update: false,
        },
        PluginView {
            name: "WooCommerce"@,
            slug: "woocommerce"@,
            status: "active"@,
            version: "9.4.1"@,
            update_version: None,
            auto_update: false,
        },
    ]
}

/// Executable form of [`shown_plugins`].
pub fn demo_plugins() -> (v: Vec<PluginInfo>)
    ensures
        plugins(v@) == shown_plugins(),
{
    let mut v: Vec<PluginInfo> = Vec::new();
    v.push(
        PluginInfo {
            name: "Akismet Anti-Spam".to_owned(),
            slug: "akismet".to_owned(),
            status: "active".to_owned(),
            version: "5.3.5".to_owned(),
            update_version: None,
            auto_update: false,
        },
    );
    v.push(
        PluginInfo {
            name: "Classic Editor".to_owned(),
            slug: "classic-editor".to_owned(),
            status: "inactive".to_owned(),
            version: "1.6.6".to_owned(),
            update_version: Some("1.6.7".to_owned()),
            auto_update: false,
        },
    );
    v.push(
        PluginInfo {
            name: "WooCommerce".to_owned(),
            slug: "woocommerce".to_owned(),
            status: "active".to_owned(),
            version: "9.4.1".to_owned(),
            update_version: None,
            auto_update: false,
        },
    );
    v
}

/// The themes that are shown for a site in dry-run.
pub open spec fn shown_themes() -> Seq<ThemeView> {
    seq![
        ThemeView {
            name: "Twenty Twenty-Five"@,
            slug: "twentytwentyfive"@,
            status: "active"@,
            version: "1.0"@,
            update_version: None,
        },
        ThemeView {
            name: "Twenty Twenty-Four"@,
            slug: "twentytwentyfour"@,
            status: "inactive"@,
            version: "1.3"@,
            update_version: Some("1.4"@),
        },
    ]
}

/// Executable form of [`shown_themes`].
pub fn demo_themes() -> (v: Vec<ThemeInfo>)
    ensures
        themes(v@) == shown_themes(),
{
    let mut v: Vec<ThemeInfo> = Vec::new();
    v.push(
        ThemeInfo {
            name: "Twenty Twenty-Five".to_owned(),
            slug: "twentytwentyfive".to_owned(),
            status: "active".to_owned(),
            version: "1.0".to_owned(),
            update_version: None,
        },
    );
    v.push(
        ThemeInfo {
            name: "Twenty Twenty-Four".to_owned(),
            slug: "twentytwentyfour".to_owned(),
            status: "inactive".to_owned(),
            version: "1.3".to_owned(),
            update_version: Some("1.4".to_owned()),
        },
    );
    v
}

} // verus!
