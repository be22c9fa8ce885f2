//! Taking over an existing WordPress install over SSH.

use vstd::prelude::*;
use crate::agent::config::Config;
use crate::agent::exec::{CommandOutput, OutputView};
use crate::agent::ops::database;
use crate::agent::ops::docker;
use crate::agent::ops::filesystem;
use crate::agent::ops::flow;
use crate::agent::ops::flow::{Flow, FlowView, Fresh, OperationRun, RunView};
use crate::agent::ops::site;
use crate::agent::ops::webserver::WebServer;
use crate::agent::ops::wordpress;
use crate::agent::path;
use crate::agent::plan;
use crate::agent::plan::{
    Action, ActionView, Note, NoteView, OnError, OnErrorView, Runner, RunnerView, Stage,
    StageView, Task, TaskView,
};
use crate::agent::state::AgentState;
use crate::agent::store;
use crate::agent::store::{RecordView, SiteRecord};
use crate::common::error::{Error, ErrorView};
use crate::common::protocol::{ImportRequest, ImportSource, RemoteDb, SshAuth};
use crate::digits;
use crate::text;

verus! {

// ---------------------------------------------------------------------------
// SSH
// ---------------------------------------------------------------------------

/// The file that a private key is kept in while it is needed.
pub open spec fn key_path(source: ImportSource, fresh: Fresh) -> Option<Seq<char>> {
    match source.auth {
        SshAuth::PrivateKey(_) => Some(
            path::join(fresh.temp_dir@, "wp_import_"@ + fresh.key_id@ + ".key"@),
        ),
        SshAuth::Password(_) => None,
    }
}

/// Executable form of [`key_path`].
fn key_file(source: &ImportSource, fresh: &Fresh) -> (r: Option<String>)
    ensures
        text::text_opt(r) == key_path(*source, *fresh),
{
    match &source.auth {
        SshAuth::PrivateKey(_) => {
            let name = text::cat3("wp_import_", fresh.key_id.as_str(), ".key");
            Some(path::joined(fresh.temp_dir.as_str(), name.as_str()))
        },
        SshAuth::Password(_) => None,
    }
}

/// The temporary files of an import.
pub open spec fn key_files(key: Option<Seq<char>>) -> Seq<Seq<char>> {
    match key {
        Some(file) => seq![file],
        None => Seq::empty(),
    }
}

/// Executable form of [`key_files`].
fn list_key(key: &Option<String>) -> (v: Vec<String>)
    ensures
        text::texts(v@) == key_files(text::text_opt(*key)),
{
    match key {
        Some(file) => text::list1(file.as_str()),
        None => text::no_texts(),
    }
}

/// Writes a private key to its file, for the agent alone.
pub open spec fn key_stages(source: ImportSource, key: Option<Seq<char>>) -> Seq<StageView> {
    match (source.auth, key) {
        (SshAuth::PrivateKey(secret), Some(file)) => seq![
            plan::silent(
                seq![
                    plan::plain(
                        ActionView::WriteFile {
                            path: file,
                            contents: secret@,
                            context: "failed to write temp key: "@,
                        },
                    ),
                    plan::plain(ActionView::Restrict(file)),
                ],
            ),
        ],
        _ => Seq::empty(),
    }
}

/// Executable form of [`key_stages`].
fn build_key(source: &ImportSource, key: &Option<String>) -> (list: Vec<Stage>)
    ensures
        plan::stages(list@) == key_stages(*source, text::text_opt(*key)),
{
    let mut list = plan::no_stages();
    match (&source.auth, key) {
        (SshAuth::PrivateKey(secret), Some(file)) => {
            let mut tasks = plan::no_tasks();
            plan::push_action(
                &mut tasks,
                Action::WriteFile {
                    path: file.clone(),
                    contents: secret.clone(),
                    context: "failed to write temp key: ".to_owned(),
                },
            );
            plan::push_action(&mut tasks, Action::Restrict(file.clone()));
            assert(plan::tasks(tasks@) =~= seq![
                plan::plain(
                    ActionView::WriteFile {
                        path: file@,
                        contents: secret@,
                        context: "failed to write temp key: "@,
                    },
                ),
                plan::plain(ActionView::Restrict(file@)),
            ]);
            plan::push_stage(&mut list, plan::silent_stage(tasks));
        },
        _ => {},
    }
    list
}

/// What every SSH command starts with.
pub open spec fn ssh_base(source: ImportSource, key: Option<Seq<char>>) -> Seq<Seq<char>> {
    let base = seq![
        "-p"@,
        digits::dec(source.port as nat),
        "-o"@,
        "BatchMode=yes"@,
        "-o"@,
        "StrictHostKeyChecking=accept-new"@,
    ];
    match key {
        Some(file) => base.push("-i"@).push(file),
        None => base,
    }
}

/// Who is logged in as, and where.
pub open spec fn ssh_target(source: ImportSource) -> Seq<char> {
    source.user@ + "@"@ + source.host@
}

/// A command on the host of the source.
pub open spec fn ssh(source: ImportSource, key: Option<Seq<char>>, script: Seq<char>) -> TaskView {
    plan::plain(
        plan::command("ssh"@, ssh_base(source, key).push(ssh_target(source)).push(script)),
    )
}

/// Executable form of [`ssh_target`].
fn target_text(source: &ImportSource) -> (s: String)
    ensures
        s@ == ssh_target(*source),
{
    text::cat3(source.user.as_str(), "@", source.host.as_str())
}

/// Executable form of [`ssh`].
fn ssh_task(source: &ImportSource, key: &Option<String>, script: &str) -> (v: Vec<Task>)
    ensures
        plan::tasks(v@) == seq![ssh(*source, text::text_opt(*key), script@)],
{
    let port = digits::dec_u64(source.port as u64);
    let target = target_text(source);
    let mut args = text::list6(
        "-p",
        port.as_str(),
        "-o",
        "BatchMode=yes",
        "-o",
        "StrictHostKeyChecking=accept-new",
    );
    match key {
        Some(file) => text::more2(&mut args, "-i", file.as_str()),
        None => {},
    }
    text::more2(&mut args, target.as_str(), script);
    plan::only(plan::run("ssh", args))
}

// ---------------------------------------------------------------------------
// Looking at a source
// ---------------------------------------------------------------------------

/// The first line that holds `pat`.
pub open spec fn line_with(lines: Seq<Seq<char>>, pat: Seq<char>) -> Option<Seq<char>>
    decreases lines.len(),
{
    if lines.len() == 0 {
        None
    } else if text::has(lines[0], pat) {
        Some(lines[0])
    } else {
        line_with(lines.drop_first(), pat)
    }
}

/// Piece `n` of the first line that holds `pat`, cut at single quotes.
pub open spec fn quoted_piece(s: Seq<char>, pat: Seq<char>, n: int) -> Option<Seq<char>> {
    match line_with(text::lines(s), pat) {
        Some(line) => {
            let pieces = text::split(line, '\'');
            if 0 <= n < pieces.len() {
                Some(pieces[n])
            } else {
                None
            }
        },
        None => None,
    }
}

/// Executable form of [`quoted_piece`].
pub fn find_piece(s: &str, pat: &str, n: usize) -> (r: Option<String>)
    ensures
        text::text_opt(r) == quoted_piece(s@, pat@, n as int),
{
    let cs = text::chars_of(s);
    let p = text::chars_of(pat);
    let lines = text::lines_of(cs.as_slice());
    let ghost all = text::rows(lines@);
    let mut i: usize = 0;
    assert(all.skip(0) =~= all);
    while i < lines.len()
        invariant
            i <= lines@.len(),
            all == text::rows(lines@),
            all == text::lines(s@),
            p@ == pat@,
            line_with(all, pat@) == line_with(all.skip(i as int), pat@),
        decreases lines@.len() - i,
    {
        assert(all.skip(i as int)[0] == lines@[i as int]@);
        assert(all.skip(i as int).drop_first() =~= all.skip(i + 1));
        if text::has_chars(lines[i].as_slice(), p.as_slice()) {
            let pieces = text::pieces(lines[i].as_slice(), '\'');
            if n < pieces.len() {
                assert(text::rows(pieces@)[n as int] == pieces@[n as int]@);
                return Some(text::string_of(pieces[n].as_slice()));
            }
            return None;
        }
        i += 1;
    }
    None
}

/// What a stage printed; nothing where it failed.
pub open spec fn stdout_of(o: Option<OutputView>) -> Seq<char> {
    match o {
        Some(out) => out.stdout,
        None => ""@,
    }
}

/// Executable form of [`stdout_of`].
pub fn stdout_text(o: Option<&CommandOutput>) -> (s: String)
    ensures
        s@ == stdout_of(site::seen(o)),
{
    match o {
        Some(out) => out.stdout.clone(),
        None => "".to_owned(),
    }
}

/// What was learned of a site elsewhere.
pub struct Inspection {
    pub wp_version: String,
    pub php_version: String,
    pub size_mb: u64,
    pub db_name: Option<String>,
    pub db_user: Option<String>,
}

/// [`Inspection`] with its texts as sequences of characters.
pub struct InspectionView {
    pub wp_version: Seq<char>,
    pub php_version: Seq<char>,
    pub size_mb: u64,
    pub db_name: Option<Seq<char>>,
    pub db_user: Option<Seq<char>>,
}

impl View for Inspection {
    type V = InspectionView;

    open spec fn view(&self) -> InspectionView {
        InspectionView {
            wp_version: self.wp_version@,
            php_version: self.php_version@,
            size_mb: self.size_mb,
            db_name: text::text_opt(self.db_name),
            db_user: text::text_opt(self.db_user),
        }
    }
}

/// What dry-run shows of a site elsewhere.
pub open spec fn demo_inspection() -> InspectionView {
    InspectionView {
        wp_version: "6.7.1"@,
        php_version: "8.1.0"@,
        size_mb: 250,
        db_name: Some("demo_db"@),
        db_user: Some("demo_user"@),
    }
}

/// Executable form of [`demo_inspection`].
pub fn demo() -> (i: Inspection)
    ensures
        i@ == demo_inspection(),
{
    Inspection {
        wp_version: "6.7.1".to_owned(),
        php_version: "8.1.0".to_owned(),
        size_mb: 250,
        db_name: Some("demo_db".to_owned()),
        db_user: Some("demo_user".to_owned()),
    }
}

/// Asks the host of the source for its versions and sizes, and, where the panel
/// does not know the database, for its name and user. None of the answers has to
/// come.
pub open spec fn inspect_plan(source: ImportSource, key: Option<Seq<char>>) -> Seq<StageView> {
    let dir = source.remote_path@;
    let asked = key_stages(source, key).push(
        plan::attempt(seq![ssh(source, key, "cat "@ + dir + "/wp-includes/version.php"@)]),
    ).push(plan::attempt(seq![ssh(source, key, "php -v"@)])).push(
        plan::attempt(seq![ssh(source, key, "du -sm "@ + dir)]),
    );
    if source.db is None {
        asked.push(
            plan::attempt(seq![ssh(source, key, "grep DB_NAME "@ + dir + "/wp-config.php"@)]),
        ).push(
            plan::attempt(seq![ssh(source, key, "grep DB_USER "@ + dir + "/wp-config.php"@)]),
        )
    } else {
        asked
    }
}

/// Looks at a site elsewhere.
pub open spec fn spec_inspect(source: ImportSource, fresh: Fresh) -> RunView {
    let key = key_path(source, fresh);
    RunView {
        flow: FlowView::Inspect {
            with_key: key is Some,
            with_db: source.db is None,
        },
        runner: RunnerView::start(inspect_plan(source, key)),
        temp_files: key_files(key),
    }
}

/// What looking at a site elsewhere begins with.
pub enum Inspecting {
    /// In dry-run nobody is asked.
    Shown(Inspection),
    Run(OperationRun),
}

/// Looks at a site elsewhere.
pub fn inspect(config: &Config, source: &ImportSource, fresh: &Fresh) -> (r: Inspecting)
    ensures
        match r {
            Inspecting::Shown(i) => config.dry_run && i@ == demo_inspection(),
            Inspecting::Run(run) => !config.dry_run && run@ == spec_inspect(*source, *fresh),
        },
{
    if config.dry_run {
        return Inspecting::Shown(demo());
    }
    let key = key_file(source, fresh);
    let dir = source.remote_path.as_str();
    let mut list = build_key(source, &key);
    let script = text::cat3("cat ", dir, "/wp-includes/version.php");
    plan::push_stage(
        &mut list,
        plan::attempt_stage(ssh_task(source, &key, script.as_str())),
    );
    plan::push_stage(&mut list, plan::attempt_stage(ssh_task(source, &key, "php -v")));
    let script = text::cat2("du -sm ", dir);
    plan::push_stage(
        &mut list,
        plan::attempt_stage(ssh_task(source, &key, script.as_str())),
    );
    if source.db.is_none() {
        let script = text::cat3("grep DB_NAME ", dir, "/wp-config.php");
        plan::push_stage(
            &mut list,
            plan::attempt_stage(ssh_task(source, &key, script.as_str())),
        );
        let script = text::cat3("grep DB_USER ", dir, "/wp-config.php");
        plan::push_stage(
            &mut list,
            plan::attempt_stage(ssh_task(source, &key, script.as_str())),
        );
    }
    let temp_files = list_key(&key);
    Inspecting::Run(
        OperationRun {
            flow: Flow::Inspect { with_key: key.is_some(), with_db: source.db.is_none() },
            runner: Runner::new(list),
            temp_files,
        },
    )
}

/// The first line of a text.
pub open spec fn first_line(s: Seq<char>) -> Option<Seq<char>> {
    let lines = text::lines(s);
    if lines.len() > 0 {
        Some(lines[0])
    } else {
        None
    }
}

/// Executable form of [`first_line`].
fn read_first_line(s: &str) -> (r: Option<String>)
    ensures
        text::text_opt(r) == first_line(s@),
{
    let cs = text::chars_of(s);
    let lines = text::lines_of(cs.as_slice());
    if lines.len() > 0 {
        assert(text::rows(lines@)[0] == lines@[0]@);
        Some(text::string_of(lines[0].as_slice()))
    } else {
        None
    }
}

/// A text, or `unknown` in its place.
pub open spec fn or_unknown(o: Option<Seq<char>>) -> Seq<char> {
    match o {
        Some(s) => s,
        None => "unknown"@,
    }
}

/// What the answers to [`inspect_plan`] tell; they come after the stage that
/// writes the key, if there is one.
pub open spec fn inspected(r: RunnerView, with_key: bool, with_db: bool) -> InspectionView {
    let first = if with_key {
        1int
    } else {
        0int
    };
    InspectionView {
        wp_version: or_unknown(
            quoted_piece(stdout_of(r.output(first)), "$wp_version ="@, 1),
        ),
        php_version: or_unknown(first_line(stdout_of(r.output(first + 1)))),
        size_mb: filesystem::leading_number(stdout_of(r.output(first + 2))) as u64,
        db_name: if with_db {
            quoted_piece(stdout_of(r.output(first + 3)), "DB_NAME"@, 3)
        } else {
            None
        },
        db_user: if with_db {
            quoted_piece(stdout_of(r.output(first + 4)), "DB_USER"@, 3)
        } else {
            None
        },
    }
}

/// Executable form of [`inspected`].
pub fn read_inspection(r: &Runner, with_key: bool, with_db: bool) -> (i: Inspection)
    ensures
        i@ == inspected(r@, with_key, with_db),
{
    let first: usize = if with_key {
        1
    } else {
        0
    };
    let version = stdout_text(r.output(first));
    let php = stdout_text(r.output(first + 1));
    let size = stdout_text(r.output(first + 2));
    let name = stdout_text(r.output(first + 3));
    let user = stdout_text(r.output(first + 4));
    Inspection {
        wp_version: match find_piece(version.as_str(), "$wp_version =", 1) {
            Some(v) => v,
            None => "unknown".to_owned(),
        },
        php_version: match read_first_line(php.as_str()) {
            Some(v) => v,
            None => "unknown".to_owned(),
        },
        size_mb: filesystem::first_number(size.as_str()),
        db_name: if with_db {
            find_piece(name.as_str(), "DB_NAME", 3)
        } else {
            None
        },
        db_user: if with_db {
            find_piece(user.as_str(), "DB_USER", 3)
        } else {
            None
        },
    }
}

// ---------------------------------------------------------------------------
// Importing
// ---------------------------------------------------------------------------

/// The record of a site that is about to be taken over. A site that is synced
/// again keeps the one it has.
pub open spec fn import_record(state: AgentState, request: ImportRequest) -> RecordView {
    if request.resync {
        state.store@[request.site_id]
    } else {
        site::new_record(
            request.site_id,
            request.domain@,
            state.store.spec_next_uid(state.config.uid_base),
            request.php_version,
            request.database_mode,
            request.limits,
            request.cache,
        )
    }
}

/// How rsync reaches the host of the source.
pub open spec fn rsync_shell(source: ImportSource, key: Option<Seq<char>>) -> Seq<char> {
    let base = "ssh -o BatchMode=yes -o StrictHostKeyChecking=accept-new"@ + " -p "@ + digits::dec(
        source.port as nat,
    );
    match key {
        Some(file) => base + " -i "@ + file,
        None => base,
    }
}

/// Executable form of [`rsync_shell`].
fn write_rsync_shell(source: &ImportSource, key: &Option<String>) -> (s: String)
    ensures
        s@ == rsync_shell(*source, text::text_opt(*key)),
{
    let port = digits::dec_u64(source.port as u64);
    let mut s = text::cat3(
        "ssh -o BatchMode=yes -o StrictHostKeyChecking=accept-new",
        " -p ",
        port.as_str(),
    );
    match key {
        Some(file) => {
            s.append(" -i ");
            s.append(file.as_str());
        },
        None => {},
    }
    s
}

/// Copies the files of the source, but for its configuration and caches.
pub open spec fn fetch_files(
    config: Config,
    source: ImportSource,
    key: Option<Seq<char>>,
    target: RecordView,
) -> TaskView {
    plan::plain(
        plan::command(
            "rsync"@,
            seq![
                "-az"@,
                "--delete"@,
                "--exclude"@,
                "wp-config.php"@,
                "--exclude"@,
                "wp-content/cache/"@,
                "-e"@,
                rsync_shell(source, key),
                ssh_target(source) + ":"@ + source.remote_path@ + "/"@,
                config.spec_in_site(target.domain, "public_html"@) + "/"@,
            ],
        ),
    )
}

/// The dump of the source's database, on its own host.
pub open spec fn dump_script(db: RemoteDb) -> Seq<char> {
    "mysqldump -h"@ + db.host@ + " -P"@ + digits::dec(db.port as nat) + " -u"@ + db.user@ + " -p'"@
        + db.password@ + "' --single-transaction "@ + db.name@
}

/// Executable form of [`dump_script`].
fn write_dump_script(db: &RemoteDb) -> (s: String)
    ensures
        s@ == dump_script(*db),
{
    let port = digits::dec_u64(db.port as u64);
    let mut s = text::cat5("mysqldump -h", db.host.as_str(), " -P", port.as_str(), " -u");
    s.append(db.user.as_str());
    s.append(" -p'");
    s.append(db.password.as_str());
    s.append("' --single-transaction ");
    s.append(db.name.as_str());
    s
}

/// The stages up to a dump of the source's database.
pub open spec fn fetch_plan(
    config: Config,
    source: ImportSource,
    key: Option<Seq<char>>,
    target: RecordView,
    resync: bool,
) -> Seq<StageView> {
    let checked = key_stages(source, key).push(
        plan::required("Validate source"@, seq![ssh(source, key, "echo ok"@)]),
    );
    let prepared = if resync {
        checked
    } else {
        checked.push(
            plan::required(
                "Allocate system user"@,
                filesystem::spec_ensure_user(target.domain, target.uid),
            ),
        ).push(
            plan::required(
                "Create filesystem"@,
                filesystem::spec_create_tree(config, target.domain, target.uid),
            ),
        )
    };
    prepared.push(
        plan::required("Copy files"@, seq![fetch_files(config, source, key, target)]),
    ).push(
        match source.db {
            Some(db) => plan::required(
                "Export database"@,
                seq![ssh(source, key, dump_script(db))],
            ),
            None => plan::silent(
                seq![
                    plan::plain(
                        ActionView::Refuse(
                            ErrorView::Invalid("remote db credentials required for import"@),
                        ),
                    ),
                ],
            ),
        },
    )
}

/// Where the dump of the source's database goes.
pub open spec fn dump_file(fresh: Fresh) -> Seq<char> {
    path::join(fresh.temp_dir@, "wp_import_db_"@ + fresh.dump_id@ + ".sql"@)
}

/// An import up to the dump of the source's database.
pub open spec fn spec_import(state: AgentState, request: ImportRequest, fresh: Fresh) -> RunView {
    let key = key_path(request.source, fresh);
    let target = import_record(state, request);
    let list = fetch_plan(state.config, request.source, key, target, request.resync);
    RunView {
        flow: FlowView::Dumped {
            record: target,
            remote_db: match request.source.db {
                Some(db) => db.name@,
                None => ""@,
            },
            resync: request.resync,
            password: fresh.password@,
            dump_path: dump_file(fresh),
            dump_stage: list.len() - 1,
        },
        runner: RunnerView::start(list),
        temp_files: key_files(key).push(dump_file(fresh)),
    }
}

/// What an import begins with.
pub enum Importing {
    /// In dry-run nothing is done.
    Nothing,
    Run(OperationRun),
}

/// The site of an import is new, and gets a UID.
pub open spec fn draws_uid(state: AgentState, request: ImportRequest) -> bool {
    !request.resync && !state.config.dry_run
}

/// Takes a site over. A site that is synced again has to be known to the agent;
/// any other is new to it.
pub fn import(state: &AgentState, request: ImportRequest, fresh: &Fresh) -> (r: Result<
    Importing,
    Error,
>)
    requires
        draws_uid(*state, request) ==> state.has_room(),
    ensures
        match r {
            Err(e) => request.resync && !state.store@.contains_key(request.site_id) && e@
                == store::unmanaged(request.site_id),
            Ok(i) => (request.resync ==> state.store@.contains_key(request.site_id)) && match i {
                Importing::Nothing => state.config.dry_run,
                Importing::Run(run) => !state.config.dry_run && run@ == spec_import(
                    *state,
                    request,
                    *fresh,
                ) && (!request.resync ==> !state.store.uses(import_record(*state, request).uid)),
            },
        },
{
    let config = &state.config;
    let target = if request.resync {
        match state.store.get(request.site_id) {
            Ok(record) => record,
            Err(e) => return Err(e),
        }
    } else if config.dry_run {
        return Ok(Importing::Nothing);
    } else {
        let uid = state.store.next_uid(config.uid_base);
        site::make_record(
            request.site_id,
            request.domain.as_str(),
            uid,
            request.php_version,
            request.database_mode,
            request.limits,
            request.cache,
        )
    };
    assert(target@ == import_record(*state, request));
    if config.dry_run {
        return Ok(Importing::Nothing);
    }
    let source = &request.source;
    let key = key_file(source, fresh);
    let list = build_fetch(config, source, &key, &target, request.resync);
    let stage = list.len() - 1;
    let name = text::cat3("wp_import_db_", fresh.dump_id.as_str(), ".sql");
    let dump_path = path::joined(fresh.temp_dir.as_str(), name.as_str());
    let mut temp_files = list_key(&key);
    text::push_str(&mut temp_files, dump_path.as_str());
    let remote_db = match &source.db {
        Some(db) => db.name.clone(),
        None => "".to_owned(),
    };
    Ok(
        Importing::Run(
            OperationRun {
                flow: Flow::Dumped {
                    record: target,
                    remote_db,
                    resync: request.resync,
                    password: fresh.password.clone(),
                    dump_path,
                    dump_stage: stage,
                },
                runner: Runner::new(list),
                temp_files,
            },
        ),
    )
}

/// Executable form of [`fetch_plan`].
fn build_fetch(
    config: &Config,
    source: &ImportSource,
    key: &Option<String>,
    target: &SiteRecord,
    resync: bool,
) -> (list: Vec<Stage>)
    ensures
        plan::stages(list@) == fetch_plan(
            *config,
            *source,
            text::text_opt(*key),
            target@,
            resync,
        ),
        list@.len() > 0,
{
    let domain = target.domain.as_str();
    let mut list = build_key(source, key);
    plan::push_stage(
        &mut list,
        plan::required_stage("Validate source", ssh_task(source, key, "echo ok")),
    );
    if !resync {
        plan::push_stage(
            &mut list,
            plan::required_stage(
                "Allocate system user",
                filesystem::ensure_user(domain, target.uid),
            ),
        );
        plan::push_stage(
            &mut list,
            plan::required_stage(
                "Create filesystem",
                filesystem::create_tree(config, domain, target.uid),
            ),
        );
    }
    let shell = write_rsync_shell(source, key);
    let who = target_text(source);
    let from = text::cat4(who.as_str(), ":", source.remote_path.as_str(), "/");
    let to = config.in_site(domain, "public_html");
    let to = text::cat2(to.as_str(), "/");
    plan::push_stage(
        &mut list,
        plan::required_stage(
            "Copy files",
            plan::only(
                plan::run(
                    "rsync",
                    text::list10(
                        "-az",
                        "--delete",
                        "--exclude",
                        "wp-config.php",
                        "--exclude",
                        "wp-content/cache/",
                        "-e",
                        shell.as_str(),
                        from.as_str(),
                        to.as_str(),
                    ),
                ),
            ),
        ),
    );
    let last = match &source.db {
        Some(db) => {
            let script = write_dump_script(db);
            plan::required_stage("Export database", ssh_task(source, key, script.as_str()))
        },
        None => plan::silent_stage(
            plan::only(
                Action::Refuse(Error::invalid("remote db credentials required for import")),
            ),
        ),
    };
    plan::push_stage(&mut list, last);
    assert(list@.len() == plan::stages(list@).len());
    list
}

/// Points WordPress at its new database.
pub open spec fn configure(target: RecordView, c: database::CredentialsView) -> TaskView {
    wordpress::wp(
        target.container(),
        seq![
            "config"@,
            "create"@,
            "--dbname="@ + c.name,
            "--dbuser="@ + c.user,
            "--dbpass="@ + c.password,
            "--dbhost=127.0.0.1"@,
            "--allow-root"@,
            "--force"@,
        ],
    )
}

/// The stages after the dump of the source's database. A site that is synced
/// again keeps its database and its `wp-config.php`.
pub open spec fn settle_plan(
    config: Config,
    web: WebServer,
    target: RecordView,
    remote_db: Seq<char>,
    resync: bool,
    password: Seq<char>,
    dump_path: Seq<char>,
    dump: Seq<char>,
) -> Seq<StageView> {
    let saved = seq![
        plan::silent(
            seq![
                plan::plain(
                    ActionView::WriteFile {
                        path: dump_path,
                        contents: dump,
                        context: "failed to write db dump: "@,
                    },
                ),
            ],
        ),
    ];
    let created = if resync {
        saved
    } else {
        saved.push(
            plan::required("Create database"@, database::spec_create(config, target, password)),
        )
    };
    let started = created.push(
        plan::required("Import database"@, seq![database::spec_import(target, dump_path)]),
    ).push(site::start_container("Start container"@, config, target));
    let configured = if resync {
        started
    } else {
        started.push(
            plan::required(
                "Configure WordPress"@,
                seq![configure(target, site::local_credentials(target, password))],
            ),
        )
    };
    let verified = configured.push(
        StageView {
            on_error: OnErrorView::Continue,
            ..plan::required(
                "Search & replace"@,
                seq![
                    wordpress::spec_search_replace(
                        target.container(),
                        remote_db,
                        target.domain,
                    ),
                ],
            )
        },
    ).push(
        StageView {
            on_error: OnErrorView::Continue,
            note: NoteView::Stdout("Verify checksums"@),
            ..plan::required(
                "Verify checksums"@,
                seq![
                    wordpress::wp(
                        target.container(),
                        seq!["core"@, "verify-checksums"@, "--allow-root"@],
                    ),
                ],
            )
        },
    );
    site::serve(verified, "Write Nginx vhost"@, web, target, false).push(
        site::health_check(target),
    )
}

/// The stage of [`settle_plan`] that starts the container.
pub open spec fn settle_start(resync: bool) -> int {
    if resync {
        2
    } else {
        3
    }
}

/// Executable form of [`settle_plan`].
pub fn build_settle(
    config: &Config,
    web: &WebServer,
    target: &SiteRecord,
    remote_db: &str,
    resync: bool,
    password: &str,
    dump_path: &str,
    dump: String,
) -> (list: Vec<Stage>)
    ensures
        plan::stages(list@) == settle_plan(
            *config,
            *web,
            target@,
            remote_db@,
            resync,
            password@,
            dump_path@,
            dump@,
        ),
{
    let container = target.container_name();
    let container = container.as_str();
    let mut list = plan::no_stages();
    plan::push_stage(
        &mut list,
        plan::silent_stage(
            plan::only(
                Action::WriteFile {
                    path: dump_path.to_owned(),
                    contents: dump,
                    context: "failed to write db dump: ".to_owned(),
                },
            ),
        ),
    );
    if !resync {
        plan::push_stage(
            &mut list,
            plan::required_stage("Create database", database::create(config, target, password)),
        );
    }
    let mut tasks = plan::no_tasks();
    plan::push_task(&mut tasks, database::import(target, dump_path));
    plan::push_stage(&mut list, plan::required_stage("Import database", tasks));
    plan::push_stage(&mut list, site::start_stage("Start container", config, target));
    if !resync {
        let c = site::make_local_credentials(target, password);
        let name = text::cat2("--dbname=", c.name.as_str());
        let user = text::cat2("--dbuser=", c.user.as_str());
        let pass = text::cat2("--dbpass=", c.password.as_str());
        let mut tasks = plan::no_tasks();
        plan::push_task(
            &mut tasks,
            wordpress::wp_task(
                container,
                &text::list8(
                    "config",
                    "create",
                    name.as_str(),
                    user.as_str(),
                    pass.as_str(),
                    "--dbhost=127.0.0.1",
                    "--allow-root",
                    "--force",
                ),
            ),
        );
        plan::push_stage(&mut list, plan::required_stage("Configure WordPress", tasks));
    }
    let mut tasks = plan::no_tasks();
    plan::push_task(
        &mut tasks,
        wordpress::search_replace(container, remote_db, target.domain.as_str()),
    );
    let mut stage = plan::required_stage("Search & replace", tasks);
    stage.on_error = OnError::Continue;
    plan::push_stage(&mut list, stage);
    let mut tasks = plan::no_tasks();
    plan::push_task(
        &mut tasks,
        wordpress::wp_task(
            container,
            &text::list3("core", "verify-checksums", "--allow-root"),
        ),
    );
    let mut stage = plan::required_stage("Verify checksums", tasks);
    stage.on_error = OnError::Continue;
    stage.note = Note::Stdout("Verify checksums".to_owned());
    plan::push_stage(&mut list, stage);
    site::push_serve(&mut list, "Write Nginx vhost", web, target, false);
    plan::push_stage(&mut list, site::health_stage(target));
    list
}

/// An action makes the database of a site anew, or its `wp-config.php`.
pub open spec fn starts_over(config: Config, target: RecordView, action: ActionView) -> bool {
    ||| exists|password: Seq<char>, j: int|
        0 <= j < database::spec_create(config, target, password).len() && action == (
        #[trigger] database::spec_create(config, target, password)[j]).action
    ||| exists|c: database::CredentialsView| action == (#[trigger] configure(target, c)).action
}

/// What runs something else than `docker` and `mysql`, or a `docker` command of another
/// length, starts nothing over.
proof fn lemma_other_commands(config: Config, target: RecordView, action: ActionView)
    requires
        match action {
            ActionView::Run(c) => c.program != "mysql"@ && (c.program == "docker"@
                ==> c.args.len() != 14 && c.args.len() != 21),
            _ => true,
        },
    ensures
        !starts_over(config, target, action),
{
    assert forall|password: Seq<char>, j: int|
        0 <= j < database::spec_create(config, target, password).len() implies action != (
    #[trigger] database::spec_create(config, target, password)[j]).action by {}
    assert forall|c: database::CredentialsView| action != (#[trigger] configure(
        target,
        c,
    )).action by {
        assert((configure(target, c).action->Run_0).args.len() == 14);
    }
}

/// A site that is synced again keeps its database and its `wp-config.php`: no command
/// of the import makes either anew, and the copy of the files leaves the latter out.
pub proof fn law_resync_keeps_the_configuration(
    config: Config,
    web: WebServer,
    source: ImportSource,
    key: Option<Seq<char>>,
    target: RecordView,
    remote_db: Seq<char>,
    password: Seq<char>,
    dump_path: Seq<char>,
    dump: Seq<char>,
)
    ensures
        forall|i: int, j: int|
            0 <= i < fetch_plan(config, source, key, target, true).len() && 0 <= j
                < fetch_plan(config, source, key, target, true)[i].tasks.len() ==> !starts_over(
                config,
                target,
                (#[trigger] fetch_plan(config, source, key, target, true)[i].tasks[j]).action,
            ),
        ({
            let list = settle_plan(
                config,
                web,
                target,
                remote_db,
                true,
                password,
                dump_path,
                dump,
            );
            forall|i: int, j: int|
                0 <= i < list.len() && 0 <= j < list[i].tasks.len() ==> !starts_over(
                    config,
                    target,
                    (#[trigger] list[i].tasks[j]).action,
                )
        }),
        ({
            let args = (fetch_files(config, source, key, target).action->Run_0).args;
            args[2] == "--exclude"@ && args[3] == "wp-config.php"@
        }),
{
    reveal_strlit("mysql");
    reveal_strlit("docker");
    reveal_strlit("ssh");
    reveal_strlit("rsync");
    reveal_strlit("sh");
    reveal_strlit("nginx");
    reveal_strlit("systemctl");
    assert("mysql"@[0] == 'm');
    assert("docker"@.len() == 6);
    assert("ssh"@.len() == 3);
    assert("rsync"@[0] == 'r');
    assert("sh"@.len() == 2);
    assert("nginx"@[0] == 'n');
    assert("systemctl"@.len() == 9);
    let first = fetch_plan(config, source, key, target, true);
    assert forall|i: int, j: int|
        0 <= i < first.len() && 0 <= j < first[i].tasks.len() implies !starts_over(
        config,
        target,
        (#[trigger] first[i].tasks[j]).action,
    ) by {
        lemma_other_commands(config, target, first[i].tasks[j].action);
    }
    let list = settle_plan(
        config,
        web,
        target,
        remote_db,
        true,
        password,
        dump_path,
        dump,
    );
    assert forall|i: int, j: int|
        0 <= i < list.len() && 0 <= j < list[i].tasks.len() implies !starts_over(
        config,
        target,
        (#[trigger] list[i].tasks[j]).action,
    ) by {
        lemma_other_commands(config, target, list[i].tasks[j].action);
    }
}

} // verus!
