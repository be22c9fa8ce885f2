//! Restic backups: encrypted, deduplicated, files plus database dump.
//!
//! All operations accept a `ResticTarget` so credentials are passed per-call
//! and never stored by the agent.

use vstd::prelude::*;
use crate::agent::config::Config;
use crate::agent::exec::{CommandOutput, OutputView};
use crate::agent::ops::database;
use crate::agent::ops::filesystem;
use crate::agent::plan;
use crate::agent::plan::{Action, ActionView, CommandLine, CommandView, Task, TaskView, Verdict, VerdictView};
use crate::agent::store::{RecordView, SiteRecord};
use crate::clock;
use crate::clock::UtcTime;
use crate::common::models::{Backup, BackupScope, RetentionPolicy};
use crate::common::protocol;
use crate::common::protocol::{ResticTarget, ResticTargetView};
use crate::digits;
use crate::json;
use crate::text;

verus! {

/// What a backup made.
#[derive(Debug)]
pub struct Snapshot {
    pub id: String,
    pub size_bytes: u64,
    pub files_bytes: u64,
    pub db_bytes: u64,
}

/// [`Snapshot`] with its texts as sequences of characters.
pub struct SnapshotView {
    pub id: Seq<char>,
    pub size_bytes: u64,
    pub files_bytes: u64,
    pub db_bytes: u64,
}

impl View for Snapshot {
    type V = SnapshotView;

    open spec fn view(&self) -> SnapshotView {
        SnapshotView {
            id: self.id@,
            size_bytes: self.size_bytes,
            files_bytes: self.files_bytes,
            db_bytes: self.db_bytes,
        }
    }
}

/// A restic command on a repository.
pub open spec fn restic(target: ResticTargetView, extra: Seq<Seq<char>>) -> ActionView {
    ActionView::Run(
        CommandView {
            program: "restic"@,
            args: seq!["--repo"@, target.repo, "--password"@, target.password] + extra,
            env: target.env,
            probe: false,
        },
    )
}

/// Executable form of [`restic`].
fn restic_action(target: &ResticTarget, extra: &Vec<String>) -> (a: Action)
    ensures
        a@ == restic(target@, text::texts(extra@)),
{
    let mut args = text::list4(
        "--repo",
        target.repo.as_str(),
        "--password",
        target.password.as_str(),
    );
    text::push_all(&mut args, extra);
    Action::Run(
        CommandLine {
            program: "restic".to_owned(),
            args,
            env: protocol::copy_pairs(&target.env),
            probe: false,
        },
    )
}

/// Creates a repository, unless it is there already.
pub open spec fn spec_init(target: ResticTargetView) -> Seq<TaskView> {
    seq![
        TaskView { action: restic(target, seq!["init"@]), verdict: VerdictView::Initialised },
    ]
}

/// Initialize a restic repository (idempotent).
pub fn init(target: &ResticTarget) -> (v: Vec<Task>)
    ensures
        plan::tasks(v@) == spec_init(target@),
{
    let mut v = plan::no_tasks();
    plan::push_task(
        &mut v,
        Task {
            action: restic_action(target, &text::list1("init")),
            verdict: Verdict::Initialised,
        },
    );
    v
}

/// The tag that the snapshots of a site carry.
pub open spec fn site_tag(site: RecordView) -> Seq<char> {
    "site="@ + site.domain
}

/// Dumps the database unless only files are asked for, then snapshots what is
/// asked for.
pub open spec fn spec_create(
    config: Config,
    site: RecordView,
    scope: BackupScope,
    target: ResticTargetView,
) -> Seq<TaskView> {
    let what = match scope {
        BackupScope::DatabaseOnly => config.spec_in_site(site.domain, "backups"@),
        _ => config.spec_site_root(site.domain),
    };
    let snapshot = plan::plain(
        restic(
            target,
            seq![
                "backup"@,
                "--tag"@,
                site_tag(site),
                "--tag"@,
                "scope="@ + scope.spec_str(),
                "--json"@,
                what,
            ],
        ),
    );
    if scope is FilesOnly {
        seq![snapshot]
    } else {
        seq![database::spec_dump(config, site), snapshot]
    }
}

/// Create a backup.
pub fn create(config: &Config, site: &SiteRecord, scope: BackupScope, target: &ResticTarget) -> (v:
    Vec<Task>)
    ensures
        plan::tasks(v@) == spec_create(*config, site@, scope, target@),
{
    let what = match scope {
        BackupScope::DatabaseOnly => config.in_site(site.domain.as_str(), "backups"),
        _ => config.site_root(site.domain.as_str()),
    };
    let tag = text::cat2("site=", site.domain.as_str());
    let kind = text::cat2("scope=", scope.as_str());
    let mut v = plan::no_tasks();
    if scope != BackupScope::FilesOnly {
        plan::push_task(&mut v, database::dump(config, site));
    }
    let extra = text::list7(
        "backup",
        "--tag",
        tag.as_str(),
        "--tag",
        kind.as_str(),
        "--json",
        what.as_str(),
    );
    plan::push_action(&mut v, restic_action(target, &extra));
    v
}

/// The first line that is restic's summary: it emits one JSON object per line.
pub open spec fn summary_in(lines: Seq<Seq<char>>) -> Option<Seq<char>>
    decreases lines.len(),
{
    if lines.len() == 0 {
        None
    } else if json::str_member(lines[0], "message_type"@) == Some("summary"@) {
        Some(lines[0])
    } else {
        summary_in(lines.drop_first())
    }
}

/// The snapshot that a summary tells of. A full backup is counted half as files
/// and half as database.
pub open spec fn snapshot_of(summary: Option<Seq<char>>, scope: BackupScope) -> SnapshotView {
    let id = match summary {
        Some(doc) => json::text_or(json::str_member(doc, "snapshot_id"@), "dry-run"@),
        None => "dry-run"@,
    };
    let total = match summary {
        Some(doc) => match json::u64_member(doc, "total_bytes_processed"@) {
            Some(n) => n,
            None => 0u64,
        },
        None => 0u64,
    };
    SnapshotView {
        id,
        size_bytes: total,
        files_bytes: match scope {
            BackupScope::Full => total / 2,
            BackupScope::FilesOnly => total,
            BackupScope::DatabaseOnly => 0,
        },
        db_bytes: match scope {
            BackupScope::Full => total / 2,
            BackupScope::FilesOnly => 0,
            BackupScope::DatabaseOnly => total,
        },
    }
}

/// What restic says last of a backup is what is told of it: the id and the size in the
/// first line that is a summary, whatever other lines there are.
pub proof fn law_summary_is_what_is_told(lines: Seq<Seq<char>>, i: int, scope: BackupScope)
    requires
        0 <= i < lines.len(),
        json::str_member(lines[i], "message_type"@) == Some("summary"@),
        forall|j: int|
            0 <= j < i ==> json::str_member(#[trigger] lines[j], "message_type"@) != Some(
                "summary"@,
            ),
    ensures
        summary_in(lines) == Some(lines[i]),
        json::str_member(lines[i], "snapshot_id"@) matches Some(id) ==> snapshot_of(
            summary_in(lines),
            scope,
        ).id == id,
        json::u64_member(lines[i], "total_bytes_processed"@) matches Some(n) ==> snapshot_of(
            summary_in(lines),
            scope,
        ).size_bytes == n,
    decreases lines.len(),
{
    if i > 0 {
        let rest = lines.drop_first();
        assert(rest[i - 1] == lines[i]);
        assert forall|j: int| 0 <= j < i - 1 implies json::str_member(
            #[trigger] rest[j],
            "message_type"@,
        ) != Some("summary"@) by {
            assert(rest[j] == lines[j + 1]);
        }
        assert(json::str_member(lines[0], "message_type"@) != Some("summary"@));
        law_summary_is_what_is_told(rest, i - 1, scope);
    }
}

/// Finds the line of [`summary_in`].
pub fn find_summary(stdout: &str) -> (r: Option<String>)
    ensures
        text::text_opt(r) == summary_in(text::lines(stdout@)),
{
    let cs = text::chars_of(stdout);
    let lines = text::lines_of(cs.as_slice());
    let ghost all = text::rows(lines@);
    let mut i: usize = 0;
    assert(all.skip(0) =~= all);
    while i < lines.len()
        invariant
            i <= lines@.len(),
            all == text::rows(lines@),
            all == text::lines(stdout@),
            summary_in(all) == summary_in(all.skip(i as int)),
        decreases lines@.len() - i,
    {
        assert(all.skip(i as int)[0] == lines@[i as int]@);
        assert(all.skip(i as int).drop_first() =~= all.skip(i + 1));
        let line = text::string_of(lines[i].as_slice());
        if let Some(kind) = json::get_str(line.as_str(), "message_type") {
            if text::same(kind.as_str(), "summary") {
                return Some(line);
            }
        }
        i += 1;
    }
    None
}

/// Executable form of [`snapshot_of`].
pub fn read_snapshot(summary: &Option<String>, scope: BackupScope) -> (s: Snapshot)
    ensures
        s@ == snapshot_of(text::text_opt(*summary), scope),
{
    let id = match summary {
        Some(doc) => json::get_str_or(doc.as_str(), "snapshot_id", "dry-run"),
        None => "dry-run".to_owned(),
    };
    let total: u64 = match summary {
        Some(doc) => match json::get_u64(doc.as_str(), "total_bytes_processed") {
            Some(n) => n,
            None => 0,
        },
        None => 0,
    };
    Snapshot {
        id,
        size_bytes: total,
        files_bytes: match scope {
            BackupScope::Full => total / 2,
            BackupScope::FilesOnly => total,
            BackupScope::DatabaseOnly => 0,
        },
        db_bytes: match scope {
            BackupScope::Full => total / 2,
            BackupScope::FilesOnly => 0,
            BackupScope::DatabaseOnly => total,
        },
    }
}

// ---------------------------------------------------------------------------
// Listing
// ---------------------------------------------------------------------------

/// One entry of `restic snapshots --json`.
///
/// Restic reports `id`, `time` and `tags`; `summary` (with the processed byte
/// count) is present from restic 0.17.
#[derive(Debug)]
pub struct ResticSnapshot {
    pub id: String,
    pub short_id: Option<String>,
    pub time: String,
    pub tags: Vec<String>,
    pub total_bytes_processed: Option<u64>,
}

/// [`Backup`] with its texts as sequences of characters.
pub struct BackupView {
    pub id: i64,
    pub site_id: i64,
    pub snapshot_id: Seq<char>,
    pub size_bytes: u64,
    pub scope: BackupScope,
    pub destination: Seq<char>,
    pub created_at: UtcTime,
}

impl View for Backup {
    type V = BackupView;

    open spec fn view(&self) -> BackupView {
        BackupView {
            id: self.id,
            site_id: self.site_id,
            snapshot_id: self.snapshot_id@,
            size_bytes: self.size_bytes,
            scope: self.scope,
            destination: self.destination@,
            created_at: self.created_at,
        }
    }
}

/// The views of a list of backups.
pub open spec fn backups(v: Seq<Backup>) -> Seq<BackupView> {
    v.map_values(|b: Backup| b@)
}

/// Asks for the snapshots of a site.
pub open spec fn spec_list(site: RecordView, target: ResticTargetView) -> Seq<TaskView> {
    seq![
        plan::plain(
            restic(target, seq!["snapshots"@, "--json"@, "--tag"@, site_tag(site)]),
        ),
    ]
}

/// Asks for the snapshots of a site.
pub fn list(site: &SiteRecord, target: &ResticTarget) -> (v: Vec<Task>)
    ensures
        plan::tasks(v@) == spec_list(site@, target@),
{
    let tag = text::cat2("site=", site.domain.as_str());
    plan::only(
        restic_action(target, &text::list4("snapshots", "--json", "--tag", tag.as_str())),
    )
}

/// The scope that the first `scope=` tag names.
pub open spec fn scope_of(tags: Seq<Seq<char>>) -> BackupScope
    decreases tags.len(),
{
    if tags.len() == 0 {
        BackupScope::Full
    } else {
        match text::strip_prefix(tags[0], "scope="@) {
            Some(scope) => BackupScope::spec_from_tag(scope),
            None => scope_of(tags.drop_first()),
        }
    }
}

/// Executable form of [`scope_of`].
fn read_scope(tags: &Vec<String>) -> (s: BackupScope)
    ensures
        s == scope_of(text::texts(tags@)),
{
    let ghost all = text::texts(tags@);
    let mut i: usize = 0;
    assert(all.skip(0) =~= all);
    while i < tags.len()
        invariant
            i <= tags@.len(),
            all == text::texts(tags@),
            scope_of(all) == scope_of(all.skip(i as int)),
        decreases tags@.len() - i,
    {
        assert(all.skip(i as int)[0] == tags@[i as int]@);
        assert(all.skip(i as int).drop_first() =~= all.skip(i + 1));
        let cs = text::chars_of(tags[i].as_str());
        if let Some(scope) = text::after_prefix(cs.as_slice(), "scope=") {
            let name = text::string_of(scope);
            return BackupScope::from_tag(name.as_str());
        }
        i += 1;
    }
    BackupScope::Full
}

/// A snapshot as the panel shows it. Where its time cannot be read, it counts as
/// made at `now`.
pub open spec fn backup_of(
    site: RecordView,
    repo: Seq<char>,
    snapshot: ResticSnapshot,
    now: UtcTime,
) -> BackupView {
    BackupView {
        id: 0,
        site_id: site.site_id,
        snapshot_id: match snapshot.short_id {
            Some(id) => id@,
            None => snapshot.id@,
        },
        size_bytes: match snapshot.total_bytes_processed {
            Some(n) => n,
            None => 0,
        },
        scope: scope_of(text::texts(snapshot.tags@)),
        destination: repo,
        created_at: match clock::spec_parse_rfc3339(snapshot.time@) {
            Some(t) => t,
            None => now,
        },
    }
}

/// Executable form of [`backup_of`].
pub fn to_backup(
    site: &SiteRecord,
    repo: &str,
    snapshot: &ResticSnapshot,
    now: &UtcTime,
) -> (b: Backup)
    ensures
        b@ == backup_of(site@, repo@, *snapshot, *now),
{
    Backup {
        id: 0,
        site_id: site.site_id,
        snapshot_id: match &snapshot.short_id {
            Some(id) => id.clone(),
            None => snapshot.id.clone(),
        },
        size_bytes: match snapshot.total_bytes_processed {
            Some(n) => n,
            None => 0,
        },
        scope: read_scope(&snapshot.tags),
        destination: repo.to_owned(),
        created_at: match clock::parse_rfc3339(snapshot.time.as_str()) {
            Some(t) => t,
            None => *now,
        },
    }
}

/// A snapshot is listed for its site and repository under the short id that restic gives
/// it, or else the long one, with the time and the size that restic tells.
pub proof fn law_snapshots_are_listed_as_they_are(
    site: RecordView,
    repo: Seq<char>,
    snapshot: ResticSnapshot,
    now: UtcTime,
)
    ensures
        ({
            let b = backup_of(site, repo, snapshot, now);
            &&& b.site_id == site.site_id && b.destination == repo
            &&& snapshot.short_id matches Some(id) ==> b.snapshot_id == id@
            &&& snapshot.short_id is None ==> b.snapshot_id == snapshot.id@
            &&& snapshot.total_bytes_processed matches Some(n) ==> b.size_bytes == n
            &&& clock::spec_parse_rfc3339(snapshot.time@) matches Some(t) ==> b.created_at == t
        }),
{
}

/// Every backup is at least as new as those after it.
pub open spec fn newest_first(v: Seq<BackupView>) -> bool {
    forall|i: int, j: int|
        0 <= i < j < v.len() ==> (#[trigger] v[i]).created_at.total() >= (
        #[trigger] v[j]).created_at.total()
}

/// The place of `b` in a list that is newest first: after everything at least as new.
pub open spec fn place_of(v: Seq<BackupView>, b: BackupView) -> int
    decreases v.len(),
{
    if v.len() == 0 || v.last().created_at.total() >= b.created_at.total() {
        v.len() as int
    } else {
        place_of(v.drop_last(), b)
    }
}

/// The backups newest first; those made at the same time stay in their order.
pub open spec fn sorted(v: Seq<BackupView>) -> Seq<BackupView>
    decreases v.len(),
{
    if v.len() == 0 {
        Seq::empty()
    } else {
        let front = sorted(v.drop_last());
        front.insert(place_of(front, v.last()), v.last())
    }
}

/// The place of an item lies in the list; what is before it is at least as new,
/// and what is after it is older.
proof fn lemma_place_of(v: Seq<BackupView>, b: BackupView)
    requires
        newest_first(v),
    ensures
        0 <= place_of(v, b) <= v.len(),
        forall|i: int|
            0 <= i < place_of(v, b) ==> (#[trigger] v[i]).created_at.total()
                >= b.created_at.total(),
        forall|i: int|
            place_of(v, b) <= i < v.len() ==> (#[trigger] v[i]).created_at.total()
                < b.created_at.total(),
    decreases v.len(),
{
    if v.len() == 0 {
    } else if v.last().created_at.total() >= b.created_at.total() {
        assert forall|i: int| 0 <= i < v.len() implies (#[trigger] v[i]).created_at.total()
            >= b.created_at.total() by {
            if i < v.len() - 1 {
                assert(v[i].created_at.total() >= v[v.len() - 1].created_at.total());
            }
        }
    } else {
        let front = v.drop_last();
        lemma_place_of(front, b);
        assert forall|i: int| 0 <= i < place_of(v, b) implies (#[trigger] v[i]).created_at.total()
            >= b.created_at.total() by {
            assert(front[i] == v[i]);
        }
        assert forall|i: int| place_of(v, b) <= i < v.len() implies (
        #[trigger] v[i]).created_at.total() < b.created_at.total() by {
            if i < v.len() - 1 {
                assert(front[i] == v[i]);
            }
        }
    }
}

/// A list of backups holds, once sorted, the same backups, newest first.
pub proof fn law_listing_is_newest_first(v: Seq<BackupView>)
    ensures
        newest_first(sorted(v)),
        sorted(v).to_multiset() == v.to_multiset(),
        sorted(v).len() == v.len(),
    decreases v.len(),
{
    broadcast use vstd::seq_lib::group_to_multiset_ensures;

    if v.len() == 0 {
        assert(v =~= Seq::empty());
    } else {
        let front = sorted(v.drop_last());
        let b = v.last();
        law_listing_is_newest_first(v.drop_last());
        lemma_place_of(front, b);
        let at = place_of(front, b);
        let all = front.insert(at, b);
        assert forall|i: int, j: int| 0 <= i < j < all.len() implies (
        #[trigger] all[i]).created_at.total() >= (#[trigger] all[j]).created_at.total() by {
            let x = if i < at {
                i
            } else {
                i - 1
            };
            let y = if j < at {
                j
            } else {
                j - 1
            };
            if i == at {
                assert(all[j] == front[y]);
            } else if j == at {
                assert(all[i] == front[x]);
            } else {
                assert(all[i] == front[x]);
                assert(all[j] == front[y]);
                assert(front[x].created_at.total() >= front[y].created_at.total());
            }
        }
        assert(v =~= v.drop_last().push(b));
        assert(all.to_multiset() =~= front.to_multiset().insert(b));
    }
}

/// Puts a backup into a list that is newest first.
fn place(list: &mut Vec<Backup>, b: Backup)
    requires
        newest_first(backups(old(list)@)),
    ensures
        backups(final(list)@) == backups(old(list)@).insert(
            place_of(backups(old(list)@), b@),
            b@,
        ),
{
    let ghost before = backups(list@);
    proof {
        lemma_place_of(before, b@);
    }
    let mut at: usize = list.len();
    assert(before.take(before.len() as int) =~= before);
    while at > 0 && list[at - 1].created_at.before(&b.created_at)
        invariant
            at <= list@.len(),
            before == backups(list@),
            place_of(before, b@) == place_of(before.take(at as int), b@),
        decreases at,
    {
        assert(before.take(at as int).last() == list@[at - 1]@);
        assert(before.take(at as int).drop_last() =~= before.take(at - 1));
        at -= 1;
    }
    if at > 0 {
        assert(before.take(at as int).last() == list@[at - 1]@);
    }
    assert(at == place_of(before, b@));
    let ghost view = b@;
    list.insert(at, b);
    assert(backups(list@) =~= before.insert(at as int, view));
}

/// The snapshots of a site as the panel shows them.
pub open spec fn listing(
    site: RecordView,
    repo: Seq<char>,
    snapshots: Seq<ResticSnapshot>,
    now: UtcTime,
) -> Seq<BackupView> {
    sorted(snapshots.map_values(|s: ResticSnapshot| backup_of(site, repo, s, now)))
}

/// The snapshots of a site as the panel shows them, newest first.
pub fn panel_backups(
    site: &SiteRecord,
    repo: &str,
    snapshots: &Vec<ResticSnapshot>,
    now: &UtcTime,
) -> (v: Vec<Backup>)
    ensures
        backups(v@) == listing(site@, repo@, snapshots@, *now),
{
    let ghost all = snapshots@.map_values(
        |s: ResticSnapshot| backup_of(site@, repo@, s, *now),
    );
    let mut v: Vec<Backup> = Vec::new();
    let mut i: usize = 0;
    assert(backups(v@) =~= sorted(all.take(0)));
    while i < snapshots.len()
        invariant
            i <= snapshots@.len(),
            all == snapshots@.map_values(
                |s: ResticSnapshot| backup_of(site@, repo@, s, *now),
            ),
            backups(v@) == sorted(all.take(i as int)),
        decreases snapshots@.len() - i,
    {
        proof {
            law_listing_is_newest_first(all.take(i as int));
        }
        let b = to_backup(site, repo, &snapshots[i], now);
        assert(all.take(i + 1).drop_last() =~= all.take(i as int));
        assert(all.take(i + 1).last() == b@);
        place(&mut v, b);
        i += 1;
    }
    assert(all.take(i as int) =~= all);
    v
}

// ---------------------------------------------------------------------------
// Restoring and pruning
// ---------------------------------------------------------------------------

/// Where a snapshot is restored to before anything is put in place.
pub open spec fn restore_dir(site: RecordView) -> Seq<char> {
    "/tmp/restore-"@ + digits::dec_int(site.site_id as int)
}

/// Restores a snapshot to a temporary directory, puts files and database in
/// place as far as they are asked for, and cleans up.
pub open spec fn spec_restore(
    config: Config,
    site: RecordView,
    snapshot_id: Seq<char>,
    scope: BackupScope,
    target: ResticTargetView,
) -> Seq<TaskView> {
    let dir = restore_dir(site);
    let fetch = seq![
        plan::plain(restic(target, seq!["restore"@, snapshot_id, "--target"@, dir])),
    ];
    let files = if scope is DatabaseOnly {
        fetch
    } else {
        fetch.push(
            plan::plain(
                plan::command(
                    "rsync"@,
                    seq![
                        "-a"@,
                        "--delete"@,
                        dir + "/"@,
                        config.spec_in_site(site.domain, "public_html"@),
                    ],
                ),
            ),
        )
    };
    let data = if scope is FilesOnly {
        files
    } else {
        files.push(database::spec_import_dump(site, dir + "/backups/database.sql"@))
    };
    data.push(filesystem::chown(site.uid, config.spec_site_root(site.domain))).push(
        filesystem::rm(dir),
    )
}

/// Restore a snapshot.
pub fn restore(
    config: &Config,
    site: &SiteRecord,
    snapshot_id: &str,
    scope: BackupScope,
    target: &ResticTarget,
) -> (v: Vec<Task>)
    ensures
        plan::tasks(v@) == spec_restore(*config, site@, snapshot_id@, scope, target@),
{
    let id = digits::dec_i64(site.site_id);
    let dir = text::cat2("/tmp/restore-", id.as_str());
    let mut v = plan::no_tasks();
    plan::push_action(
        &mut v,
        restic_action(target, &text::list4("restore", snapshot_id, "--target", dir.as_str())),
    );
    if scope != BackupScope::DatabaseOnly {
        let from = text::cat2(dir.as_str(), "/");
        let public = config.in_site(site.domain.as_str(), "public_html");
        plan::push_action(
            &mut v,
            plan::run("rsync", text::list4("-a", "--delete", from.as_str(), public.as_str())),
        );
    }
    if scope != BackupScope::FilesOnly {
        let dump = text::cat2(dir.as_str(), "/backups/database.sql");
        plan::push_task(&mut v, database::import_dump(site, dump.as_str()));
    }
    let root = config.site_root(site.domain.as_str());
    plan::push_task(&mut v, filesystem::chown_task(site.uid, root.as_str()));
    plan::push_task(&mut v, filesystem::rm_task(dir.as_str()));
    v
}

/// Forgets the snapshots of a site that a policy does not keep.
pub open spec fn spec_prune(
    site: RecordView,
    policy: RetentionPolicy,
    target: ResticTargetView,
) -> Seq<TaskView> {
    seq![
        plan::plain(
            restic(
                target,
                seq![
                    "forget"@,
                    "--prune"@,
                    "--tag"@,
                    site_tag(site),
                    "--keep-hourly"@,
                    digits::dec(policy.hourly as nat),
                    "--keep-daily"@,
                    digits::dec(policy.daily as nat),
                    "--keep-weekly"@,
                    digits::dec(policy.weekly as nat),
                    "--keep-monthly"@,
                    digits::dec(policy.monthly as nat),
                ],
            ),
        ),
    ]
}

/// Apply retention policy after a successful backup.
pub fn prune(site: &SiteRecord, policy: RetentionPolicy, target: &ResticTarget) -> (v: Vec<Task>)
    ensures
        plan::tasks(v@) == spec_prune(site@, policy, target@),
{
    let tag = text::cat2("site=", site.domain.as_str());
    let hourly = digits::dec_u64(policy.hourly as u64);
    let daily = digits::dec_u64(policy.daily as u64);
    let weekly = digits::dec_u64(policy.weekly as u64);
    let monthly = digits::dec_u64(policy.monthly as u64);
    let mut extra = text::list6(
        "forget",
        "--prune",
        "--tag",
        tag.as_str(),
        "--keep-hourly",
        hourly.as_str(),
    );
    text::more6(
        &mut extra,
        "--keep-daily",
        daily.as_str(),
        "--keep-weekly",
        weekly.as_str(),
        "--keep-monthly",
        monthly.as_str(),
    );
    assert(text::texts(extra@) =~= seq![
        "forget"@,
        "--prune"@,
        "--tag"@,
        site_tag(site@),
        "--keep-hourly"@,
        digits::dec(policy.hourly as nat),
        "--keep-daily"@,
        digits::dec(policy.daily as nat),
        "--keep-weekly"@,
        digits::dec(policy.weekly as nat),
        "--keep-monthly"@,
        digits::dec(policy.monthly as nat),
    ]);
    plan::only(restic_action(target, &extra))
}

} // verus!
