//! The job system. Every mutating action the user triggers becomes a job, is
//! translated into a typed agent operation and reported back step by step.
//!
//! When the target server has no reachable agent and the panel runs with demo
//! data, the same step plan is walked through locally so the UI and the state
//! machine can be exercised end to end. That path is clearly labelled in the job
//! message and never touches a real host.

use vstd::prelude::*;
use crate::agent::ops::ssl;
use crate::clock::UtcTime;
use crate::common::error::{Error, ErrorView};
use crate::common::models::{
    BackupScope, CacheSettings, CronMode, DatabaseMode, JobKind, PhpVersion, ResourceLimits,
    RetentionPolicy, ServerMetrics, ServerStatus, SiteMetricSample, SiteStatus, WpItemAction,
};
use crate::common::protocol;
use crate::common::protocol::{
    CloneSite, CreateSite, ImportRequest, ImportSource, InstallWordpress, Operation,
    OperationData, OperationResult, ResticTarget, ResticTargetView, StepReport,
};
use crate::crypto;
use crate::json;
use crate::panel::auth;
use crate::panel::db::destinations;
use crate::panel::db::destinations::{CredentialsView, Destination, DestinationCredentials};
use crate::panel::db::servers::ServerRow;
use crate::panel::db::sites;
use crate::panel::secrets::SecretBox;
use crate::text;

verus! {

// ---------------------------------------------------------------------------
// Plans
// ---------------------------------------------------------------------------

/// The steps of a kind of job, in order.
pub open spec fn plan_of(kind: JobKind) -> Seq<Seq<char>> {
    match kind {
        JobKind::SiteCreate => seq![
            "Allocate system user"@,
            "Create filesystem layout"@,
            "Create database"@,
            "Start PHP-FPM container"@,
            "Install WordPress"@,
            "Write Nginx vhost"@,
            "Issue TLS certificate"@,
            "Enable FastCGI cache"@,
            "Health check"@,
        ],
        JobKind::SiteDelete => seq![
            "Stop container"@,
            "Remove Nginx vhost"@,
            "Drop database"@,
            "Remove files"@,
            "Release system user"@,
        ],
        JobKind::SiteClone => seq![
            "Snapshot source"@,
            "Copy files"@,
            "Copy database"@,
            "Search & replace URLs"@,
            "Start container"@,
            "Write Nginx vhost"@,
            "Health check"@,
        ],
        JobKind::SiteStart => seq![
            "Start container"@,
            "Health check"@,
        ],
        JobKind::SiteStop => seq![
            "Drain requests"@,
            "Stop container"@,
        ],
        JobKind::SiteRestart => seq![
            "Stop container"@,
            "Start container"@,
            "Health check"@,
        ],
        JobKind::PhpSwitch => seq![
            "Pull target PHP image"@,
            "Start new container"@,
            "Health check new container"@,
            "Switch Nginx upstream"@,
            "Verify traffic"@,
            "Remove old container"@,
        ],
        JobKind::WordpressInstall => seq![
            "Download core"@,
            "Configure wp-config"@,
            "Run installer"@,
        ],
        JobKind::WordpressUpdate => seq![
            "Backup"@,
            "Update core"@,
            "Update database"@,
            "Health check"@,
        ],
        JobKind::BackupCreate => seq![
            "Dump database"@,
            "Snapshot files"@,
            "Upload to destination"@,
            "Prune retention"@,
        ],
        JobKind::BackupRestore => seq![
            "Fetch snapshot"@,
            "Restore database"@,
            "Restore files"@,
            "Fix permissions"@,
            "Health check"@,
        ],
        JobKind::SslIssue => seq![
            "Verify DNS"@,
            "Request certificate"@,
            "Install certificate"@,
            "Reload Nginx"@,
        ],
        JobKind::SslRenew => seq![
            "Renew certificate"@,
            "Reload Nginx"@,
        ],
        JobKind::CacheClear => seq![
            "Purge FastCGI cache"@,
            "Flush object cache"@,
        ],
        JobKind::StagingCreate => seq![
            "Create staging site"@,
            "Copy files"@,
            "Copy database"@,
            "Search & replace URLs"@,
            "Health check"@,
        ],
        JobKind::StagingPush => seq![
            "Backup production"@,
            "Copy files"@,
            "Copy database"@,
            "Search & replace URLs"@,
            "Health check"@,
        ],
        JobKind::PluginAction => seq![
            "Run WP-CLI"@,
            "Verify site responds"@,
        ],
        JobKind::PluginUpdateAll => seq![
            "Backup"@,
            "Update plugins"@,
            "Verify site responds"@,
        ],
        JobKind::ThemeAction => seq![
            "Run WP-CLI"@,
            "Verify site responds"@,
        ],
        JobKind::WpUserPasswordReset => seq![
            "Generate password"@,
            "Apply"@,
        ],
        JobKind::CronRun => seq!["Run due events"@],
        JobKind::CronModeSet => seq![
            "Update wp-config"@,
            "Write system cron"@,
        ],
        JobKind::ImportRun => seq![
            "Validate source"@,
            "Allocate system user"@,
            "Create filesystem layout"@,
            "Copy files"@,
            "Export database"@,
            "Create database"@,
            "Import database"@,
            "Start container"@,
            "Configure WordPress"@,
            "Search & replace"@,
            "Verify checksums"@,
            "Write Nginx vhost"@,
            "Health check"@,
        ],
    }
}

/// Ordered step plan per job kind. Also drives the progress bar.
pub fn plan(kind: JobKind) -> (v: Vec<String>)
    ensures
        text::texts(v@) == plan_of(kind),
{
    match kind {
        JobKind::SiteCreate => text::list9(
            "Allocate system user",
            "Create filesystem layout",
            "Create database",
            "Start PHP-FPM container",
            "Install WordPress",
            "Write Nginx vhost",
            "Issue TLS certificate",
            "Enable FastCGI cache",
            "Health check",
        ),
        JobKind::SiteDelete => text::list5(
            "Stop container",
            "Remove Nginx vhost",
            "Drop database",
            "Remove files",
            "Release system user",
        ),
        JobKind::SiteClone => text::list7(
            "Snapshot source",
            "Copy files",
            "Copy database",
            "Search & replace URLs",
            "Start container",
            "Write Nginx vhost",
            "Health check",
        ),
        JobKind::SiteStart => text::list2(
            "Start container",
            "Health check",
        ),
        JobKind::SiteStop => text::list2(
            "Drain requests",
            "Stop container",
        ),
        JobKind::SiteRestart => text::list3(
            "Stop container",
            "Start container",
            "Health check",
        ),
        JobKind::PhpSwitch => text::list6(
            "Pull target PHP image",
            "Start new container",
            "Health check new container",
            "Switch Nginx upstream",
            "Verify traffic",
            "Remove old container",
        ),
        JobKind::WordpressInstall => text::list3(
            "Download core",
            "Configure wp-config",
            "Run installer",
        ),
        JobKind::WordpressUpdate => text::list4(
            "Backup",
            "Update core",
            "Update database",
            "Health check",
        ),
        JobKind::BackupCreate => text::list4(
            "Dump database",
            "Snapshot files",
            "Upload to destination",
            "Prune retention",
        ),
        JobKind::BackupRestore => text::list5(
            "Fetch snapshot",
            "Restore database",
            "Restore files",
            "Fix permissions",
            "Health check",
        ),
        JobKind::SslIssue => text::list4(
            "Verify DNS",
            "Request certificate",
            "Install certificate",
            "Reload Nginx",
        ),
        JobKind::SslRenew => text::list2(
            "Renew certificate",
            "Reload Nginx",
        ),
        JobKind::CacheClear => text::list2(
            "Purge FastCGI cache",
            "Flush object cache",
        ),
        JobKind::StagingCreate => text::list5(
            "Create staging site",
            "Copy files",
            "Copy database",
            "Search & replace URLs",
            "Health check",
        ),
        JobKind::StagingPush => text::list5(
            "Backup production",
            "Copy files",
            "Copy database",
            "Search & replace URLs",
            "Health check",
        ),
        JobKind::PluginAction => text::list2(
            "Run WP-CLI",
            "Verify site responds",
        ),
        JobKind::PluginUpdateAll => text::list3(
            "Backup",
            "Update plugins",
            "Verify site responds",
        ),
        JobKind::ThemeAction => text::list2(
            "Run WP-CLI",
            "Verify site responds",
        ),
        JobKind::WpUserPasswordReset => text::list2(
            "Generate password",
            "Apply",
        ),
        JobKind::CronRun => text::list1("Run due events"),
        JobKind::CronModeSet => text::list2(
            "Update wp-config",
            "Write system cron",
        ),
        JobKind::ImportRun => {
            let mut v = text::list10(
                "Validate source",
                "Allocate system user",
                "Create filesystem layout",
                "Copy files",
                "Export database",
                "Create database",
                "Import database",
                "Start container",
                "Configure WordPress",
                "Search & replace",
            );
            text::more3(&mut v, "Verify checksums", "Write Nginx vhost", "Health check");
            assert(text::texts(v@) =~= plan_of(kind));
            v
        },
    }
}

/// Every kind of job has steps.
pub proof fn law_every_job_has_steps(kind: JobKind)
    ensures
        plan_of(kind).len() > 0,
{
}

/// How much of a job is done once `index` of its steps are, in percent.
pub open spec fn progress_of(index: int, steps: int) -> int {
    index * 100 / steps
}

/// Executable form of [`progress_of`].
pub fn step_progress(index: usize, steps: usize) -> (p: u8)
    requires
        index < steps,
    ensures
        p == progress_of(index as int, steps as int),
        p < 100,
{
    let a: u128 = index as u128 * 100;
    let b: u128 = steps as u128;
    proof {
        vstd::arithmetic::div_mod::lemma_fundamental_div_mod(a as int, b as int);
        let d = a as int / (b as int);
        assert(d < 100) by (nonlinear_arith)
            requires
                a as int == b as int * d + (a as int) % (b as int),
                0 <= (a as int) % (b as int),
                a < 100 * b,
                b > 0,
        ;
        assert(d >= 0) by (nonlinear_arith)
            requires
                d == a as int / (b as int),
                b > 0,
        ;
    }
    (a / b) as u8
}

/// The progress of a job never falls from step to step.
pub proof fn law_progress_never_falls(index: int, next: int, steps: int)
    requires
        0 <= index <= next < steps,
    ensures
        0 <= progress_of(index, steps) <= progress_of(next, steps) < 100,
{
    vstd::arithmetic::div_mod::lemma_div_is_ordered(index * 100, next * 100, steps);
    vstd::arithmetic::div_mod::lemma_fundamental_div_mod(next * 100, steps);
    let d = progress_of(next, steps);
    assert(d < 100) by (nonlinear_arith)
        requires
            next * 100 == steps * d + (next * 100) % steps,
            0 <= (next * 100) % steps,
            next < steps,
            steps > 0,
    ;
    assert(0 <= index * 100 / steps) by (nonlinear_arith)
        requires
            0 <= index,
            steps > 0,
    ;
}

/// A step of a job that is walked through locally.
#[derive(Debug)]
pub struct SimulatedStep {
    pub name: String,
    /// How much of the job is done when the step begins, in percent.
    pub progress: u8,
}

/// The steps are those of the kind, each with its progress.
pub open spec fn simulates(v: Seq<SimulatedStep>, kind: JobKind) -> bool {
    &&& v.len() == plan_of(kind).len()
    &&& forall|i: int|
        0 <= i < v.len() ==> (#[trigger] v[i]).name@ == plan_of(kind)[i] && v[i].progress
            == progress_of(i, v.len() as int)
}

/// The step plan of a job, as it is walked through so the panel is usable without a
/// node.
pub fn simulate(kind: JobKind) -> (v: Vec<SimulatedStep>)
    ensures
        simulates(v@, kind),
{
    let mut names = plan(kind);
    let n = names.len();
    let ghost all = plan_of(kind);
    assert(all.len() == n);
    let mut v: Vec<SimulatedStep> = Vec::new();
    let mut i: usize = 0;
    while i < n
        invariant
            i <= n,
            n == names@.len(),
            all == plan_of(kind),
            text::texts(names@) == all,
            v@.len() == i,
            forall|j: int|
                0 <= j < i ==> (#[trigger] v@[j]).name@ == all[j] && v@[j].progress == progress_of(
                    j,
                    n as int,
                ),
        decreases n - i,
    {
        assert(text::texts(names@)[i as int] == names@[i as int]@);
        let progress = step_progress(i, n);
        v.push(SimulatedStep { name: names[i].clone(), progress });
        i += 1;
    }
    v
}

// ---------------------------------------------------------------------------
// Servers
// ---------------------------------------------------------------------------

/// The server is the example one, which has no agent.
pub open spec fn spec_is_demo(row: ServerRow) -> bool {
    row.agent_token@ == "demo-token"@
}

/// Whether the server is the example one, which has no agent.
pub fn is_demo(row: &ServerRow) -> (r: bool)
    ensures
        r == spec_is_demo(*row),
{
    text::same(row.agent_token.as_str(), "demo-token")
}

/// What a poll of a server's agent found.
#[derive(Debug)]
pub struct Heartbeat {
    pub status: ServerStatus,
    /// The metrics to store.
    pub metrics: Option<ServerMetrics>,
}

/// What a poll says of a server: online with metrics, degraded with another answer,
/// offline without one.
pub open spec fn heartbeat_of(result: Result<OperationResult, Error>) -> Heartbeat {
    match result {
        Ok(r) => match r.data {
            OperationData::Metrics(metrics) => Heartbeat {
                status: ServerStatus::Online,
                metrics: Some(metrics),
            },
            _ => Heartbeat { status: ServerStatus::Degraded, metrics: None },
        },
        Err(_) => Heartbeat { status: ServerStatus::Offline, metrics: None },
    }
}

/// Executable form of [`heartbeat_of`].
pub fn heartbeat(result: Result<OperationResult, Error>) -> (h: Heartbeat)
    ensures
        h == heartbeat_of(result),
{
    match result {
        Ok(r) => match r.data {
            OperationData::Metrics(metrics) => Heartbeat {
                status: ServerStatus::Online,
                metrics: Some(metrics),
            },
            _ => Heartbeat { status: ServerStatus::Degraded, metrics: None },
        },
        Err(_) => Heartbeat { status: ServerStatus::Offline, metrics: None },
    }
}

/// The question for the metrics of a server's sites: asked of a server that is online
/// and has sites.
pub fn sample_query(status: ServerStatus, site_ids: Vec<i64>) -> (o: Option<Operation>)
    ensures
        o == if status == ServerStatus::Online && site_ids@.len() > 0 {
            Some(Operation::GetSiteMetrics { site_ids })
        } else {
            None
        },
{
    if site_ids.len() == 0 {
        return None;
    }
    match status {
        ServerStatus::Online => Some(Operation::GetSiteMetrics { site_ids }),
        _ => None,
    }
}

/// The samples to store of an answer: none of another answer than site metrics.
pub fn samples_in(data: OperationData) -> (v: Vec<SiteMetricSample>)
    ensures
        v@ == match data {
            OperationData::SiteMetrics { samples } => samples@,
            _ => Seq::<SiteMetricSample>::empty(),
        },
{
    match data {
        OperationData::SiteMetrics { samples } => samples,
        _ => Vec::new(),
    }
}

// ---------------------------------------------------------------------------
// Execution
// ---------------------------------------------------------------------------

/// Whether an operation goes to the agent of a server: not where there is no server or
/// no operation, nor to the example server.
pub fn goes_to_agent(server: &Option<ServerRow>, has_operation: bool) -> (r: bool)
    ensures
        r == (has_operation && (server matches Some(row) && !spec_is_demo(*row))),
{
    match server {
        Some(row) => has_operation && !is_demo(row),
        None => false,
    }
}

/// How a job ends.
#[derive(Debug)]
pub enum JobEnd {
    /// It has succeeded: its steps are stored, and its effects are applied.
    Succeed { steps: Vec<StepReport>, data: OperationData },
    /// It has failed with this error, and [`failed_site`] is marked.
    Fail { error: String },
    /// Its plan is walked through locally.
    Simulate,
}

/// Shown for a job that has succeeded.
pub const COMPLETED: &'static str = "Completed";

/// Shown for a job that has failed.
pub const FAILED: &'static str = "Failed";

/// Shown for a job that was walked through locally.
pub const SIMULATED: &'static str = "Completed (simulated: no agent attached)";

/// What [`conclude`] makes of what came of sending an operation, if it was sent.
pub open spec fn ends(
    outcome: Option<Result<OperationResult, Error>>,
    demo_data: bool,
    e: JobEnd,
) -> bool {
    match outcome {
        None => e is Simulate,
        Some(Ok(r)) => if r.success {
            e == (JobEnd::Succeed { steps: r.steps, data: r.data })
        } else {
            e matches JobEnd::Fail { error } && error@ == match r.error {
                Some(x) => x@.message(),
                None => ErrorView::Internal("agent reported failure"@).message(),
            }
        },
        Some(Err(x)) => if demo_data && x is Unreachable {
            e is Simulate
        } else {
            e matches JobEnd::Fail { error } && error@ == x@.message()
        },
    }
}

/// How a job ends, given what came of sending its operation, if it was sent.
pub fn conclude(outcome: Option<Result<OperationResult, Error>>, demo_data: bool) -> (e: JobEnd)
    ensures
        ends(outcome, demo_data, e),
{
    match outcome {
        None => JobEnd::Simulate,
        Some(Ok(r)) => if r.success {
            JobEnd::Succeed { steps: r.steps, data: r.data }
        } else {
            let error = match r.error {
                Some(x) => x,
                None => Error::internal("agent reported failure"),
            };
            JobEnd::Fail { error: error.message() }
        },
        Some(Err(x)) => {
            let unreachable = match &x {
                Error::Unreachable(_) => true,
                _ => false,
            };
            if demo_data && unreachable {
                JobEnd::Simulate
            } else {
                JobEnd::Fail { error: x.message() }
            }
        },
    }
}

/// Nothing that an agent has answered is walked through locally, and without demo data
/// nothing that was sent is: an agent that cannot be reached fails the job.
pub proof fn law_sent_jobs_are_not_simulated(
    outcome: Result<OperationResult, Error>,
    demo_data: bool,
    e: JobEnd,
)
    requires
        ends(Some(outcome), demo_data, e),
        outcome is Ok || !demo_data,
    ensures
        !(e is Simulate),
{
}

/// The site that is marked as failed together with a job: only the creation of a site
/// marks one.
pub fn failed_site(kind: JobKind, site_id: Option<i64>) -> (r: Option<i64>)
    ensures
        r == if kind == JobKind::SiteCreate {
            site_id
        } else {
            None
        },
{
    match kind {
        JobKind::SiteCreate => site_id,
        _ => None,
    }
}

// ---------------------------------------------------------------------------
// Payloads
// ---------------------------------------------------------------------------

/// What the payload of a job says, as far as it is read member by member.
#[derive(Debug)]
pub struct Fields {
    pub php_version: Option<String>,
    pub install_wordpress: Option<bool>,
    pub request_ssl: Option<bool>,
    pub keep_backups: Option<bool>,
    pub domains: Option<Vec<String>>,
    pub destination_id: Option<i64>,
    pub snapshot_id: Option<String>,
    pub slug: Option<String>,
    pub user_login: Option<String>,
    pub hook: Option<String>,
    pub resync: Option<bool>,
    pub source_site_id: Option<i64>,
    pub target_site_id: Option<i64>,
    pub target_domain: Option<String>,
}

/// What the payload of a job says, as far as whole models are read out of it.
#[derive(Debug)]
pub struct Models {
    pub database_mode: Option<DatabaseMode>,
    pub limits: Option<ResourceLimits>,
    pub cache: Option<CacheSettings>,
    pub scope: Option<BackupScope>,
    pub action: Option<WpItemAction>,
    pub mode: Option<CronMode>,
    pub source: Option<ImportSource>,
    pub install: Option<InstallWordpress>,
}

/// The texts among the elements of an array.
pub open spec fn texts_among(elements: Seq<Seq<char>>) -> Seq<Seq<char>>
    decreases elements.len(),
{
    if elements.len() == 0 {
        Seq::empty()
    } else {
        let before = texts_among(elements.drop_last());
        match json::json_str(elements.last()) {
            Some(s) => before.push(s),
            None => before,
        }
    }
}

/// The member under a key as a list of texts, where it is an array.
pub open spec fn texts_member(doc: Seq<char>, key: Seq<char>) -> Option<Seq<Seq<char>>> {
    match json::json_member(doc, key) {
        None => None,
        Some(m) => match json::json_elements(m) {
            Ok(list) => Some(texts_among(list)),
            Err(_) => None,
        },
    }
}

/// The view of an optional list of texts.
pub open spec fn list_view(o: Option<Vec<String>>) -> Option<Seq<Seq<char>>> {
    match o {
        Some(v) => Some(text::texts(v@)),
        None => None,
    }
}

/// Executable form of [`texts_member`].
fn get_texts(doc: &str, key: &str) -> (r: Option<Vec<String>>)
    ensures
        list_view(r) == texts_member(doc@, key@),
{
    let m = match json::member(doc, key) {
        None => return None,
        Some(m) => m,
    };
    let list = match json::elements(m.as_str()) {
        Err(_) => return None,
        Ok(list) => list,
    };
    let ghost all = text::texts(list@);
    let mut v = text::no_texts();
    let mut i: usize = 0;
    assert(all.take(0) =~= Seq::empty());
    while i < list.len()
        invariant
            i <= list@.len(),
            all == text::texts(list@),
            text::texts(v@) == texts_among(all.take(i as int)),
        decreases list@.len() - i,
    {
        let ghost next = all.take(i + 1);
        assert(next.drop_last() =~= all.take(i as int));
        assert(next.last() == list@[i as int]@);
        if let Some(s) = json::as_str(list[i].as_str()) {
            text::push_text(&mut v, s);
        }
        i += 1;
    }
    assert(all.take(i as int) =~= all);
    Some(v)
}

/// The fields are what the members of the payload hold.
pub open spec fn fields_are(f: Fields, payload: Seq<char>) -> bool {
    &&& text::text_opt(f.php_version) == json::str_member(payload, "php_version"@)
    &&& f.install_wordpress == json::bool_member(payload, "install_wordpress"@)
    &&& f.request_ssl == json::bool_member(payload, "request_ssl"@)
    &&& f.keep_backups == json::bool_member(payload, "keep_backups"@)
    &&& list_view(f.domains) == texts_member(payload, "domains"@)
    &&& f.destination_id == json::i64_member(payload, "destination_id"@)
    &&& text::text_opt(f.snapshot_id) == json::str_member(payload, "snapshot_id"@)
    &&& text::text_opt(f.slug) == json::str_member(payload, "slug"@)
    &&& text::text_opt(f.user_login) == json::str_member(payload, "user_login"@)
    &&& text::text_opt(f.hook) == json::str_member(payload, "hook"@)
    &&& f.resync == json::bool_member(payload, "resync"@)
    &&& f.source_site_id == json::i64_member(payload, "source_site_id"@)
    &&& f.target_site_id == json::i64_member(payload, "target_site_id"@)
    &&& text::text_opt(f.target_domain) == json::str_member(payload, "target_domain"@)
}

/// Reads the members of a payload.
pub fn read_fields(payload: &str) -> (f: Fields)
    ensures
        fields_are(f, payload@),
{
    Fields {
        php_version: json::get_str(payload, "php_version"),
        install_wordpress: json::get_bool(payload, "install_wordpress"),
        request_ssl: json::get_bool(payload, "request_ssl"),
        keep_backups: json::get_bool(payload, "keep_backups"),
        domains: get_texts(payload, "domains"),
        destination_id: json::get_i64(payload, "destination_id"),
        snapshot_id: json::get_str(payload, "snapshot_id"),
        slug: json::get_str(payload, "slug"),
        user_login: json::get_str(payload, "user_login"),
        hook: json::get_str(payload, "hook"),
        resync: json::get_bool(payload, "resync"),
        source_site_id: json::get_i64(payload, "source_site_id"),
        target_site_id: json::get_i64(payload, "target_site_id"),
        target_domain: json::get_str(payload, "target_domain"),
    }
}

// ---------------------------------------------------------------------------
// Operations
// ---------------------------------------------------------------------------

/// What was found of the site that a copy is made of.
#[derive(Debug)]
pub struct SourceSite {
    pub domain: String,
    pub php_version: PhpVersion,
}

/// Where backups go.
#[derive(Debug)]
pub enum TargetLookup {
    /// The payload names no destination.
    Unnamed,
    /// The destination that the payload names, ready for use.
    Found(ResticTarget),
    /// The destination that the payload names is not there or cannot be used.
    Missing,
}

/// What a destination comes to, given its credentials: without them it cannot be used.
/// One without a repository password is left to the agent, which says what is wrong.
pub open spec fn looked_up(
    dest: Destination,
    opened: Result<CredentialsView, ErrorView>,
    t: TargetLookup,
) -> bool {
    match opened {
        Ok(c) => t matches TargetLookup::Found(target) && target@ == destinations::reached_with(
            dest,
            c,
        ),
        Err(_) => t is Missing,
    }
}

/// Executable form of [`looked_up`].
pub fn target_found(dest: &Destination, opened: Result<DestinationCredentials, Error>) -> (t:
    TargetLookup)
    ensures
        looked_up(
            *dest,
            match opened {
                Ok(c) => Ok(c@),
                Err(e) => Err(e@),
            },
            t,
        ),
{
    match opened {
        Ok(c) => TargetLookup::Found(destinations::reach(dest, c)),
        Err(_) => TargetLookup::Missing,
    }
}

/// Where backups go, given the destination that the payload names, if it is there.
pub fn look_up(dest: Option<&Destination>, key: &SecretBox) -> (t: TargetLookup)
    ensures
        match dest {
            Some(d) => looked_up(*d, destinations::credentials_of(*d, key.spec_key()), t),
            None => t is Missing,
        },
{
    match dest {
        Some(d) => target_found(d, destinations::decrypt_credentials(d, key)),
        None => TargetLookup::Missing,
    }
}

/// A text, or another one where there is none.
pub open spec fn or_text(o: Option<String>, other: Seq<char>) -> Seq<char> {
    match o {
        Some(s) => s@,
        None => other,
    }
}

/// Executable form of [`or_text`].
fn text_or(o: Option<String>, other: &str) -> (s: String)
    ensures
        s@ == or_text(o, other@),
{
    match o {
        Some(s) => s,
        None => other.to_owned(),
    }
}

/// The PHP version that a payload asks for.
pub open spec fn wanted_php(f: Fields) -> PhpVersion {
    match f.php_version {
        Some(s) => sites::php_of(s@),
        None => PhpVersion::Php84,
    }
}

/// Executable form of [`wanted_php`].
fn php_in(o: &Option<String>) -> (v: PhpVersion)
    ensures
        v == match *o {
            Some(s) => sites::php_of(s@),
            None => PhpVersion::Php84,
        },
{
    match o {
        Some(s) => sites::php(s.as_str()),
        None => PhpVersion::Php84,
    }
}

/// The target of a backup without a destination.
pub open spec fn no_target() -> ResticTargetView {
    ResticTargetView { repo: ""@, password: ""@, env: Seq::empty() }
}

/// The target of a backup, if there is one.
pub open spec fn target_in(t: TargetLookup) -> Option<ResticTargetView> {
    match t {
        TargetLookup::Unnamed => Some(no_target()),
        TargetLookup::Found(target) => Some(target@),
        TargetLookup::Missing => None,
    }
}

/// Executable form of [`target_in`].
fn take_target(t: TargetLookup) -> (r: Option<ResticTarget>)
    ensures
        match r {
            Some(target) => target_in(t) == Some(target@),
            None => target_in(t) is None,
        },
{
    match t {
        TargetLookup::Unnamed => {
            let env: Vec<(String, String)> = Vec::new();
            assert(protocol::pairs(env@) =~= Seq::empty());
            Some(ResticTarget { repo: "".to_owned(), password: "".to_owned(), env })
        },
        TargetLookup::Found(target) => Some(target),
        TargetLookup::Missing => None,
    }
}

/// A value, or another one where there is none.
pub open spec fn or<T>(o: Option<T>, other: T) -> T {
    match o {
        Some(x) => x,
        None => other,
    }
}

/// What [`operation_for`] makes of a job.
pub open spec fn maps_to(
    kind: JobKind,
    site_id: Option<i64>,
    site_domain: Option<String>,
    f: Fields,
    m: Models,
    target: TargetLookup,
    source: Option<SourceSite>,
    r: Option<Operation>,
) -> bool {
    match site_id {
        None => r is None,
        Some(id) => match kind {
            JobKind::SiteCreate => r matches Some(Operation::CreateSite(c)) && c.site_id == id
                && c.domain@ == or_text(site_domain, ""@) && c.php_version == wanted_php(f)
                && c.database_mode == or(m.database_mode, DatabaseMode::Shared) && c.limits == or(
                m.limits,
                ResourceLimits::standard(),
            ) && c.cache == or(m.cache, CacheSettings::standard()) && c.install_wordpress == or(
                f.install_wordpress,
                true,
            ) && c.request_ssl == or(f.request_ssl, true) && c.wordpress is None,
            JobKind::SiteDelete => r == Some(
                Operation::DeleteSite { site_id: id, keep_backups: or(f.keep_backups, true) },
            ),
            JobKind::SiteStart => r == Some(Operation::StartSite { site_id: id }),
            JobKind::SiteStop => r == Some(Operation::StopSite { site_id: id }),
            JobKind::SiteRestart => r == Some(Operation::RestartSite { site_id: id }),
            JobKind::PhpSwitch => r == Some(
                Operation::SwitchPhp { site_id: id, version: wanted_php(f) },
            ),
            JobKind::CacheClear => r == Some(Operation::ClearCache { site_id: id }),
            JobKind::WordpressUpdate => r == Some(Operation::UpdateWordpress { site_id: id }),
            JobKind::SslIssue => r matches Some(Operation::IssueCertificate { site_id: s, domains })
                && s == id && text::texts(domains@) == match f.domains {
                Some(v) => text::texts(v@),
                None => seq![or_text(site_domain, ""@)],
            },
            JobKind::SslRenew => r == Some(Operation::RenewCertificate { site_id: id }),
            JobKind::BackupCreate => match target_in(target) {
                None => r is None,
                Some(t) => r matches Some(
                    Operation::CreateBackup { site_id: s, scope, target: to, retention },
                ) && s == id && scope == or(m.scope, BackupScope::Full) && to@ == t && retention
                    == RetentionPolicy::standard(),
            },
            JobKind::BackupRestore => match target_in(target) {
                None => r is None,
                Some(t) => r matches Some(
                    Operation::RestoreBackup { site_id: s, snapshot_id, scope, target: to },
                ) && s == id && snapshot_id@ == or_text(f.snapshot_id, ""@) && scope == or(
                    m.scope,
                    BackupScope::Full,
                ) && to@ == t,
            },
            JobKind::PluginAction => r matches Some(
                Operation::PluginAction { site_id: s, slug, action },
            ) && s == id && slug@ == or_text(f.slug, ""@) && action == or(
                m.action,
                WpItemAction::Activate,
            ),
            JobKind::PluginUpdateAll => r == Some(Operation::UpdateAllPlugins { site_id: id }),
            JobKind::ThemeAction => r matches Some(
                Operation::ThemeAction { site_id: s, slug, action },
            ) && s == id && slug@ == or_text(f.slug, ""@) && action == or(
                m.action,
                WpItemAction::Activate,
            ),
            JobKind::WpUserPasswordReset => r matches Some(
                Operation::ResetWpPassword { site_id: s, user_login },
            ) && s == id && user_login@ == or_text(f.user_login, "admin"@),
            JobKind::CronRun => r matches Some(Operation::RunCronEvent { site_id: s, hook }) && s
                == id && hook@ == or_text(f.hook, ""@),
            JobKind::CronModeSet => r == Some(
                Operation::SetWpCron { site_id: id, mode: or(m.mode, CronMode::WpCron) },
            ),
            JobKind::ImportRun => match m.source {
                None => r is None,
                Some(from) => r matches Some(Operation::ImportSite(i)) && i.site_id == id
                    && i.domain@ == or_text(site_domain, ""@) && i.php_version == wanted_php(f)
                    && i.database_mode == or(m.database_mode, DatabaseMode::Shared) && i.limits
                    == or(m.limits, ResourceLimits::standard()) && i.cache == or(
                    m.cache,
                    CacheSettings::standard(),
                ) && i.source == from && i.resync == or(f.resync, false),
            },
            JobKind::SiteClone | JobKind::StagingCreate | JobKind::StagingPush => r matches Some(
                Operation::CloneSite(c),
            ) && c.source_site_id == or(f.source_site_id, id) && c.source_domain@ == match source {
                Some(s) => s.domain@,
                None => ""@,
            } && c.target_site_id == or(f.target_site_id, id) && c.target_domain@ == or_text(
                f.target_domain,
                ""@,
            ) && c.php_version == match source {
                Some(s) => s.php_version,
                None => PhpVersion::Php84,
            } && c.staging == (kind != JobKind::SiteClone) && c.search_replace && c.request_ssl
                == or(f.request_ssl, false),
            JobKind::WordpressInstall => r matches Some(Operation::InstallWordpress(w))
                && match m.install {
                Some(i) => w == i,
                None => w.site_id == id && w.site_title@ == "WordPress"@ && w.admin_user@
                    == "admin"@ && w.admin_email@ == "admin@example.com"@ && w.admin_password@
                    == "password"@ && w.locale@ == "en_US"@,
            },
        },
    }
}

/// The destination that a job needs, if its payload names one.
pub fn needs_destination(kind: JobKind, f: &Fields) -> (r: Option<i64>)
    ensures
        r == if kind == JobKind::BackupCreate || kind == JobKind::BackupRestore {
            f.destination_id
        } else {
            None
        },
{
    match kind {
        JobKind::BackupCreate | JobKind::BackupRestore => f.destination_id,
        _ => None,
    }
}

/// The site that a copy is made of.
pub fn needs_source(site_id: i64, f: &Fields) -> (id: i64)
    ensures
        id == or(f.source_site_id, site_id),
{
    match f.source_site_id {
        Some(id) => id,
        None => site_id,
    }
}

/// A value, or another one where there is none.
fn value_or<T>(o: Option<T>, other: T) -> (x: T)
    ensures
        x == or(o, other),
{
    match o {
        Some(x) => x,
        None => other,
    }
}

/// The request for a copy of a site.
fn clone_request(
    kind: JobKind,
    site_id: i64,
    f: Fields,
    source: Option<SourceSite>,
) -> (c: CloneSite)
    ensures
        c.source_site_id == or(f.source_site_id, site_id),
        c.source_domain@ == match source {
            Some(s) => s.domain@,
            None => ""@,
        },
        c.target_site_id == or(f.target_site_id, site_id),
        c.target_domain@ == or_text(f.target_domain, ""@),
        c.php_version == match source {
            Some(s) => s.php_version,
            None => PhpVersion::Php84,
        },
        c.staging == (kind != JobKind::SiteClone),
        c.search_replace,
        c.request_ssl == or(f.request_ssl, false),
{
    let staging = match kind {
        JobKind::SiteClone => false,
        _ => true,
    };
    let (source_domain, php_version) = match source {
        Some(s) => (s.domain, s.php_version),
        None => ("".to_owned(), PhpVersion::Php84),
    };
    CloneSite {
        source_site_id: value_or(f.source_site_id, site_id),
        source_domain,
        target_site_id: value_or(f.target_site_id, site_id),
        target_domain: text_or(f.target_domain, ""),
        php_version,
        staging,
        search_replace: true,
        request_ssl: value_or(f.request_ssl, false),
    }
}

/// Maps a job and what its payload says to the agent operation that performs it.
pub fn operation_for(
    kind: JobKind,
    site_id: Option<i64>,
    site_domain: Option<String>,
    f: Fields,
    m: Models,
    target: TargetLookup,
    source: Option<SourceSite>,
) -> (r: Option<Operation>)
    ensures
        maps_to(kind, site_id, site_domain, f, m, target, source, r),
{
    let site_id: i64 = match site_id {
        Some(id) => id,
        None => return None,
    };
    match kind {
        JobKind::SiteCreate => {
            let php_version = php_in(&f.php_version);
            Some(
                Operation::CreateSite(
                    CreateSite {
                        site_id,
                        domain: text_or(site_domain, ""),
                        php_version,
                        database_mode: value_or(m.database_mode, DatabaseMode::Shared),
                        limits: value_or(m.limits, ResourceLimits::default()),
                        cache: value_or(m.cache, CacheSettings::default()),
                        install_wordpress: value_or(f.install_wordpress, true),
                        request_ssl: value_or(f.request_ssl, true),
                        wordpress: None,
                    },
                ),
            )
        },
        JobKind::SiteDelete => Some(
            Operation::DeleteSite { site_id, keep_backups: value_or(f.keep_backups, true) },
        ),
        JobKind::SiteStart => Some(Operation::StartSite { site_id }),
        JobKind::SiteStop => Some(Operation::StopSite { site_id }),
        JobKind::SiteRestart => Some(Operation::RestartSite { site_id }),
        JobKind::PhpSwitch => Some(
            Operation::SwitchPhp { site_id, version: php_in(&f.php_version) },
        ),
        JobKind::CacheClear => Some(Operation::ClearCache { site_id }),
        JobKind::WordpressUpdate => Some(Operation::UpdateWordpress { site_id }),
        JobKind::SslIssue => {
            let domains = match f.domains {
                Some(v) => v,
                None => {
                    let domain = text_or(site_domain, "");
                    text::list1(domain.as_str())
                },
            };
            Some(Operation::IssueCertificate { site_id, domains })
        },
        JobKind::SslRenew => Some(Operation::RenewCertificate { site_id }),
        JobKind::BackupCreate => match take_target(target) {
            None => None,
            Some(target) => Some(
                Operation::CreateBackup {
                    site_id,
                    scope: value_or(m.scope, BackupScope::Full),
                    target,
                    retention: RetentionPolicy::default(),
                },
            ),
        },
        JobKind::BackupRestore => match take_target(target) {
            None => None,
            Some(target) => Some(
                Operation::RestoreBackup {
                    site_id,
                    snapshot_id: text_or(f.snapshot_id, ""),
                    scope: value_or(m.scope, BackupScope::Full),
                    target,
                },
            ),
        },
        JobKind::PluginAction => Some(
            Operation::PluginAction {
                site_id,
                slug: text_or(f.slug, ""),
                action: value_or(m.action, WpItemAction::Activate),
            },
        ),
        JobKind::PluginUpdateAll => Some(Operation::UpdateAllPlugins { site_id }),
        JobKind::ThemeAction => Some(
            Operation::ThemeAction {
                site_id,
                slug: text_or(f.slug, ""),
                action: value_or(m.action, WpItemAction::Activate),
            },
        ),
        JobKind::WpUserPasswordReset => Some(
            Operation::ResetWpPassword { site_id, user_login: text_or(f.user_login, "admin") },
        ),
        JobKind::CronRun => Some(
            Operation::RunCronEvent { site_id, hook: text_or(f.hook, "") },
        ),
        JobKind::CronModeSet => Some(
            Operation::SetWpCron { site_id, mode: value_or(m.mode, CronMode::WpCron) },
        ),
        JobKind::ImportRun => match m.source {
            None => None,
            Some(from) => {
                let php_version = php_in(&f.php_version);
                Some(
                    Operation::ImportSite(
                        ImportRequest {
                            site_id,
                            domain: text_or(site_domain, ""),
                            php_version,
                            database_mode: value_or(m.database_mode, DatabaseMode::Shared),
                            limits: value_or(m.limits, ResourceLimits::default()),
                            cache: value_or(m.cache, CacheSettings::default()),
                            source: from,
                            resync: value_or(f.resync, false),
                        },
                    ),
                )
            },
        },
        JobKind::SiteClone | JobKind::StagingCreate | JobKind::StagingPush => Some(
            Operation::CloneSite(clone_request(kind, site_id, f, source)),
        ),
        JobKind::WordpressInstall => Some(
            Operation::InstallWordpress(
                match m.install {
                    Some(i) => i,
                    None => InstallWordpress {
                        site_id,
                        site_title: "WordPress".to_owned(),
                        admin_user: "admin".to_owned(),
                        admin_email: "admin@example.com".to_owned(),
                        admin_password: "password".to_owned(),
                        locale: "en_US".to_owned(),
                    },
                },
            ),
        ),
    }
}

/// Maps a job and its payload to the agent operation that performs it.
pub fn build_operation(
    kind: JobKind,
    site_id: Option<i64>,
    site_domain: Option<String>,
    payload: &str,
    m: Models,
    target: TargetLookup,
    source: Option<SourceSite>,
) -> (r: Option<Operation>)
    ensures
        exists|f: Fields|
            fields_are(f, payload@) && #[trigger] maps_to(
                kind,
                site_id,
                site_domain,
                f,
                m,
                target,
                source,
                r,
            ),
{
    let f = read_fields(payload);
    operation_for(kind, site_id, site_domain, f, m, target, source)
}

// ---------------------------------------------------------------------------
// Effects
// ---------------------------------------------------------------------------

/// What a job that has succeeded changes in the panel.
#[derive(Debug)]
pub enum Effect {
    SetStatus(SiteStatus),
    SetWpVersion(&'static str),
    /// A certificate from Let's Encrypt, with when it expires.
    SetSsl { expires: UtcTime },
    Delete,
    SetPhp(PhpVersion),
    /// A full backup.
    RecordBackup { snapshot_id: String, size_bytes: u64 },
}

/// [`Effect`] with its texts as sequences of characters.
pub enum EffectView {
    SetStatus(SiteStatus),
    SetWpVersion(Seq<char>),
    SetSsl { expires: UtcTime },
    Delete,
    SetPhp(PhpVersion),
    RecordBackup { snapshot_id: Seq<char>, size_bytes: u64 },
}

impl View for Effect {
    type V = EffectView;

    open spec fn view(&self) -> EffectView {
        match self {
            Effect::SetStatus(s) => EffectView::SetStatus(*s),
            Effect::SetWpVersion(v) => EffectView::SetWpVersion(v@),
            Effect::SetSsl { expires } => EffectView::SetSsl { expires: *expires },
            Effect::Delete => EffectView::Delete,
            Effect::SetPhp(v) => EffectView::SetPhp(*v),
            Effect::RecordBackup { snapshot_id, size_bytes } => EffectView::RecordBackup {
                snapshot_id: snapshot_id@,
                size_bytes: *size_bytes,
            },
        }
    }
}

/// The views of some effects.
pub open spec fn effect_views(v: Seq<Effect>) -> Seq<EffectView> {
    v.map_values(|e: Effect| e@)
}

/// The WordPress version that a fresh install has.
pub const WP_VERSION: &'static str = "6.7.1";

/// The size that is shown for a backup that was only walked through.
pub const SIMULATED_SIZE: u64 = 1_150_000_000;

/// When a certificate that is issued at `now` expires.
pub open spec fn expiry_of(now: UtcTime) -> UtcTime {
    UtcTime { secs: (now.secs + ssl::VALIDITY_SECS) as i64, nanos: now.nanos }
}

/// What a job that has succeeded changes in the panel: `data` is what the agent
/// answered, if one did; `snapshot` stands for the id of a backup that was only walked
/// through.
pub open spec fn effects_of(
    kind: JobKind,
    site_id: Option<i64>,
    f: Fields,
    data: Option<OperationData>,
    now: UtcTime,
    snapshot: Seq<char>,
) -> Seq<EffectView> {
    if site_id is None {
        Seq::empty()
    } else {
        match kind {
            JobKind::SiteCreate => {
                let made = seq![
                    EffectView::SetStatus(SiteStatus::Online),
                    EffectView::SetWpVersion(WP_VERSION@),
                ];
                if or(f.request_ssl, false) {
                    made.push(EffectView::SetSsl { expires: expiry_of(now) })
                } else {
                    made
                }
            },
            JobKind::SiteStart
            | JobKind::SiteRestart
            | JobKind::SiteClone
            | JobKind::ImportRun => seq![EffectView::SetStatus(SiteStatus::Online)],
            JobKind::WordpressInstall => seq![EffectView::SetWpVersion(WP_VERSION@)],
            JobKind::SiteStop => seq![EffectView::SetStatus(SiteStatus::Stopped)],
            JobKind::SiteDelete => seq![EffectView::Delete],
            JobKind::PhpSwitch => match f.php_version {
                Some(s) => match PhpVersion::spec_parse(s@) {
                    Some(v) => seq![EffectView::SetPhp(v)],
                    None => Seq::empty(),
                },
                None => Seq::empty(),
            },
            JobKind::SslIssue | JobKind::SslRenew => seq![
                EffectView::SetSsl {
                    expires: match data {
                        Some(OperationData::Certificate { expires_at, .. }) => expires_at,
                        _ => expiry_of(now),
                    },
                },
            ],
            JobKind::BackupCreate => seq![
                match data {
                    Some(OperationData::Backup { snapshot_id, size_bytes, .. }) =>
                        EffectView::RecordBackup { snapshot_id: snapshot_id@, size_bytes },
                    _ => EffectView::RecordBackup {
                        snapshot_id: snapshot,
                        size_bytes: SIMULATED_SIZE,
                    },
                },
            ],
            _ => Seq::empty(),
        }
    }
}

/// Appends an effect.
fn push_effect(v: &mut Vec<Effect>, e: Effect)
    ensures
        effect_views(final(v)@) == effect_views(old(v)@).push(e@),
{
    v.push(e);
    assert(effect_views(v@) =~= effect_views(old(v)@).push(e@));
}

/// Executable form of [`effects_of`].
pub fn apply_effects(
    kind: JobKind,
    site_id: Option<i64>,
    f: &Fields,
    data: &Option<OperationData>,
    now: &UtcTime,
    snapshot: String,
) -> (v: Vec<Effect>)
    requires
        ssl::issuable(*now),
    ensures
        effect_views(v@) == effects_of(kind, site_id, *f, *data, *now, snapshot@),
{
    let mut v: Vec<Effect> = Vec::new();
    assert(effect_views(v@) =~= Seq::empty());
    if site_id.is_none() {
        return v;
    }
    match kind {
        JobKind::SiteCreate => {
            push_effect(&mut v, Effect::SetStatus(SiteStatus::Online));
            push_effect(&mut v, Effect::SetWpVersion(WP_VERSION));
            if value_or(f.request_ssl, false) {
                push_effect(&mut v, Effect::SetSsl { expires: ssl::expiry(now) });
            }
        },
        JobKind::SiteStart | JobKind::SiteRestart | JobKind::SiteClone | JobKind::ImportRun => {
            push_effect(&mut v, Effect::SetStatus(SiteStatus::Online));
        },
        JobKind::WordpressInstall => {
            push_effect(&mut v, Effect::SetWpVersion(WP_VERSION));
        },
        JobKind::SiteStop => {
            push_effect(&mut v, Effect::SetStatus(SiteStatus::Stopped));
        },
        JobKind::SiteDelete => {
            push_effect(&mut v, Effect::Delete);
        },
        JobKind::PhpSwitch => {
            if let Some(s) = &f.php_version {
                if let Some(version) = PhpVersion::parse(s.as_str()) {
                    push_effect(&mut v, Effect::SetPhp(version));
                }
            }
        },
        JobKind::SslIssue | JobKind::SslRenew => {
            let expires = match data {
                Some(OperationData::Certificate { expires_at, .. }) => *expires_at,
                _ => ssl::expiry(now),
            };
            push_effect(&mut v, Effect::SetSsl { expires });
        },
        JobKind::BackupCreate => {
            let e = match data {
                Some(OperationData::Backup { snapshot_id, size_bytes, .. }) =>
                    Effect::RecordBackup {
                        snapshot_id: snapshot_id.clone(),
                        size_bytes: *size_bytes,
                    },
                _ => Effect::RecordBackup { snapshot_id: snapshot, size_bytes: SIMULATED_SIZE },
            };
            push_effect(&mut v, e);
        },
        _ => {},
    }
    v
}

/// An id for a backup that was only walked through: eight small characters of a random
/// token.
pub fn simulated_snapshot() -> (s: String)
    ensures
        s@.len() == 8,
        exists|bytes: Seq<u8>|
            bytes.len() == 32 && s@ == text::lowered(
                (#[trigger] crypto::url_base64_of(bytes)).take(8),
            ),
{
    let token = auth::random_token();
    let front = text::front(token.as_str(), 8);
    let cs = text::chars_of(front.as_str());
    text::lowered_chars(cs.as_slice())
}

} // verus!
