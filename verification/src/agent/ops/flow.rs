//! Operations under way: a plan being walked through, and what its end means.

use vstd::prelude::*;
use crate::agent::ops::database;
use crate::agent::plan;
use crate::agent::plan::{Runner, RunnerView, Stage, StageView};
use crate::agent::store::{RecordView, SiteRecord};
use crate::common::error::{Error, ErrorView};
use crate::common::models::{BackupScope, PhpVersion};
use crate::common::protocol;
use crate::crypto;
use crate::text;

verus! {

/// What becomes of the agent's index of sites.
#[derive(Debug)]
pub enum StoreChange {
    Keep,
    Put(SiteRecord),
    Remove(i64),
}

/// [`StoreChange`] with its texts as sequences of characters.
pub enum ChangeView {
    Keep,
    Put(RecordView),
    Remove(i64),
}

impl View for StoreChange {
    type V = ChangeView;

    open spec fn view(&self) -> ChangeView {
        match self {
            StoreChange::Keep => ChangeView::Keep,
            StoreChange::Put(record) => ChangeView::Put(record@),
            StoreChange::Remove(id) => ChangeView::Remove(*id),
        }
    }
}

/// What the end of a plan means.
#[derive(Debug)]
pub enum Flow {
    /// The operation is done.
    Steps(StoreChange),
    /// A container was started, then asked whether it runs.
    Started { record: SiteRecord },
    /// A site was created; with `remember` its container and state are kept.
    Created { record: SiteRecord, container_stage: usize, remember: bool },
    /// A site was taken over.
    Imported { record: SiteRecord, container_stage: usize },
    /// A site was asked for its state.
    Status { record: SiteRecord },
    /// The configuration of a site that is to be cloned was read.
    CloneFrom {
        source: SiteRecord,
        target: SiteRecord,
        staging: bool,
        search_replace: bool,
        password: String,
    },
    /// A container with another PHP version was started, then asked whether it runs.
    SwitchCheck { record: SiteRecord, version: PhpVersion },
    /// What was begun was undone.
    Undone(Error),
    /// A certificate was issued.
    Certificate { domains: Vec<String> },
    /// WordPress was installed or updated; a stage printed its version.
    Version { site_id: i64, php_version: PhpVersion, stage: usize },
    /// A backup was made.
    Snapshot { scope: BackupScope },
    /// The backups of a site were asked for.
    Backups { record: SiteRecord, repo: String },
    /// A command was run for the panel.
    Output,
    /// A log was read.
    Lines,
    Plugins,
    Themes,
    Users,
    CronEvents,
    CoreUpdate,
    /// A user was given a new password.
    Password { user_login: String, password: String },
    /// A site elsewhere was looked at; with `with_db` for its database
    /// constants too, and with `with_key` after its key was written.
    Inspect { with_key: bool, with_db: bool },
    /// The database of a site elsewhere was dumped.
    Dumped {
        record: SiteRecord,
        remote_db: String,
        resync: bool,
        password: String,
        dump_path: String,
        dump_stage: usize,
    },
}

/// [`Flow`] with its texts as sequences of characters.
pub enum FlowView {
    Steps(ChangeView),
    Started { record: RecordView },
    Created { record: RecordView, container_stage: int, remember: bool },
    Imported { record: RecordView, container_stage: int },
    Status { record: RecordView },
    CloneFrom {
        source: RecordView,
        target: RecordView,
        staging: bool,
        search_replace: bool,
        password: Seq<char>,
    },
    SwitchCheck { record: RecordView, version: PhpVersion },
    Undone(ErrorView),
    Certificate { domains: Seq<Seq<char>> },
    Version { site_id: i64, php_version: PhpVersion, stage: int },
    Snapshot { scope: BackupScope },
    Backups { record: RecordView, repo: Seq<char> },
    Output,
    Lines,
    Plugins,
    Themes,
    Users,
    CronEvents,
    CoreUpdate,
    Password { user_login: Seq<char>, password: Seq<char> },
    Inspect { with_key: bool, with_db: bool },
    Dumped {
        record: RecordView,
        remote_db: Seq<char>,
        resync: bool,
        password: Seq<char>,
        dump_path: Seq<char>,
        dump_stage: int,
    },
}

impl View for Flow {
    type V = FlowView;

    open spec fn view(&self) -> FlowView {
        match self {
            Flow::Steps(change) => FlowView::Steps(change@),
            Flow::Started { record } => FlowView::Started { record: record@ },
            Flow::Created { record, container_stage, remember } => FlowView::Created {
                record: record@,
                container_stage: *container_stage as int,
                remember: *remember,
            },
            Flow::Imported { record, container_stage } => FlowView::Imported {
                record: record@,
                container_stage: *container_stage as int,
            },
            Flow::Status { record } => FlowView::Status { record: record@ },
            Flow::CloneFrom { source, target, staging, search_replace, password } =>
                FlowView::CloneFrom {
                    source: source@,
                    target: target@,
                    staging: *staging,
                    search_replace: *search_replace,
                    password: password@,
                },
            Flow::SwitchCheck { record, version } => FlowView::SwitchCheck {
                record: record@,
                version: *version,
            },
            Flow::Undone(e) => FlowView::Undone(e@),
            Flow::Certificate { domains } => FlowView::Certificate {
                domains: text::texts(domains@),
            },
            Flow::Version { site_id, php_version, stage } => FlowView::Version {
                site_id: *site_id,
                php_version: *php_version,
                stage: *stage as int,
            },
            Flow::Snapshot { scope } => FlowView::Snapshot { scope: *scope },
            Flow::Backups { record, repo } => FlowView::Backups { record: record@, repo: repo@ },
            Flow::Output => FlowView::Output,
            Flow::Lines => FlowView::Lines,
            Flow::Plugins => FlowView::Plugins,
            Flow::Themes => FlowView::Themes,
            Flow::Users => FlowView::Users,
            Flow::CronEvents => FlowView::CronEvents,
            Flow::CoreUpdate => FlowView::CoreUpdate,
            Flow::Password { user_login, password } => FlowView::Password {
                user_login: user_login@,
                password: password@,
            },
            Flow::Inspect { with_key, with_db } => FlowView::Inspect {
                with_key: *with_key,
                with_db: *with_db,
            },
            Flow::Dumped {
                record,
                remote_db,
                resync,
                password,
                dump_path,
                dump_stage,
            } => FlowView::Dumped {
                record: record@,
                remote_db: remote_db@,
                resync: *resync,
                password: password@,
                dump_path: dump_path@,
                dump_stage: *dump_stage as int,
            },
        }
    }
}

/// An operation under way.
pub struct OperationRun {
    pub flow: Flow,
    pub runner: Runner,
    /// Files that are removed when the operation is over, however it ends.
    pub temp_files: Vec<String>,
}

/// [`OperationRun`] with its texts as sequences of characters.
pub struct RunView {
    pub flow: FlowView,
    pub runner: RunnerView,
    pub temp_files: Seq<Seq<char>>,
}

impl View for OperationRun {
    type V = RunView;

    open spec fn view(&self) -> RunView {
        RunView {
            flow: self.flow@,
            runner: self.runner@,
            temp_files: text::texts(self.temp_files@),
        }
    }
}

/// An operation of which nothing has been done.
pub open spec fn fresh(flow: FlowView, plan: Seq<StageView>) -> RunView {
    RunView { flow, runner: RunnerView::start(plan), temp_files: Seq::empty() }
}

/// Executable form of [`fresh`].
pub fn begin(flow: Flow, list: Vec<Stage>) -> (r: OperationRun)
    ensures
        r@ == fresh(flow@, plan::stages(list@)),
{
    OperationRun { flow, runner: Runner::new(list), temp_files: text::no_texts() }
}

/// What is left to chance or to the host in an operation.
pub struct Fresh {
    /// Password for a new database.
    pub password: String,
    /// Another password.
    pub other_password: String,
    /// Password for a WordPress user.
    pub wp_password: String,
    /// Where temporary files go.
    pub temp_dir: String,
    /// Parts of the names of temporary files.
    pub key_id: String,
    pub dump_id: String,
}

/// A text that is the front of 24 bytes in base64.
pub open spec fn is_wp_password(s: Seq<char>) -> bool {
    exists|bytes: Seq<u8>|
        bytes.len() == 24 && s == (#[trigger] crypto::url_base64_of(bytes)).take(20)
}

/// A random password for a WordPress user.
fn wp_password() -> (s: String)
    ensures
        is_wp_password(s@),
        s@.len() == 20,
{
    let bytes = crypto::random_bytes(24);
    let encoded = crypto::url_base64(bytes.as_slice());
    text::front(encoded.as_str(), 20)
}

impl Fresh {
    /// Draws passwords and identifiers.
    pub fn draw(temp_dir: String) -> (f: Fresh)
        ensures
            database::is_password(f.password@),
            database::is_password(f.other_password@),
            is_wp_password(f.wp_password@),
            f.temp_dir == temp_dir,
            protocol::is_identifier(f.key_id@),
            protocol::is_identifier(f.dump_id@),
    {
        Fresh {
            password: database::generate_password(),
            other_password: database::generate_password(),
            wp_password: wp_password(),
            temp_dir,
            key_id: protocol::random_id(),
            dump_id: protocol::random_id(),
        }
    }
}

} // verus!
