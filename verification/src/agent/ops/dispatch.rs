//! Operation handlers. [`dispatch`] is the only entry point the HTTP layer uses;
//! [`conclude`] says what the end of a plan means.

use vstd::prelude::*;
use crate::agent::exec::{CommandOutput, OutputView};
use crate::agent::ops::backup;
use crate::agent::ops::backup::ResticSnapshot;
use crate::agent::ops::docker;
use crate::agent::ops::filesystem;
use crate::agent::ops::flow;
use crate::agent::ops::flow::{
    ChangeView, Flow, FlowView, Fresh, OperationRun, RunView, StoreChange,
};
use crate::agent::ops::import;
use crate::agent::ops::import::{Importing, Inspecting, Inspection, InspectionView};
use crate::agent::ops::metrics;
use crate::agent::ops::site;
use crate::agent::ops::ssl;
use crate::agent::ops::wordpress;
use crate::agent::ops::wpconfig;
use crate::agent::plan;
use crate::agent::plan::{Runner, RunnerView, Stage, StageView, Task, TaskView};
use crate::agent::state::AgentState;
use crate::agent::store;
use crate::agent::store::{RecordView, SiteRecord};
use crate::clock::UtcTime;
use crate::common::error::{Error, ErrorView};
use crate::common::models::{
    Backup, CronEventInfo, CronMode, PhpVersion, PluginInfo, SiteStatus, ThemeInfo, WpItemAction,
};
use crate::common::protocol;
use crate::common::protocol::{
    Operation, OperationData, OperationResult, StepReport, StepReportView, PROTOCOL_VERSION,
};
use crate::text;

verus! {

// ---------------------------------------------------------------------------
// Beginning
// ---------------------------------------------------------------------------

/// What an operation begins with.
pub enum Begun {
    /// It is over.
    Answer(OperationResult),
    /// A plan is to be walked through.
    Run(OperationRun),
    /// The metrics of the host are to be collected.
    ServerMetrics,
    /// The metrics of these sites are to be collected.
    SiteMetrics(Vec<i64>),
}

/// The run that an operation begins with, or the error that it ends with.
pub open spec fn run_of(b: Begun) -> Result<OperationRun, Error> {
    match b {
        Begun::Run(o) => Ok(o),
        Begun::Answer(a) => Err(a.error->0),
        _ => arbitrary(),
    }
}

/// An operation begins with a run, or ends with an error.
pub open spec fn runs_or_fails(b: Begun) -> bool {
    b is Run || (b matches Begun::Answer(a) && a.error is Some && a.is_err((a.error->0)@))
}

/// Executable form of [`run_of`], the other way round.
fn settle(r: Result<OperationRun, Error>) -> (b: Begun)
    ensures
        runs_or_fails(b),
        run_of(b) == r,
{
    match r {
        Ok(o) => Begun::Run(o),
        Err(e) => Begun::Answer(OperationResult::err(e)),
    }
}

/// An operation of a single task that is not in the timeline.
pub open spec fn single(flow: FlowView, task: TaskView) -> RunView {
    flow::fresh(flow, seq![plan::silent(seq![task])])
}

/// Executable form of [`single`].
fn begin_single(f: Flow, task: Task) -> (r: OperationRun)
    ensures
        r@ == single(f@, task@),
{
    let mut tasks = plan::no_tasks();
    plan::push_task(&mut tasks, task);
    let mut list = plan::no_stages();
    plan::push_stage(&mut list, plan::silent_stage(tasks));
    flow::begin(f, list)
}

/// A single task on a managed site, unless `check` refuses it.
pub open spec fn task_on_site(
    state: AgentState,
    site_id: i64,
    b: Begun,
    flow: FlowView,
    check: Option<ErrorView>,
    task: spec_fn(Seq<char>) -> TaskView,
) -> bool {
    runs_or_fails(b) && site::on_site_unless(
        state,
        site_id,
        run_of(b),
        |site: RecordView| check,
        |site: RecordView| single(flow, task(site.container())),
    )
}

/// What [`dispatch`] makes of an operation.
pub open spec fn begins(state: AgentState, operation: Operation, fresh: Fresh, b: Begun) -> bool {
    match operation {
        Operation::Ping => b matches Begun::Answer(a) && a.is_ok(Seq::empty()) && (
        a.data matches OperationData::Pong { agent_version, protocol_version } && agent_version@
            == metrics::AGENT_VERSION@ && protocol_version == PROTOCOL_VERSION),
        Operation::GetServerMetrics => b is ServerMetrics,
        Operation::GetSiteMetrics { site_ids } => b == Begun::SiteMetrics(site_ids),
        Operation::CreateSite(request) => b matches Begun::Run(o) && o@ == site::spec_create(
            state,
            request,
            fresh,
        ),
        Operation::CloneSite(request) => runs_or_fails(b) && site::clone_comes_to(
            state,
            request,
            fresh,
            run_of(b),
        ),
        Operation::DeleteSite { site_id, keep_backups } => runs_or_fails(b)
            && site::delete_comes_to(state, site_id, keep_backups, run_of(b)),
        Operation::StartSite { site_id } => runs_or_fails(b) && site::start_comes_to(
            state,
            site_id,
            run_of(b),
        ),
        Operation::StopSite { site_id } => runs_or_fails(b) && site::stop_comes_to(
            state,
            site_id,
            run_of(b),
        ),
        Operation::RestartSite { site_id } => runs_or_fails(b) && site::restart_comes_to(
            state,
            site_id,
            run_of(b),
        ),
        Operation::GetSiteStatus { site_id } => runs_or_fails(b) && site::status_comes_to(
            state,
            site_id,
            run_of(b),
        ),
        Operation::SwitchPhp { site_id, version } => runs_or_fails(b)
            && site::switch_php_comes_to(state, site_id, version, run_of(b)),
        Operation::SetLimits { site_id, limits } => runs_or_fails(b)
            && site::set_limits_comes_to(state, site_id, limits, run_of(b)),
        Operation::AddDomain { site_id, domain } => runs_or_fails(b)
            && site::add_domain_comes_to(state, site_id, domain@, run_of(b)),
        Operation::RemoveDomain { site_id, domain } => runs_or_fails(b)
            && site::remove_domain_comes_to(state, site_id, domain@, run_of(b)),
        Operation::IssueCertificate { site_id, domains } => runs_or_fails(b)
            && site::issue_certificate_comes_to(
            state,
            site_id,
            text::texts(domains@),
            run_of(b),
        ),
        Operation::RenewCertificate { site_id } => runs_or_fails(b)
            && site::renew_certificate_comes_to(state, site_id, run_of(b)),
        Operation::SetCache { site_id, settings } => runs_or_fails(b)
            && site::set_cache_comes_to(state, site_id, settings, run_of(b)),
        Operation::ClearCache { site_id } => runs_or_fails(b) && site::clear_cache_comes_to(
            state,
            site_id,
            run_of(b),
        ),
        Operation::WpCli { site_id, args } => task_on_site(
            state,
            site_id,
            b,
            FlowView::Output,
            wordpress::refusal(text::texts(args@)),
            |container: Seq<char>| wordpress::wp(container, text::texts(args@)),
        ),
        Operation::InstallWordpress(request) => runs_or_fails(b)
            && site::install_wordpress_comes_to(state, request@, fresh, run_of(b)),
        Operation::UpdateWordpress { site_id } => runs_or_fails(b)
            && site::update_wordpress_comes_to(state, site_id, run_of(b)),
        Operation::ListPlugins { site_id } => task_on_site(
            state,
            site_id,
            b,
            FlowView::Plugins,
            None,
            |container: Seq<char>| wordpress::spec_list_plugins(container),
        ),
        Operation::ListThemes { site_id } => task_on_site(
            state,
            site_id,
            b,
            FlowView::Themes,
            None,
            |container: Seq<char>| wordpress::spec_list_themes(container),
        ),
        Operation::ListWpUsers { site_id } => task_on_site(
            state,
            site_id,
            b,
            FlowView::Users,
            None,
            |container: Seq<char>| wordpress::spec_list_wp_users(container),
        ),
        Operation::ListCronEvents { site_id } => task_on_site(
            state,
            site_id,
            b,
            FlowView::CronEvents,
            None,
            |container: Seq<char>| wordpress::spec_list_cron_events(container),
        ),
        Operation::CoreCheckUpdate { site_id } => runs_or_fails(b) && core_check_comes_to(
            state,
            site_id,
            run_of(b),
        ),
        Operation::PluginAction { site_id, slug, action } => task_on_site(
            state,
            site_id,
            b,
            FlowView::Steps(ChangeView::Keep),
            wordpress::slug_error(slug@),
            |container: Seq<char>| wordpress::item_task(container, "plugin"@, slug@, action),
        ),
        Operation::ThemeAction { site_id, slug, action } => task_on_site(
            state,
            site_id,
            b,
            FlowView::Steps(ChangeView::Keep),
            wordpress::slug_error(slug@),
            |container: Seq<char>| wordpress::item_task(container, "theme"@, slug@, action),
        ),
        Operation::UpdateAllPlugins { site_id } => task_on_site(
            state,
            site_id,
            b,
            FlowView::Steps(ChangeView::Keep),
            None,
            |container: Seq<char>| wordpress::spec_update_all_plugins(container),
        ),
        Operation::ResetWpPassword { site_id, user_login } => task_on_site(
            state,
            site_id,
            b,
            FlowView::Password { user_login: user_login@, password: fresh.wp_password@ },
            None,
            |container: Seq<char>|
                wordpress::spec_reset_wp_password(
                    container,
                    user_login@,
                    fresh.wp_password@,
                ),
        ),
        Operation::RunCronEvent { site_id, hook } => task_on_site(
            state,
            site_id,
            b,
            FlowView::Steps(ChangeView::Keep),
            wordpress::hook_error(hook@),
            |container: Seq<char>| wordpress::hook_task(container, hook@),
        ),
        Operation::SetWpCron { site_id, mode } => task_on_site(
            state,
            site_id,
            b,
            FlowView::Steps(ChangeView::Keep),
            None,
            |container: Seq<char>| wordpress::spec_set_wp_cron(container, mode),
        ),
        Operation::PurgeUrls { site_id, urls } => runs_or_fails(b) && purge_comes_to(
            state,
            site_id,
            text::texts(urls@),
            run_of(b),
        ),
        Operation::CreateBackup { site_id, scope, target, retention } => runs_or_fails(b)
            && site::backup_comes_to(state, site_id, scope, target@, run_of(b)),
        Operation::RestoreBackup { site_id, snapshot_id, scope, target } => runs_or_fails(b)
            && site::restore_comes_to(state, site_id, snapshot_id@, scope, target@, run_of(b)),
        Operation::ListBackups { site_id, target } => backups_comes_to(
            state,
            site_id,
            target@,
            b,
        ),
        Operation::InitBackupRepo { target } => b matches Begun::Run(o) && o@ == flow::fresh(
            FlowView::Steps(ChangeView::Keep),
            seq![plan::silent(backup::spec_init(target@))],
        ),
        Operation::InspectImportSource { source } => if state.config.dry_run {
            b matches Begun::Answer(a) && a.is_ok(Seq::empty()) && tells(
                a.data,
                import::demo_inspection(),
            )
        } else {
            b matches Begun::Run(o) && o@ == import::spec_inspect(source, fresh)
        },
        Operation::ImportSite(request) => if request.resync && !state.store@.contains_key(
            request.site_id,
        ) {
            b matches Begun::Answer(a) && a.is_err(store::unmanaged(request.site_id))
        } else if state.config.dry_run {
            b matches Begun::Answer(a) && a.is_ok(Seq::empty()) && a.data is Empty
        } else {
            b matches Begun::Run(o) && o@ == import::spec_import(state, request, fresh)
        },
        Operation::TailLogs { site_id, stream, lines, grep } => runs_or_fails(b)
            && site::tail_logs_comes_to(
            state,
            site_id,
            stream,
            lines,
            text::text_opt(grep),
            run_of(b),
        ),
    }
}

/// Asking whether WordPress can be updated: its version, then what is offered.
pub open spec fn core_check_comes_to(
    state: AgentState,
    site_id: i64,
    r: Result<OperationRun, Error>,
) -> bool {
    site::on_site(state, site_id, r, |site: RecordView|
        flow::fresh(
            FlowView::CoreUpdate,
            seq![
                plan::silent(seq![wordpress::spec_version(site.container())]),
                plan::silent(seq![wordpress::spec_check_update(site.container())]),
            ],
        ))
}

/// Purging URLs of a site.
pub open spec fn purge_comes_to(
    state: AgentState,
    site_id: i64,
    urls: Seq<Seq<char>>,
    r: Result<OperationRun, Error>,
) -> bool {
    site::on_site(state, site_id, r, |site: RecordView|
        flow::fresh(
            FlowView::Steps(ChangeView::Keep),
            wordpress::spec_purge_urls(site, urls),
        ))
}

/// Asking for the backups of a site. One that the agent does not know has none.
pub open spec fn backups_comes_to(
    state: AgentState,
    site_id: i64,
    target: protocol::ResticTargetView,
    b: Begun,
) -> bool {
    if state.store@.contains_key(site_id) {
        let site = state.store@[site_id];
        b matches Begun::Run(o) && o@ == flow::fresh(
            FlowView::Backups { record: site, repo: target.repo },
            seq![plan::silent(backup::spec_list(site, target))],
        )
    } else {
        b matches Begun::Answer(a) && a.is_ok(Seq::empty()) && (a.data matches OperationData::Backups {
            backups,
        } && backups@.len() == 0)
    }
}

/// The data tell of an inspection.
pub open spec fn tells(data: OperationData, i: InspectionView) -> bool {
    data matches OperationData::ImportInspection {
        wp_version,
        php_version,
        size_mb,
        db_name,
        db_user,
    } && wp_version@ == i.wp_version && php_version@ == i.php_version && size_mb == i.size_mb
        && text::text_opt(db_name) == i.db_name && text::text_opt(db_user) == i.db_user
}

/// The answer that tells of an inspection.
fn tell(i: Inspection) -> (d: OperationData)
    ensures
        tells(d, i@),
{
    OperationData::ImportInspection {
        wp_version: i.wp_version,
        php_version: i.php_version,
        size_mb: i.size_mb,
        db_name: i.db_name,
        db_user: i.db_user,
    }
}

/// The plan of a purge.
fn begin_purge(state: &AgentState, site_id: i64, urls: &Vec<String>) -> (r: Result<
    OperationRun,
    Error,
>)
    ensures
        purge_comes_to(*state, site_id, text::texts(urls@), r),
{
    let site = match state.store.get(site_id) {
        Ok(site) => site,
        Err(e) => return Err(e),
    };
    Ok(flow::begin(Flow::Steps(StoreChange::Keep), wordpress::purge_urls(&site, urls)))
}

/// The plan of a check for updates.
fn begin_core_check(state: &AgentState, site_id: i64) -> (r: Result<OperationRun, Error>)
    ensures
        core_check_comes_to(*state, site_id, r),
{
    let site = match state.store.get(site_id) {
        Ok(site) => site,
        Err(e) => return Err(e),
    };
    let container = site.container_name();
    let mut list = plan::no_stages();
    let mut tasks = plan::no_tasks();
    plan::push_task(&mut tasks, wordpress::version(container.as_str()));
    plan::push_stage(&mut list, plan::silent_stage(tasks));
    let mut tasks = plan::no_tasks();
    plan::push_task(&mut tasks, wordpress::check_update(container.as_str()));
    plan::push_stage(&mut list, plan::silent_stage(tasks));
    assert(plan::stages(list@) =~= seq![
        plan::silent(seq![wordpress::spec_version(site@.container())]),
        plan::silent(seq![wordpress::spec_check_update(site@.container())]),
    ]);
    Ok(flow::begin(Flow::CoreUpdate, list))
}

/// The beginning of a listing of backups.
fn begin_backups(state: &AgentState, site_id: i64, target: &protocol::ResticTarget) -> (b: Begun)
    ensures
        backups_comes_to(*state, site_id, target@, b),
{
    let site = match state.store.get(site_id) {
        Ok(site) => site,
        Err(_) => {
            let backups: Vec<Backup> = Vec::new();
            return Begun::Answer(OperationResult::ok(OperationData::Backups { backups }));
        },
    };
    let mut list = plan::no_stages();
    plan::push_stage(&mut list, plan::silent_stage(backup::list(&site, target)));
    Begun::Run(flow::begin(Flow::Backups { record: site, repo: target.repo.clone() }, list))
}

/// A task for the container of a site, or the reason why there is none.
fn on_container(
    state: &AgentState,
    site_id: i64,
    f: Flow,
    kind: ContainerTask<'_>,
) -> (b: Begun)
    ensures
        runs_or_fails(b) && site::on_site_unless(
            *state,
            site_id,
            run_of(b),
            |site: RecordView| kind.spec_check(),
            |site: RecordView| single(f@, kind.spec_task(site.container())),
        ),
{
    let site = match state.store.get(site_id) {
        Ok(site) => site,
        Err(e) => return settle(Err(e)),
    };
    match kind.build(&site) {
        Ok(task) => settle(Ok(begin_single(f, task))),
        Err(e) => settle(Err(e)),
    }
}

/// The tasks that run in the container of a site.
enum ContainerTask<'a> {
    Cli(&'a Vec<String>),
    Plugins,
    Themes,
    Users,
    CronEvents,
    Plugin(&'a str, WpItemAction),
    Theme(&'a str, WpItemAction),
    UpdatePlugins,
    Password(&'a str, &'a str),
    Hook(&'a str),
    Cron(CronMode),
}

impl<'a> ContainerTask<'a> {
    /// Why the task is refused, if it is.
    spec fn spec_check(self) -> Option<ErrorView> {
        match self {
            ContainerTask::Cli(args) => wordpress::refusal(text::texts(args@)),
            ContainerTask::Plugin(slug, _) => wordpress::slug_error(slug@),
            ContainerTask::Theme(slug, _) => wordpress::slug_error(slug@),
            ContainerTask::Hook(hook) => wordpress::hook_error(hook@),
            _ => None,
        }
    }

    /// The task in a container.
    spec fn spec_task(self, container: Seq<char>) -> TaskView {
        match self {
            ContainerTask::Cli(args) => wordpress::wp(container, text::texts(args@)),
            ContainerTask::Plugins => wordpress::spec_list_plugins(container),
            ContainerTask::Themes => wordpress::spec_list_themes(container),
            ContainerTask::Users => wordpress::spec_list_wp_users(container),
            ContainerTask::CronEvents => wordpress::spec_list_cron_events(container),
            ContainerTask::Plugin(slug, action) => wordpress::item_task(
                container,
                "plugin"@,
                slug@,
                action,
            ),
            ContainerTask::Theme(slug, action) => wordpress::item_task(
                container,
                "theme"@,
                slug@,
                action,
            ),
            ContainerTask::UpdatePlugins => wordpress::spec_update_all_plugins(container),
            ContainerTask::Password(login, password) => wordpress::spec_reset_wp_password(
                container,
                login@,
                password@,
            ),
            ContainerTask::Hook(hook) => wordpress::hook_task(container, hook@),
            ContainerTask::Cron(mode) => wordpress::spec_set_wp_cron(container, mode),
        }
    }

    /// Executable form of the two.
    fn build(&self, site: &SiteRecord) -> (r: Result<Task, Error>)
        ensures
            match r {
                Ok(t) => self.spec_check() is None && t@ == self.spec_task(site@.container()),
                Err(e) => self.spec_check() == Some(e@),
            },
    {
        let container = site.container_name();
        let container = container.as_str();
        match self {
            ContainerTask::Cli(args) => wordpress::passthrough(site, args),
            ContainerTask::Plugins => Ok(wordpress::list_plugins(container)),
            ContainerTask::Themes => Ok(wordpress::list_themes(container)),
            ContainerTask::Users => Ok(wordpress::list_wp_users(container)),
            ContainerTask::CronEvents => Ok(wordpress::list_cron_events(container)),
            ContainerTask::Plugin(slug, action) => wordpress::plugin_action(
                container,
                slug,
                *action,
            ),
            ContainerTask::Theme(slug, action) => wordpress::theme_action(
                container,
                slug,
                *action,
            ),
            ContainerTask::UpdatePlugins => Ok(wordpress::update_all_plugins(container)),
            ContainerTask::Password(login, password) => Ok(
                wordpress::reset_wp_password(container, login, password),
            ),
            ContainerTask::Hook(hook) => wordpress::run_cron_event(container, hook),
            ContainerTask::Cron(mode) => Ok(wordpress::set_wp_cron(container, *mode)),
        }
    }
}

/// A WP-CLI command that the panel asks for is begun only where its subcommand is on
/// the list and none of its arguments holds a character that means something to a
/// shell.
pub proof fn law_only_listed_commands_run(
    state: AgentState,
    site_id: i64,
    args: Vec<String>,
    fresh: Fresh,
    b: Begun,
)
    requires
        begins(state, Operation::WpCli { site_id, args }, fresh, b),
        b is Run,
    ensures
        args@.len() > 0,
        wordpress::allowed(args@[0]@),
        forall|i: int| 0 <= i < args@.len() ==> !wordpress::has_meta(#[trigger] args@[i]@),
{
    let all = text::texts(args@);
    assert(wordpress::refusal(all) is None);
    assert(all[0] == args@[0]@);
    assert forall|i: int| 0 <= i < args@.len() implies !wordpress::has_meta(
        #[trigger] args@[i]@,
    ) by {
        assert(all[i] == args@[i]@);
    }
}

/// An operation gives a UID to a new site.
pub open spec fn draws_uid(state: AgentState, operation: Operation) -> bool {
    match operation {
        Operation::CreateSite(_) => true,
        Operation::CloneSite(request) => site::copies(state, request),
        Operation::ImportSite(request) => import::draws_uid(state, request),
        _ => false,
    }
}

/// Executable form of [`draws_uid`].
pub fn needs_uid(state: &AgentState, operation: &Operation) -> (r: bool)
    ensures
        r == draws_uid(*state, *operation),
{
    match operation {
        Operation::CreateSite(_) => true,
        Operation::CloneSite(request) => match state.store.get(request.source_site_id) {
            Ok(source) => !text::same(source.domain.as_str(), request.target_domain.as_str()),
            Err(_) => false,
        },
        Operation::ImportSite(request) => !request.resync && !state.config.dry_run,
        _ => false,
    }
}

/// Begins an operation.
#[verifier::rlimit(40)]
pub fn dispatch(state: &AgentState, operation: Operation, fresh: &Fresh) -> (b: Begun)
    requires
        draws_uid(*state, operation) ==> state.has_room(),
    ensures
        begins(*state, operation, *fresh, b),
{
    match operation {
        Operation::Ping => Begun::Answer(
            OperationResult::ok(
                OperationData::Pong {
                    agent_version: metrics::AGENT_VERSION.to_owned(),
                    protocol_version: PROTOCOL_VERSION,
                },
            ),
        ),
        Operation::GetServerMetrics => Begun::ServerMetrics,
        Operation::GetSiteMetrics { site_ids } => Begun::SiteMetrics(site_ids),
        Operation::CreateSite(request) => Begun::Run(site::create(state, request, fresh)),
        Operation::CloneSite(request) => settle(site::clone(state, request, fresh)),
        Operation::DeleteSite { site_id, keep_backups } => settle(
            site::delete(state, site_id, keep_backups),
        ),
        Operation::StartSite { site_id } => settle(site::start(state, site_id)),
        Operation::StopSite { site_id } => settle(site::stop(state, site_id)),
        Operation::RestartSite { site_id } => settle(site::restart(state, site_id)),
        Operation::GetSiteStatus { site_id } => settle(site::status(state, site_id)),
        Operation::SwitchPhp { site_id, version } => settle(
            site::switch_php(state, site_id, version),
        ),
        Operation::SetLimits { site_id, limits } => settle(
            site::set_limits(state, site_id, limits),
        ),
        Operation::AddDomain { site_id, domain } => settle(
            site::add_domain(state, site_id, domain),
        ),
        Operation::RemoveDomain { site_id, domain } => settle(
            site::remove_domain(state, site_id, domain),
        ),
        Operation::IssueCertificate { site_id, domains } => settle(
            site::issue_certificate(state, site_id, domains),
        ),
        Operation::RenewCertificate { site_id } => settle(
            site::renew_certificate(state, site_id),
        ),
        Operation::SetCache { site_id, settings } => settle(
            site::set_cache(state, site_id, settings),
        ),
        Operation::ClearCache { site_id } => settle(site::clear_cache(state, site_id)),
        Operation::WpCli { site_id, args } => on_container(
            state,
            site_id,
            Flow::Output,
            ContainerTask::Cli(&args),
        ),
        Operation::InstallWordpress(request) => settle(
            site::install_wordpress(state, request, fresh),
        ),
        Operation::UpdateWordpress { site_id } => settle(site::update_wordpress(state, site_id)),
        Operation::ListPlugins { site_id } => on_container(
            state,
            site_id,
            Flow::Plugins,
            ContainerTask::Plugins,
        ),
        Operation::ListThemes { site_id } => on_container(
            state,
            site_id,
            Flow::Themes,
            ContainerTask::Themes,
        ),
        Operation::ListWpUsers { site_id } => on_container(
            state,
            site_id,
            Flow::Users,
            ContainerTask::Users,
        ),
        Operation::ListCronEvents { site_id } => on_container(
            state,
            site_id,
            Flow::CronEvents,
            ContainerTask::CronEvents,
        ),
        Operation::CoreCheckUpdate { site_id } => settle(begin_core_check(state, site_id)),
        Operation::PluginAction { site_id, slug, action } => on_container(
            state,
            site_id,
            Flow::Steps(StoreChange::Keep),
            ContainerTask::Plugin(slug.as_str(), action),
        ),
        Operation::ThemeAction { site_id, slug, action } => on_container(
            state,
            site_id,
            Flow::Steps(StoreChange::Keep),
            ContainerTask::Theme(slug.as_str(), action),
        ),
        Operation::UpdateAllPlugins { site_id } => on_container(
            state,
            site_id,
            Flow::Steps(StoreChange::Keep),
            ContainerTask::UpdatePlugins,
        ),
        Operation::ResetWpPassword { site_id, user_login } => on_container(
            state,
            site_id,
            Flow::Password {
                user_login: user_login.clone(),
                password: fresh.wp_password.clone(),
            },
            ContainerTask::Password(user_login.as_str(), fresh.wp_password.as_str()),
        ),
        Operation::RunCronEvent { site_id, hook } => on_container(
            state,
            site_id,
            Flow::Steps(StoreChange::Keep),
            ContainerTask::Hook(hook.as_str()),
        ),
        Operation::SetWpCron { site_id, mode } => on_container(
            state,
            site_id,
            Flow::Steps(StoreChange::Keep),
            ContainerTask::Cron(mode),
        ),
        Operation::PurgeUrls { site_id, urls } => settle(begin_purge(state, site_id, &urls)),
        Operation::CreateBackup { site_id, scope, target, retention: _ } => settle(
            site::backup(state, site_id, scope, target),
        ),
        Operation::RestoreBackup { site_id, snapshot_id, scope, target } => settle(
            site::restore(state, site_id, snapshot_id.as_str(), scope, target),
        ),
        Operation::ListBackups { site_id, target } => begin_backups(state, site_id, &target),
        Operation::InitBackupRepo { target } => {
            let mut list = plan::no_stages();
            plan::push_stage(&mut list, plan::silent_stage(backup::init(&target)));
            Begun::Run(flow::begin(Flow::Steps(StoreChange::Keep), list))
        },
        Operation::InspectImportSource { source } => match import::inspect(
            &state.config,
            &source,
            fresh,
        ) {
            Inspecting::Shown(i) => Begun::Answer(OperationResult::ok(tell(i))),
            Inspecting::Run(o) => Begun::Run(o),
        },
        Operation::ImportSite(request) => match import::import(state, request, fresh) {
            Err(e) => Begun::Answer(OperationResult::err(e)),
            Ok(Importing::Nothing) => Begun::Answer(OperationResult::ok(OperationData::Empty)),
            Ok(Importing::Run(o)) => Begun::Run(o),
        },
        Operation::TailLogs { site_id, stream, lines, grep } => settle(
            site::tail_logs(state, site_id, stream, lines, grep),
        ),
    }
}

// ---------------------------------------------------------------------------
// Ending
// ---------------------------------------------------------------------------

/// What is to be read out of a JSON document.
pub enum Decode {
    Plugins,
    Themes,
    CronEvents,
    /// The snapshots of a site, which lie in a repository.
    Backups { record: SiteRecord, repo: String },
}

/// What follows once a plan was walked through.
pub enum Conclusion {
    /// The operation is over.
    Answer { result: OperationResult, change: StoreChange },
    /// Another plan follows.
    Continue(OperationRun),
    /// A document is to be read; [`decoded`] follows.
    Decode { what: Decode, text: String, steps: Vec<StepReport> },
}

/// The operation is over and has failed; nothing is remembered of it.
pub open spec fn refused(c: Conclusion, e: ErrorView) -> bool {
    c matches Conclusion::Answer { result, change } && result.is_err(e) && change@ is Keep
}

/// The operation is over and has succeeded.
pub open spec fn answers(c: Conclusion, steps: Seq<StepReportView>, to: ChangeView) -> bool {
    c matches Conclusion::Answer { result, change } && result.is_ok(steps) && change@ == to
}

/// What the answer carries.
pub open spec fn carried(c: Conclusion) -> OperationData {
    c->result.data
}

/// Another plan follows, after the steps that were taken already.
pub open spec fn goes_on(c: Conclusion, run: RunView, f: FlowView, list: Seq<StageView>) -> bool {
    c matches Conclusion::Continue(next) && next@ == (RunView {
        flow: f,
        runner: RunnerView::resume(list, run.runner.reports),
        temp_files: run.temp_files,
    })
}

/// What a stage printed, or nothing.
pub open spec fn printed(r: RunnerView, i: int) -> OutputView {
    match r.output(i) {
        Some(out) => out,
        None => OutputView::silent(),
    }
}

/// The last stage found the container running.
pub open spec fn found_running(r: RunnerView) -> bool {
    docker::is_running(printed(r, r.plan.len() - 1))
}

/// A record once its container was started and looked at.
pub open spec fn settled(record: RecordView, container_id: Seq<char>, running: bool) -> RecordView {
    RecordView {
        container_id: Some(container_id),
        status: if running {
            SiteStatus::Online
        } else {
            SiteStatus::Failed
        },
        ..record
    }
}

/// The id of the container of a site that a stage started.
pub open spec fn started_id(record: RecordView, r: RunnerView, stage: int) -> Seq<char> {
    docker::spec_container_id(
        docker::spec_container_name(record.domain, record.php_version),
        r.output(stage),
    )
}

/// The data tell that a site was created.
pub open spec fn tells_created(data: OperationData, record: RecordView, id: Seq<char>) -> bool {
    data matches OperationData::SiteCreated { site_id, container_id, uid, db_name } && site_id
        == record.site_id && container_id@ == id && uid == record.uid && db_name@
        == record.db_name
}

/// The data tell the state of a site.
pub open spec fn tells_status(
    data: OperationData,
    site_id: i64,
    status: SiteStatus,
    php_version: PhpVersion,
    version: Option<Seq<char>>,
    mb: nat,
) -> bool {
    data matches OperationData::SiteStatus {
        site_id: id,
        status: state,
        php_version: php,
        wp_version,
        disk_usage_mb,
    } && id == site_id && state == status && php == php_version && text::text_opt(wp_version)
        == version && disk_usage_mb == mb
}

/// The version that a stage printed; nothing where it failed.
pub open spec fn version_at(r: RunnerView, stage: int) -> Option<Seq<char>> {
    match r.output(stage) {
        Some(out) => Some(plan::version_of(out)),
        None => None,
    }
}

/// What [`conclude`] makes of a plan that was walked through.
pub open spec fn concludes(state: AgentState, run: RunView, now: UtcTime, c: Conclusion) -> bool {
    let r = run.runner;
    match r.error {
        Some(e) => refused(c, e),
        None => match run.flow {
            FlowView::Steps(change) => answers(c, r.reports, change) && carried(c) is Empty,
            FlowView::Started { record } => answers(
                c,
                r.reports,
                ChangeView::Put(settled(record, started_id(record, r, 0), found_running(r))),
            ) && carried(c) is Empty,
            FlowView::Created { record, container_stage, remember } => {
                let id = started_id(record, r, container_stage);
                answers(
                    c,
                    r.reports,
                    ChangeView::Put(
                        if remember {
                            settled(record, id, found_running(r))
                        } else {
                            record
                        },
                    ),
                ) && tells_created(carried(c), record, id)
            },
            FlowView::Imported { record, container_stage } => answers(
                c,
                r.reports,
                ChangeView::Put(
                    settled(record, started_id(record, r, container_stage), found_running(r)),
                ),
            ) && carried(c) is Empty,
            FlowView::Status { record } => answers(c, r.reports, ChangeView::Keep)
                && tells_status(
                carried(c),
                record.site_id,
                if docker::is_running(printed(r, 0)) {
                    SiteStatus::Online
                } else {
                    SiteStatus::Stopped
                },
                record.php_version,
                version_at(r, 1),
                filesystem::leading_number(printed(r, 2).stdout),
            ),
            FlowView::CloneFrom { source, target, staging, search_replace, password } =>
                match wpconfig::spec_read_db_config(state.config, source, r.output(0)) {
                    Err(e) => refused(c, e),
                    Ok(db) => goes_on(
                        c,
                        run,
                        FlowView::Created { record: target, container_stage: 6, remember: false },
                        site::clone_plan(
                            state.config,
                            state.web,
                            source,
                            db,
                            target,
                            staging,
                            search_replace,
                            password,
                        ),
                    ),
                },
            FlowView::SwitchCheck { record, version } => {
                let next = site::spec_after_switch_check(
                    state.web,
                    record,
                    version,
                    r.output(1),
                    r.output(2),
                );
                goes_on(c, run, next.0, next.1)
            },
            FlowView::Undone(e) => refused(c, e),
            FlowView::Certificate { domains } => answers(c, r.reports, ChangeView::Keep) && (
            carried(c) matches OperationData::Certificate { domains: list, expires_at }
                && text::texts(list@) == domains && expires_at.secs == now.secs
                + ssl::VALIDITY_SECS && expires_at.nanos == now.nanos),
            FlowView::Version { site_id, php_version, stage } => answers(
                c,
                r.reports,
                ChangeView::Keep,
            ) && tells_status(
                carried(c),
                site_id,
                SiteStatus::Online,
                php_version,
                Some(plan::version_of(printed(r, stage))),
                0,
            ),
            FlowView::Snapshot { scope } => {
                let made = backup::snapshot_of(
                    backup::summary_in(text::lines(printed(r, 0).stdout)),
                    scope,
                );
                answers(c, r.reports, ChangeView::Keep) && (
                carried(c) matches OperationData::Backup {
                    snapshot_id,
                    size_bytes,
                    files_bytes,
                    db_bytes,
                } && snapshot_id@ == made.id && size_bytes == made.size_bytes && files_bytes
                    == made.files_bytes && db_bytes == made.db_bytes)
            },
            FlowView::Backups { record, repo } => if printed(r, 0).skipped {
                answers(c, r.reports, ChangeView::Keep) && (
                carried(c) matches OperationData::Backups { backups } && backups@.len() == 0)
            } else {
                c matches Conclusion::Decode { what, text, steps } && (
                what matches Decode::Backups { record: of, repo: in_repo } && of@ == record
                    && in_repo@ == repo) && text@ == printed(r, 0).trimmed()
                    && protocol::reports(steps@) == r.reports
            },
            FlowView::Output => answers(c, r.reports, ChangeView::Keep) && (
            carried(c) matches OperationData::CommandOutput { stdout, stderr, exit_code }
                && stdout@ == printed(r, 0).stdout && stderr@ == printed(r, 0).stderr && exit_code
                == printed(r, 0).exit_code),
            FlowView::Lines => answers(c, r.reports, ChangeView::Keep) && (
            carried(c) matches OperationData::Lines { lines } && text::texts(lines@)
                == text::lines(printed(r, 0).stdout)),
            FlowView::Plugins => if printed(r, 0).skipped {
                answers(c, r.reports, ChangeView::Keep) && (
                carried(c) matches OperationData::Plugins { plugins } && wordpress::plugins(
                    plugins@,
                ) == wordpress::shown_plugins())
            } else {
                asks(c, r) && c->what is Plugins
            },
            FlowView::Themes => if printed(r, 0).skipped {
                answers(c, r.reports, ChangeView::Keep) && (
                carried(c) matches OperationData::Themes { themes } && wordpress::themes(
                    themes@,
                ) == wordpress::shown_themes())
            } else {
                asks(c, r) && c->what is Themes
            },
            FlowView::Users => match wordpress::users_in(printed(r, 0)) {
                Err(e) => refused(c, e),
                Ok(list) => answers(c, r.reports, ChangeView::Keep) && (
                carried(c) matches OperationData::WpUsers { users } && wordpress::users(users@)
                    == list),
            },
            FlowView::CronEvents => if printed(r, 0).skipped {
                answers(c, r.reports, ChangeView::Keep) && (
                carried(c) matches OperationData::CronEvents { events } && events@.len() == 0)
            } else {
                asks(c, r) && c->what is CronEvents
            },
            FlowView::CoreUpdate => match wordpress::latest_in(printed(r, 1)) {
                Err(e) => refused(c, e),
                Ok(offer) => answers(c, r.reports, ChangeView::Keep) && (
                carried(c) matches OperationData::CoreUpdate { current, latest } && current@
                    == plan::version_of(printed(r, 0)) && text::text_opt(latest) == offer),
            },
            FlowView::Password { user_login, password } => answers(
                c,
                r.reports,
                ChangeView::Keep,
            ) && (carried(c) matches OperationData::GeneratedPassword {
                user_login: login,
                password: secret,
            } && login@ == user_login && secret@ == password),
            FlowView::Inspect { with_key, with_db } => answers(c, r.reports, ChangeView::Keep)
                && tells(carried(c), import::inspected(r, with_key, with_db)),
            FlowView::Dumped {
                record,
                remote_db,
                resync,
                password,
                dump_path,
                dump_stage,
            } => goes_on(
                c,
                run,
                FlowView::Imported { record, container_stage: import::settle_start(resync) },
                import::settle_plan(
                    state.config,
                    state.web,
                    record,
                    remote_db,
                    resync,
                    password,
                    dump_path,
                    import::stdout_of(r.output(dump_stage)),
                ),
            ),
        },
    }
}

/// What the first stage printed is to be read.
pub open spec fn asks(c: Conclusion, r: RunnerView) -> bool {
    c matches Conclusion::Decode { what, text, steps } && text@ == printed(r, 0).trimmed()
        && protocol::reports(steps@) == r.reports
}

/// The end of an operation that failed.
fn refuse(e: Error) -> (c: Conclusion)
    ensures
        refused(c, e@),
{
    Conclusion::Answer { result: OperationResult::err(e), change: StoreChange::Keep }
}

/// The end of an operation.
fn answer(runner: Runner, data: OperationData, change: StoreChange) -> (c: Conclusion)
    ensures
        match runner@.error {
            Some(e) => refused(c, e),
            None => answers(c, runner@.reports, change@) && carried(c) == data,
        },
{
    match runner.finish() {
        Err(e) => refuse(e),
        Ok(steps) => Conclusion::Answer {
            result: OperationResult::ok(data).with_steps(steps),
            change,
        },
    }
}

/// Goes on with another plan.
fn proceed(runner: Runner, temp_files: Vec<String>, f: Flow, list: Vec<Stage>) -> (c: Conclusion)
    ensures
        match runner@.error {
            Some(e) => refused(c, e),
            None => c matches Conclusion::Continue(next) && next@ == (RunView {
                flow: f@,
                runner: RunnerView::resume(plan::stages(list@), runner@.reports),
                temp_files: text::texts(temp_files@),
            }),
        },
{
    match runner.finish() {
        Err(e) => refuse(e),
        Ok(steps) => Conclusion::Continue(
            OperationRun { flow: f, runner: Runner::resume(list, steps), temp_files },
        ),
    }
}

/// Asks for a document to be read.
fn ask(runner: Runner, what: Decode, text: String) -> (c: Conclusion)
    ensures
        match runner@.error {
            Some(e) => refused(c, e),
            None => c matches Conclusion::Decode { what: w, text: t, steps } && w == what && t
                == text && protocol::reports(steps@) == runner@.reports,
        },
{
    match runner.finish() {
        Err(e) => refuse(e),
        Ok(steps) => Conclusion::Decode { what, text, steps },
    }
}

/// Executable form of [`printed`].
fn output_at(runner: &Runner, i: usize) -> (o: CommandOutput)
    ensures
        o@ == printed(runner@, i as int),
{
    match runner.output(i) {
        Some(out) => out.clone(),
        None => CommandOutput::default(),
    }
}

/// Executable form of [`found_running`].
fn is_found_running(runner: &Runner) -> (r: bool)
    ensures
        r == found_running(runner@),
{
    let n = runner.len();
    if n == 0 {
        return docker::running(&CommandOutput::default());
    }
    docker::running(&output_at(runner, n - 1))
}

/// Executable form of [`started_id`].
fn id_started(record: &SiteRecord, runner: &Runner, stage: usize) -> (s: String)
    ensures
        s@ == started_id(record@, runner@, stage as int),
{
    let name = docker::container_name(record.domain.as_str(), record.php_version);
    docker::container_id(name, runner.output(stage))
}

/// Executable form of [`settled`].
fn settle_record(record: SiteRecord, container_id: String, running: bool) -> (r: SiteRecord)
    ensures
        r@ == settled(record@, container_id@, running),
{
    let mut r = record;
    r.container_id = Some(container_id);
    r.status = if running {
        SiteStatus::Online
    } else {
        SiteStatus::Failed
    };
    r
}

/// Executable form of [`version_at`].
fn version_read(runner: &Runner, stage: usize) -> (v: Option<String>)
    ensures
        text::text_opt(v) == version_at(runner@, stage as int),
{
    match runner.output(stage) {
        Some(out) => Some(plan::version_text(out)),
        None => None,
    }
}

/// The lines of a text, each as a text.
fn line_texts(s: &str) -> (v: Vec<String>)
    ensures
        text::texts(v@) == text::lines(s@),
{
    let cs = text::chars_of(s);
    let rows = text::lines_of(cs.as_slice());
    let mut v = text::no_texts();
    let mut i: usize = 0;
    while i < rows.len()
        invariant
            i <= rows@.len(),
            text::texts(v@) =~= text::rows(rows@).take(i as int),
        decreases rows@.len() - i,
    {
        assert(text::rows(rows@)[i as int] == rows@[i as int]@);
        text::push_text(&mut v, text::string_of(rows[i].as_slice()));
        i += 1;
    }
    assert(text::texts(v@) =~= text::rows(rows@));
    v
}

/// Says what the end of a plan means.
#[verifier::rlimit(60)]
pub fn conclude(state: &AgentState, run: OperationRun, now: &UtcTime) -> (c: Conclusion)
    requires
        ssl::issuable(*now),
    ensures
        concludes(*state, run@, *now, c),
{
    let OperationRun { flow: f, runner, temp_files } = run;
    if runner.failed() {
        return answer(runner, OperationData::Empty, StoreChange::Keep);
    }
    match f {
        Flow::Steps(change) => answer(runner, OperationData::Empty, change),
        Flow::Started { record } => {
            let id = id_started(&record, &runner, 0);
            let next = settle_record(record, id, is_found_running(&runner));
            answer(runner, OperationData::Empty, StoreChange::Put(next))
        },
        Flow::Created { record, container_stage, remember } => {
            let id = id_started(&record, &runner, container_stage);
            let data = OperationData::SiteCreated {
                site_id: record.site_id,
                container_id: id.clone(),
                uid: record.uid,
                db_name: record.db_name.clone(),
            };
            let next = if remember {
                settle_record(record, id, is_found_running(&runner))
            } else {
                record
            };
            answer(runner, data, StoreChange::Put(next))
        },
        Flow::Imported { record, container_stage } => {
            let id = id_started(&record, &runner, container_stage);
            let next = settle_record(record, id, is_found_running(&runner));
            answer(runner, OperationData::Empty, StoreChange::Put(next))
        },
        Flow::Status { record } => {
            let running = docker::running(&output_at(&runner, 0));
            let wp_version = version_read(&runner, 1);
            let disk_usage_mb: u64 = filesystem::first_number(
                output_at(&runner, 2).stdout.as_str(),
            );
            let data = OperationData::SiteStatus {
                site_id: record.site_id,
                status: if running {
                    SiteStatus::Online
                } else {
                    SiteStatus::Stopped
                },
                php_version: record.php_version,
                wp_version,
                disk_usage_mb,
            };
            answer(runner, data, StoreChange::Keep)
        },
        Flow::CloneFrom { source, target, staging, search_replace, password } =>
            match wpconfig::read_db_config(&state.config, &source, runner.output(0)) {
                Err(e) => refuse(e),
                Ok(db) => {
                    let list = site::build_clone(
                        &state.config,
                        &state.web,
                        &source,
                        &db,
                        &target,
                        staging,
                        search_replace,
                        password.as_str(),
                    );
                    let next = Flow::Created {
                        record: target,
                        container_stage: 6,
                        remember: false,
                    };
                    proceed(runner, temp_files, next, list)
                },
            },
        Flow::SwitchCheck { record, version } => {
            let (next, list) = site::after_switch_check(
                &state.web,
                record,
                version,
                runner.output(1),
                runner.output(2),
            );
            proceed(runner, temp_files, next, list)
        },
        Flow::Undone(e) => refuse(e),
        Flow::Certificate { domains } => answer(
            runner,
            OperationData::Certificate { domains, expires_at: ssl::expiry(now) },
            StoreChange::Keep,
        ),
        Flow::Version { site_id, php_version, stage } => {
            let version = plan::version_text(&output_at(&runner, stage));
            let data = OperationData::SiteStatus {
                site_id,
                status: SiteStatus::Online,
                php_version,
                wp_version: Some(version),
                disk_usage_mb: 0,
            };
            answer(runner, data, StoreChange::Keep)
        },
        Flow::Snapshot { scope } => {
            let summary = backup::find_summary(output_at(&runner, 0).stdout.as_str());
            let made = backup::read_snapshot(&summary, scope);
            let data = OperationData::Backup {
                snapshot_id: made.id,
                size_bytes: made.size_bytes,
                files_bytes: made.files_bytes,
                db_bytes: made.db_bytes,
            };
            answer(runner, data, StoreChange::Keep)
        },
        Flow::Backups { record, repo } => {
            let out = output_at(&runner, 0);
            if out.skipped {
                let backups: Vec<Backup> = Vec::new();
                answer(runner, OperationData::Backups { backups }, StoreChange::Keep)
            } else {
                ask(runner, Decode::Backups { record, repo }, out.trimmed_stdout())
            }
        },
        Flow::Output => {
            let out = output_at(&runner, 0);
            let data = OperationData::CommandOutput {
                stdout: out.stdout,
                stderr: out.stderr,
                exit_code: out.exit_code,
            };
            answer(runner, data, StoreChange::Keep)
        },
        Flow::Lines => {
            let lines = line_texts(output_at(&runner, 0).stdout.as_str());
            answer(runner, OperationData::Lines { lines }, StoreChange::Keep)
        },
        Flow::Plugins => {
            let out = output_at(&runner, 0);
            if out.skipped {
                let plugins = wordpress::demo_plugins();
                answer(runner, OperationData::Plugins { plugins }, StoreChange::Keep)
            } else {
                ask(runner, Decode::Plugins, out.trimmed_stdout())
            }
        },
        Flow::Themes => {
            let out = output_at(&runner, 0);
            if out.skipped {
                let themes = wordpress::demo_themes();
                answer(runner, OperationData::Themes { themes }, StoreChange::Keep)
            } else {
                ask(runner, Decode::Themes, out.trimmed_stdout())
            }
        },
        Flow::Users => match wordpress::read_users(&output_at(&runner, 0)) {
            Err(e) => refuse(e),
            Ok(users) => answer(runner, OperationData::WpUsers { users }, StoreChange::Keep),
        },
        Flow::CronEvents => {
            let out = output_at(&runner, 0);
            if out.skipped {
                let events: Vec<CronEventInfo> = Vec::new();
                answer(runner, OperationData::CronEvents { events }, StoreChange::Keep)
            } else {
                ask(runner, Decode::CronEvents, out.trimmed_stdout())
            }
        },
        Flow::CoreUpdate => match wordpress::read_latest(&output_at(&runner, 1)) {
            Err(e) => refuse(e),
            Ok(latest) => {
                let current = plan::version_text(&output_at(&runner, 0));
                answer(runner, OperationData::CoreUpdate { current, latest }, StoreChange::Keep)
            },
        },
        Flow::Password { user_login, password } => answer(
            runner,
            OperationData::GeneratedPassword { user_login, password },
            StoreChange::Keep,
        ),
        Flow::Inspect { with_key, with_db } => {
            let i = import::read_inspection(&runner, with_key, with_db);
            answer(runner, tell(i), StoreChange::Keep)
        },
        Flow::Dumped {
            record,
            remote_db,
            resync,
            password,
            dump_path,
            dump_stage,
        } => {
            let dump = import::stdout_text(runner.output(dump_stage));
            let list = import::build_settle(
                &state.config,
                &state.web,
                &record,
                remote_db.as_str(),
                resync,
                password.as_str(),
                dump_path.as_str(),
                dump,
            );
            let container_stage: usize = if resync {
                2
            } else {
                3
            };
            proceed(runner, temp_files, Flow::Imported { record, container_stage }, list)
        },
    }
}

/// What was read out of a document.
pub enum Decoded {
    Plugins(Vec<PluginInfo>),
    Themes(Vec<ThemeInfo>),
    CronEvents(Vec<CronEventInfo>),
    Backups { record: SiteRecord, repo: String, snapshots: Vec<ResticSnapshot> },
    /// The document was not what it should be, for this reason.
    Wrong { what: Decode, reason: String },
}

/// What is said of a document that could not be read.
pub open spec fn unreadable(what: Decode, reason: Seq<char>) -> ErrorView {
    ErrorView::Internal(
        if what is Backups {
            "parsing restic snapshot list: "@ + reason
        } else {
            reason
        },
    )
}

/// The answer that carries what was read.
pub fn decoded(found: Decoded, steps: Vec<StepReport>, now: &UtcTime) -> (r: OperationResult)
    ensures
        match found {
            Decoded::Wrong { what, reason } => r.is_err(unreadable(what, reason@)),
            _ => r.is_ok(protocol::reports(steps@)),
        },
        match found {
            Decoded::Plugins(plugins) => r.data == (OperationData::Plugins { plugins }),
            Decoded::Themes(themes) => r.data == (OperationData::Themes { themes }),
            Decoded::CronEvents(events) => r.data == (OperationData::CronEvents { events }),
            Decoded::Backups { record, repo, snapshots } => r.data matches OperationData::Backups {
                backups,
            } && backup::backups(backups@) == backup::listing(record@, repo@, snapshots@, *now),
            Decoded::Wrong { what, reason } => true,
        },
{
    let data = match found {
        Decoded::Plugins(plugins) => OperationData::Plugins { plugins },
        Decoded::Themes(themes) => OperationData::Themes { themes },
        Decoded::CronEvents(events) => OperationData::CronEvents { events },
        Decoded::Backups { record, repo, snapshots } => OperationData::Backups {
            backups: backup::panel_backups(&record, repo.as_str(), &snapshots, now),
        },
        Decoded::Wrong { what, reason } => {
            let message = match what {
                Decode::Backups { .. } => text::cat2(
                    "parsing restic snapshot list: ",
                    reason.as_str(),
                ),
                _ => reason,
            };
            return OperationResult::err(Error::Internal(message));
        },
    };
    OperationResult::ok(data).with_steps(steps)
}

} // verus!
