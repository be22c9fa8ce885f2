//! Site lifecycle: the sequence the panel's `site.create` job depends on.

use vstd::prelude::*;
use crate::agent::config::Config;
use crate::agent::exec;
use crate::agent::exec::{CommandOutput, OutputView};
use crate::agent::ops::backup;
use crate::agent::ops::database;
use crate::agent::ops::docker;
use crate::agent::ops::filesystem;
use crate::agent::ops::flow;
use crate::agent::ops::flow::{ChangeView, Flow, FlowView, Fresh, OperationRun, RunView, StoreChange};
use crate::agent::ops::mu_plugin;
use crate::agent::ops::ssl;
use crate::agent::ops::webserver::WebServer;
use crate::agent::ops::wordpress;
use crate::agent::ops::wpconfig;
use crate::agent::ops::wpconfig::{DbConfig, DbConfigView};
use crate::agent::path;
use crate::agent::plan;
use crate::agent::plan::{ActionView, Note, NoteView, OnError, OnErrorView, Stage, StageView, Task, TaskView};
use crate::agent::state::AgentState;
use crate::agent::store;
use crate::agent::store::{RecordView, SiteRecord};
use crate::common::error::{Error, ErrorView};
use crate::common::models;
use crate::common::models::{
    BackupScope, CacheSettings, DatabaseMode, PhpVersion, ResourceLimits, RetentionPolicy,
    SiteStatus,
};
use crate::common::protocol::{
    CloneSite, CreateSite, InstallView, InstallWordpress, LogStream, ResticTarget,
    ResticTargetView,
};
use crate::digits;
use crate::text;

verus! {

// ---------------------------------------------------------------------------
// Common stages
// ---------------------------------------------------------------------------

/// Asks whether the container of a site runs.
pub open spec fn health_check(site: RecordView) -> StageView {
    plan::required("Health check"@, docker::spec_healthy(site.container()))
}

/// Executable form of [`health_check`].
pub fn health_stage(site: &SiteRecord) -> (s: Stage)
    ensures
        s@ == health_check(site@),
{
    let container = site.container_name();
    plan::required_stage("Health check", docker::healthy(container.as_str()))
}

/// The container of a site, as it is started for its PHP version.
pub open spec fn start_container(name: Seq<char>, config: Config, site: RecordView) -> StageView {
    plan::required(
        name,
        docker::docker(docker::start_args(config, site, site.php_version)),
    )
}

/// Executable form of [`start_container`].
pub fn start_stage(name: &str, config: &Config, site: &SiteRecord) -> (s: Stage)
    ensures
        s@ == start_container(name@, *config, site@),
{
    plan::required_stage(name, docker::start_php(config, site, site.php_version))
}

/// Appends a stage that writes the vhost of a site, and one that applies it.
pub open spec fn serve(
    list: Seq<StageView>,
    name: Seq<char>,
    web: WebServer,
    site: RecordView,
    ssl: bool,
) -> Seq<StageView> {
    list.push(plan::required(name, web.spec_write_site(site, ssl))).push(
        plan::required("Reload Nginx"@, web.spec_reload()),
    )
}

/// Executable form of [`serve`].
pub fn push_serve(list: &mut Vec<Stage>, name: &str, web: &WebServer, site: &SiteRecord, ssl: bool)
    ensures
        plan::stages(final(list)@) == serve(
            plan::stages(old(list)@),
            name@,
            *web,
            site@,
            ssl,
        ),
{
    plan::push_stage(list, plan::required_stage(name, web.write_site(site, ssl)));
    plan::push_stage(list, plan::required_stage("Reload Nginx", web.reload()));
}

// ---------------------------------------------------------------------------
// Creating
// ---------------------------------------------------------------------------

/// The record of a site that is about to be created.
pub open spec fn new_record(
    site_id: i64,
    domain: Seq<char>,
    uid: u32,
    php_version: PhpVersion,
    database_mode: DatabaseMode,
    limits: ResourceLimits,
    cache: CacheSettings,
) -> RecordView {
    RecordView {
        site_id,
        domain,
        uid,
        php_version,
        database_mode,
        limits,
        cache,
        status: SiteStatus::Provisioning,
        container_id: None,
        db_name: models::identifier_of(domain),
        domains: seq![domain],
    }
}

/// Executable form of [`new_record`].
pub fn make_record(
    site_id: i64,
    domain: &str,
    uid: u32,
    php_version: PhpVersion,
    database_mode: DatabaseMode,
    limits: ResourceLimits,
    cache: CacheSettings,
) -> (r: SiteRecord)
    ensures
        r@ == new_record(site_id, domain@, uid, php_version, database_mode, limits, cache),
{
    SiteRecord {
        site_id,
        domain: domain.to_owned(),
        uid,
        php_version,
        database_mode,
        limits,
        cache,
        status: SiteStatus::Provisioning,
        container_id: None,
        db_name: database::db_name(domain),
        domains: text::list1(domain),
    }
}

/// How WordPress is installed where the panel does not say.
pub open spec fn default_install(site_id: i64, domain: Seq<char>, password: Seq<char>) -> InstallView {
    InstallView {
        site_id,
        site_title: domain,
        admin_user: "admin"@,
        admin_email: "admin@"@ + domain,
        admin_password: password,
        locale: "en_US"@,
    }
}

/// The stages up to a running container.
pub open spec fn provision(config: Config, site: RecordView, password: Seq<char>) -> Seq<StageView> {
    seq![
        plan::required(
            "Allocate system user"@,
            filesystem::spec_ensure_user(site.domain, site.uid),
        ),
        plan::required(
            "Create filesystem layout"@,
            filesystem::spec_create_tree(config, site.domain, site.uid),
        ),
        plan::required("Create database"@, database::spec_create(config, site, password)),
        start_container("Start PHP-FPM container"@, config, site),
    ]
}

/// Installs WordPress and notes its version.
pub open spec fn install_stage(
    site: RecordView,
    password: Seq<char>,
    install: InstallView,
) -> StageView {
    StageView {
        note: NoteView::Version("WordPress installed"@),
        ..plan::required(
            "Install WordPress"@,
            wordpress::spec_install(site, database::credentials_of(site, password), install),
        )
    }
}

/// Asks for a certificate. A failed certificate must not fail the whole
/// provision: the site is already serving over HTTP and TLS can be retried.
pub open spec fn certificate_stage(config: Config, site: RecordView) -> StageView {
    StageView {
        on_error: OnErrorView::Skip { stages: 2, note: "Issue TLS certificate"@ },
        ..plan::silent(ssl::spec_issue(config, site.domains))
    }
}

/// Create user -> filesystem -> database -> container -> WordPress -> Nginx ->
/// cache -> TLS -> health check.
pub open spec fn create_plan(
    config: Config,
    web: WebServer,
    site: RecordView,
    password: Seq<char>,
    install: Option<InstallView>,
    request_ssl: bool,
) -> Seq<StageView> {
    let base = provision(config, site, password);
    let installed = match install {
        Some(i) => base.push(install_stage(site, password, i)),
        None => base,
    };
    let served = serve(installed, "Write Nginx vhost"@, web, site, false).push(
        plan::required("Write cache mu-plugin"@, mu_plugin::spec_write_mu_plugin(config, site)),
    );
    let secured = if request_ssl {
        serve(
            served.push(certificate_stage(config, site)),
            "Enable TLS vhost"@,
            web,
            site,
            true,
        )
    } else {
        served
    };
    secured.push(health_check(site))
}

/// What is installed on a new site.
pub open spec fn wanted_install(request: CreateSite, password: Seq<char>) -> Option<InstallView> {
    if request.install_wordpress {
        Some(
            match request.wordpress {
                Some(i) => i@,
                None => default_install(request.site_id, request.domain@, password),
            },
        )
    } else {
        None
    }
}

/// The record that a request to create a site leads to.
pub open spec fn requested_record(request: CreateSite, uid: u32) -> RecordView {
    new_record(
        request.site_id,
        request.domain@,
        uid,
        request.php_version,
        request.database_mode,
        request.limits,
        request.cache,
    )
}

/// The creation of a site: it gets the lowest free UID.
pub open spec fn spec_create(state: AgentState, request: CreateSite, fresh: Fresh) -> RunView {
    let site = requested_record(request, state.store.spec_next_uid(state.config.uid_base));
    flow::fresh(
        FlowView::Created { record: site, container_stage: 3, remember: true },
        create_plan(
            state.config,
            state.web,
            site,
            fresh.password@,
            wanted_install(request, fresh.other_password@),
            request.request_ssl,
        ),
    )
}

/// Appends the stages of [`provision`] to an empty plan.
fn build_provision(config: &Config, site: &SiteRecord, password: &str) -> (list: Vec<Stage>)
    ensures
        plan::stages(list@) == provision(*config, site@, password@),
{
    let domain = site.domain.as_str();
    let mut list = plan::no_stages();
    plan::push_stage(
        &mut list,
        plan::required_stage("Allocate system user", filesystem::ensure_user(domain, site.uid)),
    );
    plan::push_stage(
        &mut list,
        plan::required_stage(
            "Create filesystem layout",
            filesystem::create_tree(config, domain, site.uid),
        ),
    );
    plan::push_stage(
        &mut list,
        plan::required_stage("Create database", database::create(config, site, password)),
    );
    plan::push_stage(&mut list, start_stage("Start PHP-FPM container", config, site));
    list
}

/// Create user -> filesystem -> database -> container -> WordPress -> Nginx ->
/// cache -> TLS -> health check.
pub fn create(state: &AgentState, request: CreateSite, fresh: &Fresh) -> (r: OperationRun)
    requires
        state.has_room(),
    ensures
        r@ == spec_create(*state, request, *fresh),
        // The new site has a UID of its own.
        !state.store.uses(requested_record(
            request,
            state.store.spec_next_uid(state.config.uid_base),
        ).uid),
{
    let config = &state.config;
    let uid = state.store.next_uid(config.uid_base);
    let site = make_record(
        request.site_id,
        request.domain.as_str(),
        uid,
        request.php_version,
        request.database_mode,
        request.limits,
        request.cache,
    );
    let password = fresh.password.as_str();
    let mut list = build_provision(config, &site, password);
    if request.install_wordpress {
        let c = database::credentials(&site, password);
        let tasks = match &request.wordpress {
            Some(install) => wordpress::install(&site, &c, install),
            None => {
                let install = InstallWordpress {
                    site_id: request.site_id,
                    site_title: request.domain.clone(),
                    admin_user: "admin".to_owned(),
                    admin_email: text::cat2("admin@", request.domain.as_str()),
                    admin_password: fresh.other_password.clone(),
                    locale: "en_US".to_owned(),
                };
                wordpress::install(&site, &c, &install)
            },
        };
        let mut stage = plan::required_stage("Install WordPress", tasks);
        stage.note = Note::Version("WordPress installed".to_owned());
        plan::push_stage(&mut list, stage);
    }
    push_serve(&mut list, "Write Nginx vhost", &state.web, &site, false);
    plan::push_stage(
        &mut list,
        plan::required_stage("Write cache mu-plugin", mu_plugin::write_mu_plugin(config, &site)),
    );
    if request.request_ssl {
        let mut stage = plan::silent_stage(ssl::issue(config, &site.domains));
        stage.on_error = OnError::Skip { stages: 2, note: "Issue TLS certificate".to_owned() };
        plan::push_stage(&mut list, stage);
        push_serve(&mut list, "Enable TLS vhost", &state.web, &site, true);
    }
    plan::push_stage(&mut list, health_stage(&site));
    flow::begin(Flow::Created { record: site, container_stage: 3, remember: true }, list)
}

// ---------------------------------------------------------------------------
// Deleting, starting, stopping
// ---------------------------------------------------------------------------

/// Takes a site down: nothing is served before anything is removed.
pub open spec fn delete_plan(
    config: Config,
    web: WebServer,
    site: RecordView,
    keep_backups: bool,
) -> Seq<StageView> {
    seq![
        plan::required("Stop container"@, docker::spec_remove(site.container())),
        plan::required("Remove Nginx vhost"@, web.spec_remove_site(site.domain)),
        plan::required("Reload Nginx"@, web.spec_reload()),
        plan::required("Drop database"@, database::spec_drop(site)),
        plan::required(
            "Remove files"@,
            filesystem::spec_remove_tree(config, site.domain, keep_backups),
        ),
        plan::required("Release system user"@, filesystem::spec_remove_user(site.domain)),
    ]
}

/// What [`delete`] comes to.
pub open spec fn delete_comes_to(
    state: AgentState,
    site_id: i64,
    keep_backups: bool,
    r: Result<OperationRun, Error>,
) -> bool {
    on_site(state, site_id, r, |site: RecordView|
        flow::fresh(
            FlowView::Steps(ChangeView::Remove(site_id)),
            delete_plan(state.config, state.web, site, keep_backups),
        ))
}

pub fn delete(state: &AgentState, site_id: i64, keep_backups: bool) -> (r: Result<OperationRun, Error>)
    ensures
        delete_comes_to(*state, site_id, keep_backups, r),
{
    let site = match state.store.get(site_id) {
        Ok(site) => site,
        Err(e) => return Err(e),
    };
    let domain = site.domain.as_str();
    let container = site.container_name();
    let mut list = plan::no_stages();
    plan::push_stage(
        &mut list,
        plan::required_stage("Stop container", docker::remove(container.as_str())),
    );
    plan::push_stage(
        &mut list,
        plan::required_stage("Remove Nginx vhost", state.web.remove_site(domain)),
    );
    plan::push_stage(&mut list, plan::required_stage("Reload Nginx", state.web.reload()));
    plan::push_stage(&mut list, plan::required_stage("Drop database", database::drop(&site)));
    plan::push_stage(
        &mut list,
        plan::required_stage(
            "Remove files",
            filesystem::remove_tree(&state.config, domain, keep_backups),
        ),
    );
    plan::push_stage(
        &mut list,
        plan::required_stage("Release system user", filesystem::remove_user(domain)),
    );
    assert(plan::stages(list@) =~= delete_plan(state.config, state.web, site@, keep_backups));
    Ok(flow::begin(Flow::Steps(StoreChange::Remove(site_id)), list))
}

/// What an operation on a managed site comes to: `run` on its record, or the
/// error that says that the agent does not know the site.
pub open spec fn on_site(
    state: AgentState,
    site_id: i64,
    r: Result<OperationRun, Error>,
    run: spec_fn(RecordView) -> RunView,
) -> bool {
    match r {
        Ok(o) => state.store@.contains_key(site_id) && o@ == run(state.store@[site_id]),
        Err(e) => !state.store@.contains_key(site_id) && e@ == store::unmanaged(site_id),
    }
}

/// The same, for an operation that `check` may refuse.
pub open spec fn on_site_unless(
    state: AgentState,
    site_id: i64,
    r: Result<OperationRun, Error>,
    check: spec_fn(RecordView) -> Option<ErrorView>,
    run: spec_fn(RecordView) -> RunView,
) -> bool {
    match r {
        Ok(o) => state.store@.contains_key(site_id) && check(state.store@[site_id]) is None && o@
            == run(state.store@[site_id]),
        Err(e) => if state.store@.contains_key(site_id) {
            check(state.store@[site_id]) == Some(e@)
        } else {
            e@ == store::unmanaged(site_id)
        },
    }
}

/// Starts the container of a site.
pub open spec fn start_plan(config: Config, site: RecordView) -> Seq<StageView> {
    seq![start_container("Start container"@, config, site), health_check(site)]
}

/// What [`start`] comes to.
pub open spec fn start_comes_to(
    state: AgentState,
    site_id: i64,
    r: Result<OperationRun, Error>,
) -> bool {
    on_site(state, site_id, r, |site: RecordView|
        flow::fresh(FlowView::Started { record: site }, start_plan(state.config, site)))
}

pub fn start(state: &AgentState, site_id: i64) -> (r: Result<OperationRun, Error>)
    ensures
        start_comes_to(*state, site_id, r),
{
    let site = match state.store.get(site_id) {
        Ok(site) => site,
        Err(e) => return Err(e),
    };
    let mut list = plan::no_stages();
    plan::push_stage(&mut list, start_stage("Start container", &state.config, &site));
    plan::push_stage(&mut list, health_stage(&site));
    assert(plan::stages(list@) =~= start_plan(state.config, site@));
    Ok(flow::begin(Flow::Started { record: site }, list))
}

/// What [`stop`] comes to.
pub open spec fn stop_comes_to(
    state: AgentState,
    site_id: i64,
    r: Result<OperationRun, Error>,
) -> bool {
    on_site(state, site_id, r, |site: RecordView|
        flow::fresh(
            FlowView::Steps(
                ChangeView::Put(RecordView { status: SiteStatus::Stopped, ..site }),
            ),
            seq![plan::required("Stop container"@, docker::spec_stop(site.container()))],
        ))
}

pub fn stop(state: &AgentState, site_id: i64) -> (r: Result<OperationRun, Error>)
    ensures
        stop_comes_to(*state, site_id, r),
{
    let mut site = match state.store.get(site_id) {
        Ok(site) => site,
        Err(e) => return Err(e),
    };
    let container = site.container_name();
    let mut list = plan::no_stages();
    plan::push_stage(
        &mut list,
        plan::required_stage("Stop container", docker::stop(container.as_str())),
    );
    site.status = SiteStatus::Stopped;
    Ok(flow::begin(Flow::Steps(StoreChange::Put(site)), list))
}

/// Restarts the container of a site.
pub open spec fn restart_plan(site: RecordView) -> Seq<StageView> {
    seq![
        plan::required("Restart container"@, docker::spec_restart(site.container())),
        health_check(site),
    ]
}

/// What [`restart`] comes to.
pub open spec fn restart_comes_to(
    state: AgentState,
    site_id: i64,
    r: Result<OperationRun, Error>,
) -> bool {
    on_site(state, site_id, r, |site: RecordView|
        flow::fresh(FlowView::Steps(ChangeView::Keep), restart_plan(site)))
}

pub fn restart(state: &AgentState, site_id: i64) -> (r: Result<OperationRun, Error>)
    ensures
        restart_comes_to(*state, site_id, r),
{
    let site = match state.store.get(site_id) {
        Ok(site) => site,
        Err(e) => return Err(e),
    };
    let container = site.container_name();
    let mut list = plan::no_stages();
    plan::push_stage(
        &mut list,
        plan::required_stage("Restart container", docker::restart(container.as_str())),
    );
    plan::push_stage(&mut list, health_stage(&site));
    assert(plan::stages(list@) =~= restart_plan(site@));
    Ok(flow::begin(Flow::Steps(StoreChange::Keep), list))
}

/// Asks a site for its state; none of the answers has to come.
pub open spec fn status_plan(config: Config, site: RecordView) -> Seq<StageView> {
    seq![
        plan::attempt(docker::spec_healthy(site.container())),
        plan::attempt(seq![wordpress::spec_version(site.container())]),
        plan::attempt(filesystem::spec_disk_usage_mb(config, site.domain)),
    ]
}

/// What [`status`] comes to.
pub open spec fn status_comes_to(
    state: AgentState,
    site_id: i64,
    r: Result<OperationRun, Error>,
) -> bool {
    on_site(state, site_id, r, |site: RecordView|
        flow::fresh(FlowView::Status { record: site }, status_plan(state.config, site)))
}

pub fn status(state: &AgentState, site_id: i64) -> (r: Result<OperationRun, Error>)
    ensures
        status_comes_to(*state, site_id, r),
{
    let site = match state.store.get(site_id) {
        Ok(site) => site,
        Err(e) => return Err(e),
    };
    let container = site.container_name();
    let mut list = plan::no_stages();
    plan::push_stage(&mut list, plan::attempt_stage(docker::healthy(container.as_str())));
    let mut tasks = plan::no_tasks();
    plan::push_task(&mut tasks, wordpress::version(container.as_str()));
    plan::push_stage(&mut list, plan::attempt_stage(tasks));
    plan::push_stage(
        &mut list,
        plan::attempt_stage(filesystem::disk_usage_mb(&state.config, site.domain.as_str())),
    );
    assert(plan::stages(list@) =~= status_plan(state.config, site@));
    Ok(flow::begin(Flow::Status { record: site }, list))
}

// ---------------------------------------------------------------------------
// PHP
// ---------------------------------------------------------------------------

/// A new container is started beside the old one, and asked whether it runs.
pub open spec fn switch_plan(config: Config, site: RecordView, version: PhpVersion) -> Seq<
    StageView,
> {
    seq![
        plan::required("Pull target PHP image"@, docker::spec_pull(version)),
        start_container(
            "Start new container"@,
            config,
            RecordView { php_version: version, ..site },
        ),
        plan::required(
            "Health check new container"@,
            docker::spec_healthy(docker::spec_container_name(site.domain, version)),
        ),
    ]
}

/// The record of a site that runs another PHP version in another container.
pub open spec fn switched_record(site: RecordView, version: PhpVersion, id: Seq<char>) -> RecordView {
    RecordView { php_version: version, container_id: Some(id), ..site }
}

/// Asks the web server on this host for the front page of a site. An answer that is an
/// error fails.
pub open spec fn traffic_check(domain: Seq<char>) -> TaskView {
    plan::plain(
        plan::command(
            "curl"@,
            seq![
                "--silent"@,
                "--show-error"@,
                "--fail"@,
                "--insecure"@,
                "--output"@,
                "/dev/null"@,
                "--max-time"@,
                "10"@,
                "--resolve"@,
                domain + ":443:127.0.0.1"@,
                "https://"@ + domain + "/"@,
            ],
        ),
    )
}

/// Executable form of [`traffic_check`].
fn check_traffic(domain: &str) -> (t: Task)
    ensures
        t@ == traffic_check(domain@),
{
    let place = text::cat2(domain, ":443:127.0.0.1");
    let page = text::cat3("https://", domain, "/");
    let mut args = text::list8(
        "--silent",
        "--show-error",
        "--fail",
        "--insecure",
        "--output",
        "/dev/null",
        "--max-time",
        "10",
    );
    text::push_str(&mut args, "--resolve");
    text::push_str(&mut args, place.as_str());
    text::push_str(&mut args, page.as_str());
    let t = plan::plain_task(plan::run("curl", args));
    assert(t@.action->Run_0.args =~= traffic_check(domain@).action->Run_0.args);
    t
}

/// The new container runs: traffic moves over and is verified, and only then the old one
/// goes.
pub open spec fn switch_over_plan(web: WebServer, site: RecordView, previous: PhpVersion) -> Seq<
    StageView,
> {
    seq![
        plan::required("Switch Nginx upstream"@, web.spec_write_site(site, true)),
        plan::required("Verify traffic"@, web.spec_reload().push(traffic_check(site.domain))),
        plan::required(
            "Remove old container"@,
            docker::spec_remove(docker::spec_container_name(site.domain, previous)),
        ),
    ]
}

/// The new container does not run: it goes, and the old one stays.
pub open spec fn switch_back_plan(site: RecordView, version: PhpVersion) -> Seq<StageView> {
    seq![plan::attempt(docker::spec_remove(docker::spec_container_name(site.domain, version)))]
}

/// Why a PHP switch is refused, if it is.
pub open spec fn switch_error(site: RecordView, version: PhpVersion) -> Option<ErrorView> {
    if site.php_version == version {
        Some(ErrorView::Invalid(site.domain + " already runs PHP "@ + version.spec_str()))
    } else {
        None
    }
}

/// The error of a PHP switch whose new container does not run.
pub open spec fn unhealthy_error(version: PhpVersion, previous: PhpVersion) -> ErrorView {
    ErrorView::Internal(
        "PHP "@ + version.spec_str() + " container did not become healthy; kept "@
            + previous.spec_str(),
    )
}

/// What [`switch_php`] comes to.
pub open spec fn switch_php_comes_to(
    state: AgentState,
    site_id: i64,
    version: PhpVersion,
    r: Result<OperationRun, Error>,
) -> bool {
    on_site_unless(
        state,
        site_id,
        r,
        |site: RecordView| switch_error(site, version),
        |site: RecordView|
            flow::fresh(
                FlowView::SwitchCheck { record: site, version },
                switch_plan(state.config, site, version),
            ),
    )
}

/// Near-zero-downtime PHP switch: the new container is proven healthy before
/// Nginx moves and the old container is only then removed.
pub fn switch_php(state: &AgentState, site_id: i64, version: PhpVersion) -> (r: Result<OperationRun, Error>)
    ensures
        switch_php_comes_to(*state, site_id, version, r),
{
    let site = match state.store.get(site_id) {
        Ok(site) => site,
        Err(e) => return Err(e),
    };
    if site.php_version == version {
        return Err(
            Error::Invalid(
                text::cat3(site.domain.as_str(), " already runs PHP ", version.as_str()),
            ),
        );
    }
    let mut target = site.clone();
    target.php_version = version;
    let name = docker::container_name(site.domain.as_str(), version);
    let mut list = plan::no_stages();
    plan::push_stage(
        &mut list,
        plan::required_stage("Pull target PHP image", docker::pull(version)),
    );
    plan::push_stage(&mut list, start_stage("Start new container", &state.config, &target));
    plan::push_stage(
        &mut list,
        plan::required_stage("Health check new container", docker::healthy(name.as_str())),
    );
    assert(plan::stages(list@) =~= switch_plan(state.config, site@, version));
    Ok(flow::begin(Flow::SwitchCheck { record: site, version }, list))
}

/// What follows once the new container has been asked.
pub open spec fn spec_after_switch_check(
    web: WebServer,
    site: RecordView,
    version: PhpVersion,
    started: Option<OutputView>,
    checked: Option<OutputView>,
) -> (FlowView, Seq<StageView>) {
    let name = docker::spec_container_name(site.domain, version);
    if checked matches Some(out) && docker::is_running(out) {
        let next = switched_record(site, version, docker::spec_container_id(name, started));
        (
            FlowView::Steps(ChangeView::Put(next)),
            switch_over_plan(web, next, site.php_version),
        )
    } else {
        (
            FlowView::Undone(unhealthy_error(version, site.php_version)),
            switch_back_plan(site, version),
        )
    }
}

/// The view of what a stage printed.
pub open spec fn seen(o: Option<&CommandOutput>) -> Option<OutputView> {
    match o {
        Some(out) => Some(out@),
        None => None,
    }
}

/// What follows once the new container has been asked.
pub fn after_switch_check(
    web: &WebServer,
    site: SiteRecord,
    version: PhpVersion,
    started: Option<&CommandOutput>,
    checked: Option<&CommandOutput>,
) -> (r: (Flow, Vec<Stage>))
    ensures
        (r.0@, plan::stages(r.1@)) == spec_after_switch_check(
            *web,
            site@,
            version,
            seen(started),
            seen(checked),
        ),
{
    let previous = site.php_version;
    let name = docker::container_name(site.domain.as_str(), version);
    let healthy = match checked {
        Some(out) => docker::running(out),
        None => false,
    };
    let mut list = plan::no_stages();
    if healthy {
        let old_name = docker::container_name(site.domain.as_str(), previous);
        let mut next = site;
        next.php_version = version;
        next.container_id = Some(docker::container_id(name, started));
        plan::push_stage(
            &mut list,
            plan::required_stage("Switch Nginx upstream", web.write_site(&next, true)),
        );
        let mut tasks = web.reload();
        plan::push_task(&mut tasks, check_traffic(next.domain.as_str()));
        plan::push_stage(&mut list, plan::required_stage("Verify traffic", tasks));
        plan::push_stage(
            &mut list,
            plan::required_stage("Remove old container", docker::remove(old_name.as_str())),
        );
        (Flow::Steps(StoreChange::Put(next)), list)
    } else {
        plan::push_stage(&mut list, plan::attempt_stage(docker::remove(name.as_str())));
        let message = text::cat4(
            "PHP ",
            version.as_str(),
            " container did not become healthy; kept ",
            previous.as_str(),
        );
        (Flow::Undone(Error::Internal(message)), list)
    }
}

/// Some task of a plan is the action.
pub open spec fn plan_has(list: Seq<StageView>, action: ActionView) -> bool {
    exists|i: int, j: int|
        0 <= i < list.len() && 0 <= j < list[i].tasks.len() && (#[trigger] list[i].tasks[j]).action
            == action
}

/// The removal of the container of a site with a PHP version.
pub open spec fn removal(site: RecordView, version: PhpVersion) -> ActionView {
    plan::command(
        "docker"@,
        seq!["rm"@, "--force"@, docker::spec_container_name(site.domain, version)],
    )
}

/// Containers with different PHP versions have different names.
pub proof fn lemma_versions_are_apart(domain: Seq<char>, a: PhpVersion, b: PhpVersion)
    requires
        a != b,
    ensures
        docker::spec_container_name(domain, a) != docker::spec_container_name(domain, b),
{
    let front = "wp-"@ + text::swap(domain, '.', '-') + "-php"@;
    let x = text::replace(a.spec_str(), '.', ""@);
    let y = text::replace(b.spec_str(), '.', ""@);
    assert(x.len() > 0 && y.len() > 0 && x.last() != y.last()) by {
        lemma_version_digits(a);
        lemma_version_digits(b);
    }
    let m = front + x;
    let n = front + y;
    if m == n {
        assert(m.last() == x.last());
        assert(n.last() == y.last());
    }
}

/// The version whose second number is `d`.
spec fn version_digit(v: PhpVersion) -> char {
    match v {
        PhpVersion::Php81 => '1',
        PhpVersion::Php82 => '2',
        PhpVersion::Php83 => '3',
        PhpVersion::Php84 => '4',
    }
}

/// Without its dot, a version ends in its second number.
proof fn lemma_version_digits(v: PhpVersion)
    ensures
        text::replace(v.spec_str(), '.', ""@).len() > 0,
        text::replace(v.spec_str(), '.', ""@).last() == version_digit(v),
{
    reveal_strlit("8.1");
    reveal_strlit("8.2");
    reveal_strlit("8.3");
    reveal_strlit("8.4");
    reveal_strlit("");
    reveal_with_fuel(text::replace, 4);
}

/// Neither what happens before the new container is known to run, nor what happens
/// where it does not, removes the old container or touches a file; where the new
/// one does not run, the operation ends with an error and the index stays as it is.
pub proof fn law_failed_switch_keeps_the_old_container(
    config: Config,
    web: WebServer,
    site: RecordView,
    version: PhpVersion,
    started: Option<OutputView>,
    checked: Option<OutputView>,
)
    requires
        switch_error(site, version) is None,
        !(checked matches Some(out) && docker::is_running(out)),
    ensures
        !plan_has(switch_plan(config, site, version), removal(site, site.php_version)),
        !plan_has(
            spec_after_switch_check(web, site, version, started, checked).1,
            removal(site, site.php_version),
        ),
        spec_after_switch_check(web, site, version, started, checked).0 == FlowView::Undone(
            unhealthy_error(version, site.php_version),
        ),
        forall|i: int, j: int|
            0 <= i < 3 && 0 <= j < switch_plan(config, site, version)[i].tasks.len() ==> (
            #[trigger] switch_plan(config, site, version)[i].tasks[j]).action is Run,
{
    lemma_versions_are_apart(site.domain, version, site.php_version);
    reveal_strlit("rm");
    reveal_strlit("run");
    reveal_strlit("pull");
    reveal_strlit("inspect");
    reveal_strlit("exec");
    let gone = seq![
        "rm"@,
        "--force"@,
        docker::spec_container_name(site.domain, site.php_version),
    ];
    let first = switch_plan(config, site, version);
    let back = spec_after_switch_check(web, site, version, started, checked).1;
    assert forall|i: int, j: int|
        0 <= i < first.len() && 0 <= j < first[i].tasks.len() implies (
    #[trigger] first[i].tasks[j]).action != removal(site, site.php_version) by {
        let args = first[i].tasks[j].action->Run_0.args;
        assert(gone[0].len() == 2);
        assert(args[0] != gone[0]);
    }
    assert forall|i: int, j: int|
        0 <= i < back.len() && 0 <= j < back[i].tasks.len() implies (
    #[trigger] back[i].tasks[j]).action != removal(site, site.php_version) by {
        let args = back[i].tasks[j].action->Run_0.args;
        assert(args[2] != gone[2]);
    }
}

/// Where the new container runs, the old one is removed last, after the new one
/// has been seen to serve the traffic.
pub proof fn law_switch_removes_the_old_container_last(
    web: WebServer,
    site: RecordView,
    version: PhpVersion,
    started: Option<OutputView>,
    checked: OutputView,
)
    requires
        docker::is_running(checked),
    ensures
        ({
            let next = spec_after_switch_check(web, site, version, started, Some(checked)).1;
            &&& next.len() == 3
            &&& next[0].tasks == web.spec_write_site(
                switched_record(
                    site,
                    version,
                    docker::spec_container_id(
                        docker::spec_container_name(site.domain, version),
                        started,
                    ),
                ),
                true,
            )
            &&& next[1].tasks == web.spec_reload().push(traffic_check(site.domain))
            &&& next[2].tasks == seq![plan::plain(removal(site, site.php_version))]
            &&& forall|i: int| 0 <= i < 3 ==> plan::strict(#[trigger] next[i])
        }),
{
}

/// Changes what the container of a site may use.
pub open spec fn limits_plan(site: RecordView, limits: ResourceLimits) -> Seq<StageView> {
    seq![
        plan::required(
            "Apply container limits"@,
            docker::docker(
                seq![
                    "update"@,
                    "--cpus"@,
                    limits.cpus(),
                    "--memory"@,
                    docker::megabytes(limits.memory_mb),
                    site.container(),
                ],
            ),
        ),
    ]
}

/// What [`set_limits`] comes to.
pub open spec fn set_limits_comes_to(
    state: AgentState,
    site_id: i64,
    limits: ResourceLimits,
    r: Result<OperationRun, Error>,
) -> bool {
    on_site(state, site_id, r, |site: RecordView|
        flow::fresh(
            FlowView::Steps(ChangeView::Put(RecordView { limits, ..site })),
            limits_plan(site, limits),
        ))
}

pub fn set_limits(state: &AgentState, site_id: i64, limits: ResourceLimits) -> (r: Result<OperationRun, Error>)
    ensures
        set_limits_comes_to(*state, site_id, limits, r),
{
    let mut site = match state.store.get(site_id) {
        Ok(site) => site,
        Err(e) => return Err(e),
    };
    let cpus = limits.cpus_text();
    let memory = docker::megabytes_text(limits.memory_mb);
    let container = site.container_name();
    let mut list = plan::no_stages();
    plan::push_stage(
        &mut list,
        plan::required_stage(
            "Apply container limits",
            plan::only(
                plan::run(
                    "docker",
                    text::list6(
                        "update",
                        "--cpus",
                        cpus.as_str(),
                        "--memory",
                        memory.as_str(),
                        container.as_str(),
                    ),
                ),
            ),
        ),
    );
    site.limits = limits;
    Ok(flow::begin(Flow::Steps(StoreChange::Put(site)), list))
}

// ---------------------------------------------------------------------------
// Domains and certificates
// ---------------------------------------------------------------------------

/// A list of domains with one more, unless it is there already.
pub open spec fn with_domain(domains: Seq<Seq<char>>, domain: Seq<char>) -> Seq<Seq<char>> {
    if domains.contains(domain) {
        domains
    } else {
        domains.push(domain)
    }
}

/// A list of domains without one of them.
pub open spec fn without_domain(domains: Seq<Seq<char>>, domain: Seq<char>) -> Seq<Seq<char>>
    decreases domains.len(),
{
    if domains.len() == 0 {
        domains
    } else if domains.last() == domain {
        without_domain(domains.drop_last(), domain)
    } else {
        without_domain(domains.drop_last(), domain).push(domains.last())
    }
}

/// Rewrites the vhost of a site whose domains have changed.
pub open spec fn domains_run(state: AgentState, site: RecordView) -> RunView {
    flow::fresh(
        FlowView::Steps(ChangeView::Put(site)),
        serve(Seq::empty(), "Update Nginx vhost"@, state.web, site, false),
    )
}

/// What [`add_domain`] comes to.
pub open spec fn add_domain_comes_to(
    state: AgentState,
    site_id: i64,
    domain: Seq<char>,
    r: Result<OperationRun, Error>,
) -> bool {
    on_site(state, site_id, r, |site: RecordView|
        domains_run(
            state,
            RecordView { domains: with_domain(site.domains, domain), ..site },
        ))
}

pub fn add_domain(state: &AgentState, site_id: i64, domain: String) -> (r: Result<OperationRun, Error>)
    ensures
        add_domain_comes_to(*state, site_id, domain@, r),
{
    let mut site = match state.store.get(site_id) {
        Ok(site) => site,
        Err(e) => return Err(e),
    };
    if !text::list_has(&site.domains, domain.as_str()) {
        text::push_text(&mut site.domains, domain);
    }
    let mut list = plan::no_stages();
    push_serve(&mut list, "Update Nginx vhost", &state.web, &site, false);
    Ok(flow::begin(Flow::Steps(StoreChange::Put(site)), list))
}

/// Executable form of [`without_domain`].
fn drop_domain(domains: &Vec<String>, domain: &str) -> (r: Vec<String>)
    ensures
        text::texts(r@) == without_domain(text::texts(domains@), domain@),
{
    let ghost all = text::texts(domains@);
    let mut r = text::no_texts();
    let mut i: usize = 0;
    assert(all.take(0) =~= Seq::empty());
    while i < domains.len()
        invariant
            i <= domains@.len(),
            all == text::texts(domains@),
            text::texts(r@) == without_domain(all.take(i as int), domain@),
        decreases domains@.len() - i,
    {
        assert(all.take(i + 1).drop_last() =~= all.take(i as int));
        assert(all.take(i + 1).last() == domains@[i as int]@);
        if !text::same(domains[i].as_str(), domain) {
            text::push_str(&mut r, domains[i].as_str());
        }
        i += 1;
    }
    assert(all.take(i as int) =~= all);
    r
}

/// Why a domain cannot be removed, if it cannot.
pub open spec fn primary_error(site: RecordView, domain: Seq<char>) -> Option<ErrorView> {
    if site.domain == domain {
        Some(ErrorView::Invalid("cannot remove the primary domain"@))
    } else {
        None
    }
}

/// What [`remove_domain`] comes to.
pub open spec fn remove_domain_comes_to(
    state: AgentState,
    site_id: i64,
    domain: Seq<char>,
    r: Result<OperationRun, Error>,
) -> bool {
    on_site_unless(
        state,
        site_id,
        r,
        |site: RecordView| primary_error(site, domain),
        |site: RecordView|
            domains_run(
                state,
                RecordView { domains: without_domain(site.domains, domain), ..site },
            ),
    )
}

pub fn remove_domain(state: &AgentState, site_id: i64, domain: String) -> (r: Result<OperationRun, Error>)
    ensures
        remove_domain_comes_to(*state, site_id, domain@, r),
{
    let mut site = match state.store.get(site_id) {
        Ok(site) => site,
        Err(e) => return Err(e),
    };
    if text::same(site.domain.as_str(), domain.as_str()) {
        return Err(Error::invalid("cannot remove the primary domain"));
    }
    site.domains = drop_domain(&site.domains, domain.as_str());
    let mut list = plan::no_stages();
    push_serve(&mut list, "Update Nginx vhost", &state.web, &site, false);
    Ok(flow::begin(Flow::Steps(StoreChange::Put(site)), list))
}

/// The domains that a certificate is issued for: those asked for, or all of the site's.
pub open spec fn certificate_domains(site: RecordView, asked: Seq<Seq<char>>) -> Seq<Seq<char>> {
    if asked.len() == 0 {
        site.domains
    } else {
        asked
    }
}

/// Requests a certificate and puts it to use.
pub open spec fn issue_plan(
    config: Config,
    web: WebServer,
    site: RecordView,
    domains: Seq<Seq<char>>,
) -> Seq<StageView> {
    serve(
        seq![plan::required("Request certificate"@, ssl::spec_issue(config, domains))],
        "Install certificate"@,
        web,
        site,
        true,
    )
}

/// What [`issue_certificate`] comes to.
pub open spec fn issue_certificate_comes_to(
    state: AgentState,
    site_id: i64,
    domains: Seq<Seq<char>>,
    r: Result<OperationRun, Error>,
) -> bool {
    on_site(state, site_id, r, |site: RecordView|
        flow::fresh(
            FlowView::Certificate {
                domains: certificate_domains(site, domains),
            },
            issue_plan(
                state.config,
                state.web,
                site,
                certificate_domains(site, domains),
            ),
        ))
}

pub fn issue_certificate(state: &AgentState, site_id: i64, domains: Vec<String>) -> (r: Result<OperationRun, Error>)
    ensures
        issue_certificate_comes_to(*state, site_id, text::texts(domains@), r),
{
    let site = match state.store.get(site_id) {
        Ok(site) => site,
        Err(e) => return Err(e),
    };
    let chosen = if domains.len() == 0 {
        text::copy_all(&site.domains)
    } else {
        domains
    };
    let mut list = plan::no_stages();
    plan::push_stage(
        &mut list,
        plan::required_stage("Request certificate", ssl::issue(&state.config, &chosen)),
    );
    push_serve(&mut list, "Install certificate", &state.web, &site, true);
    Ok(flow::begin(Flow::Certificate { domains: chosen }, list))
}

/// Renews the certificate of a site.
pub open spec fn renew_plan(web: WebServer, site: RecordView) -> Seq<StageView> {
    seq![
        plan::required("Renew certificate"@, ssl::spec_renew(site.domain)),
        plan::required("Reload Nginx"@, web.spec_reload()),
    ]
}

/// What [`renew_certificate`] comes to.
pub open spec fn renew_certificate_comes_to(
    state: AgentState,
    site_id: i64,
    r: Result<OperationRun, Error>,
) -> bool {
    on_site(state, site_id, r, |site: RecordView|
        flow::fresh(
            FlowView::Certificate { domains: site.domains },
            renew_plan(state.web, site),
        ))
}

pub fn renew_certificate(state: &AgentState, site_id: i64) -> (r: Result<OperationRun, Error>)
    ensures
        renew_certificate_comes_to(*state, site_id, r),
{
    let site = match state.store.get(site_id) {
        Ok(site) => site,
        Err(e) => return Err(e),
    };
    let mut list = plan::no_stages();
    plan::push_stage(
        &mut list,
        plan::required_stage("Renew certificate", ssl::renew(site.domain.as_str())),
    );
    plan::push_stage(&mut list, plan::required_stage("Reload Nginx", state.web.reload()));
    assert(plan::stages(list@) =~= renew_plan(state.web, site@));
    Ok(flow::begin(Flow::Certificate { domains: site.domains }, list))
}

// ---------------------------------------------------------------------------
// Cache
// ---------------------------------------------------------------------------

/// Puts new cache settings to use.
pub open spec fn cache_plan(config: Config, web: WebServer, site: RecordView) -> Seq<StageView> {
    serve(Seq::empty(), "Rewrite Nginx vhost"@, web, site, true).push(
        plan::required("Write cache mu-plugin"@, mu_plugin::spec_write_mu_plugin(config, site)),
    )
}

/// What [`set_cache`] comes to.
pub open spec fn set_cache_comes_to(
    state: AgentState,
    site_id: i64,
    settings: CacheSettings,
    r: Result<OperationRun, Error>,
) -> bool {
    on_site(state, site_id, r, |site: RecordView|
        flow::fresh(
            FlowView::Steps(ChangeView::Put(RecordView { cache: settings, ..site })),
            cache_plan(state.config, state.web, RecordView { cache: settings, ..site }),
        ))
}

pub fn set_cache(state: &AgentState, site_id: i64, settings: CacheSettings) -> (r: Result<OperationRun, Error>)
    ensures
        set_cache_comes_to(*state, site_id, settings, r),
{
    let mut site = match state.store.get(site_id) {
        Ok(site) => site,
        Err(e) => return Err(e),
    };
    site.cache = settings;
    let mut list = plan::no_stages();
    push_serve(&mut list, "Rewrite Nginx vhost", &state.web, &site, true);
    plan::push_stage(
        &mut list,
        plan::required_stage(
            "Write cache mu-plugin",
            mu_plugin::write_mu_plugin(&state.config, &site),
        ),
    );
    Ok(flow::begin(Flow::Steps(StoreChange::Put(site)), list))
}

/// Empties the caches of a site.
pub open spec fn clear_plan(web: WebServer, site: RecordView) -> Seq<StageView> {
    seq![
        plan::required("Purge FastCGI cache"@, web.spec_purge(site.domain)),
        plan::required(
            "Flush object cache"@,
            seq![wordpress::spec_flush_cache(site.container())],
        ),
    ]
}

/// What [`clear_cache`] comes to.
pub open spec fn clear_cache_comes_to(
    state: AgentState,
    site_id: i64,
    r: Result<OperationRun, Error>,
) -> bool {
    on_site(state, site_id, r, |site: RecordView|
        flow::fresh(FlowView::Steps(ChangeView::Keep), clear_plan(state.web, site)))
}

pub fn clear_cache(state: &AgentState, site_id: i64) -> (r: Result<OperationRun, Error>)
    ensures
        clear_cache_comes_to(*state, site_id, r),
{
    let site = match state.store.get(site_id) {
        Ok(site) => site,
        Err(e) => return Err(e),
    };
    let container = site.container_name();
    let mut list = plan::no_stages();
    plan::push_stage(
        &mut list,
        plan::required_stage("Purge FastCGI cache", state.web.purge(site.domain.as_str())),
    );
    let mut tasks = plan::no_tasks();
    plan::push_task(&mut tasks, wordpress::flush_cache(container.as_str()));
    plan::push_stage(&mut list, plan::required_stage("Flush object cache", tasks));
    assert(plan::stages(list@) =~= clear_plan(state.web, site@));
    Ok(flow::begin(Flow::Steps(StoreChange::Keep), list))
}

// ---------------------------------------------------------------------------
// WordPress
// ---------------------------------------------------------------------------

/// What WordPress connects to the database of a known site with.
pub open spec fn local_credentials(site: RecordView, password: Seq<char>) -> database::CredentialsView {
    database::CredentialsView {
        name: site.db_name,
        user: models::identifier_of(site.domain),
        password,
        host: "127.0.0.1"@,
    }
}

/// Executable form of [`local_credentials`].
pub fn make_local_credentials(site: &SiteRecord, password: &str) -> (c: database::Credentials)
    ensures
        c@ == local_credentials(site@, password@),
{
    database::Credentials {
        name: site.db_name.clone(),
        user: filesystem::system_user(site.domain.as_str()),
        password: password.to_owned(),
        host: "127.0.0.1".to_owned(),
    }
}

/// What [`install_wordpress`] comes to.
pub open spec fn install_wordpress_comes_to(
    state: AgentState,
    request: InstallView,
    fresh: Fresh,
    r: Result<OperationRun, Error>,
) -> bool {
    on_site(state, request.site_id, r, |site: RecordView|
        flow::fresh(
            FlowView::Version {
                site_id: request.site_id,
                php_version: site.php_version,
                stage: 0,
            },
            seq![
                plan::required(
                    "Install WordPress"@,
                    wordpress::spec_install(
                        site,
                        local_credentials(site, fresh.password@),
                        request,
                    ),
                ),
            ],
        ))
}

pub fn install_wordpress(state: &AgentState, request: InstallWordpress, fresh: &Fresh) -> (r: Result<OperationRun, Error>)
    ensures
        install_wordpress_comes_to(*state, request@, *fresh, r),
{
    let site = match state.store.get(request.site_id) {
        Ok(site) => site,
        Err(e) => return Err(e),
    };
    let c = make_local_credentials(&site, fresh.password.as_str());
    let mut list = plan::no_stages();
    plan::push_stage(
        &mut list,
        plan::required_stage("Install WordPress", wordpress::install(&site, &c, &request)),
    );
    Ok(
        flow::begin(
            Flow::Version {
                site_id: request.site_id,
                php_version: site.php_version,
                stage: 0,
            },
            list,
        ),
    )
}

/// The repository of the host itself, for the backup before an update.
pub open spec fn fallback_target(repo: Seq<char>) -> ResticTargetView {
    ResticTargetView { repo, password: ""@, env: Seq::empty() }
}

/// Core update, preceded by a safety backup so a failed migration is recoverable.
pub open spec fn update_plan(config: Config, site: RecordView) -> Seq<StageView> {
    seq![
        match config.restic_repo {
            Some(repo) => plan::required(
                "Backup before update"@,
                backup::spec_create(config, site, BackupScope::Full, fallback_target(repo@)),
            ),
            None => plan::remark("Backup before update"@, "skipped: no restic repository"@),
        },
        plan::required("Update core"@, wordpress::spec_update_core(site.container())),
        health_check(site),
    ]
}

/// What [`update_wordpress`] comes to.
pub open spec fn update_wordpress_comes_to(
    state: AgentState,
    site_id: i64,
    r: Result<OperationRun, Error>,
) -> bool {
    on_site(state, site_id, r, |site: RecordView|
        flow::fresh(
            FlowView::Version { site_id, php_version: site.php_version, stage: 1 },
            update_plan(state.config, site),
        ))
}

/// Core update, preceded by a safety backup so a failed migration is recoverable.
pub fn update_wordpress(state: &AgentState, site_id: i64) -> (r: Result<OperationRun, Error>)
    ensures
        update_wordpress_comes_to(*state, site_id, r),
{
    let site = match state.store.get(site_id) {
        Ok(site) => site,
        Err(e) => return Err(e),
    };
    let config = &state.config;
    let mut list = plan::no_stages();
    match &config.restic_repo {
        Some(repo) => {
            let target = ResticTarget {
                repo: repo.clone(),
                password: "".to_owned(),
                env: Vec::new(),
            };
            assert(target@.env =~= Seq::empty());
            plan::push_stage(
                &mut list,
                plan::required_stage(
                    "Backup before update",
                    backup::create(config, &site, BackupScope::Full, &target),
                ),
            );
        },
        None => {
            plan::push_stage(
                &mut list,
                plan::remark_stage("Backup before update", "skipped: no restic repository"),
            );
        },
    }
    let container = site.container_name();
    plan::push_stage(
        &mut list,
        plan::required_stage("Update core", wordpress::update_core(container.as_str())),
    );
    plan::push_stage(&mut list, health_stage(&site));
    assert(plan::stages(list@) =~= update_plan(state.config, site@));
    Ok(
        flow::begin(
            Flow::Version { site_id, php_version: site.php_version, stage: 1 },
            list,
        ),
    )
}

// ---------------------------------------------------------------------------
// Backups and logs
// ---------------------------------------------------------------------------

/// Snapshots a site, then forgets what is not kept.
pub open spec fn backup_plan(
    config: Config,
    site: RecordView,
    scope: BackupScope,
    target: ResticTargetView,
) -> Seq<StageView> {
    seq![
        plan::required("Snapshot site"@, backup::spec_create(config, site, scope, target)),
        plan::required(
            "Prune retention"@,
            backup::spec_prune(site, RetentionPolicy::standard(), target),
        ),
    ]
}

/// What [`backup`] comes to.
pub open spec fn backup_comes_to(
    state: AgentState,
    site_id: i64,
    scope: BackupScope,
    target: ResticTargetView,
    r: Result<OperationRun, Error>,
) -> bool {
    on_site(state, site_id, r, |site: RecordView|
        flow::fresh(
            FlowView::Snapshot { scope },
            backup_plan(state.config, site, scope, target),
        ))
}

pub fn backup(state: &AgentState, site_id: i64, scope: BackupScope, target: ResticTarget) -> (r: Result<OperationRun, Error>)
    ensures
        backup_comes_to(*state, site_id, scope, target@, r),
{
    let site = match state.store.get(site_id) {
        Ok(site) => site,
        Err(e) => return Err(e),
    };
    let mut list = plan::no_stages();
    plan::push_stage(
        &mut list,
        plan::required_stage(
            "Snapshot site",
            backup::create(&state.config, &site, scope, &target),
        ),
    );
    plan::push_stage(
        &mut list,
        plan::required_stage(
            "Prune retention",
            backup::prune(&site, RetentionPolicy::default(), &target),
        ),
    );
    assert(plan::stages(list@) =~= backup_plan(state.config, site@, scope, target@));
    Ok(flow::begin(Flow::Snapshot { scope }, list))
}

/// Puts a snapshot back.
pub open spec fn restore_plan(
    config: Config,
    site: RecordView,
    snapshot_id: Seq<char>,
    scope: BackupScope,
    target: ResticTargetView,
) -> Seq<StageView> {
    seq![
        plan::required(
            "Restore snapshot"@,
            backup::spec_restore(config, site, snapshot_id, scope, target),
        ),
        plan::required("Restart container"@, docker::spec_restart(site.container())),
        health_check(site),
    ]
}

/// What [`restore`] comes to.
pub open spec fn restore_comes_to(
    state: AgentState,
    site_id: i64,
    snapshot_id: Seq<char>,
    scope: BackupScope,
    target: ResticTargetView,
    r: Result<OperationRun, Error>,
) -> bool {
    on_site(state, site_id, r, |site: RecordView|
        flow::fresh(
            FlowView::Steps(ChangeView::Keep),
            restore_plan(state.config, site, snapshot_id, scope, target),
        ))
}

pub fn restore(
    state: &AgentState,
    site_id: i64,
    snapshot_id: &str,
    scope: BackupScope,
    target: ResticTarget,
) -> (r: Result<OperationRun, Error>)
    ensures
        restore_comes_to(*state, site_id, snapshot_id@, scope, target@, r),
{
    let site = match state.store.get(site_id) {
        Ok(site) => site,
        Err(e) => return Err(e),
    };
    let container = site.container_name();
    let mut list = plan::no_stages();
    plan::push_stage(
        &mut list,
        plan::required_stage(
            "Restore snapshot",
            backup::restore(&state.config, &site, snapshot_id, scope, &target),
        ),
    );
    plan::push_stage(
        &mut list,
        plan::required_stage("Restart container", docker::restart(container.as_str())),
    );
    plan::push_stage(&mut list, health_stage(&site));
    assert(plan::stages(list@) =~= restore_plan(state.config, site@, snapshot_id@, scope, target@));
    Ok(flow::begin(Flow::Steps(StoreChange::Keep), list))
}

/// The file of a log.
pub open spec fn log_path(config: Config, site: RecordView, stream: LogStream) -> Seq<char> {
    match stream {
        LogStream::Agent => "/var/log/wp-agent.log"@,
        _ => config.spec_in_site(site.domain, "logs/"@ + stream.spec_str() + ".log"@),
    }
}

/// Characters that mean something to grep or to a shell.
pub open spec fn is_pattern_meta(c: char) -> bool {
    c == '\\' || c == '[' || c == ']' || c == '(' || c == ')' || c == '+' || c == '?' || c == '{'
        || c == '}' || c == '^' || c == '$' || c == '.' || c == '*' || c == '|' || c == '&' || c
        == ';'
}

/// A text without the characters of [`is_pattern_meta`].
pub open spec fn without_meta(s: Seq<char>) -> Seq<char>
    decreases s.len(),
{
    if s.len() == 0 {
        s
    } else if is_pattern_meta(s.last()) {
        without_meta(s.drop_last())
    } else {
        without_meta(s.drop_last()).push(s.last())
    }
}

/// What is looked for in a log: a pattern of 1 to 64 bytes, without
/// metacharacters.
pub open spec fn safe_pattern(grep: Option<Seq<char>>) -> Option<Seq<char>> {
    match grep {
        Some(p) => if 0 < text::byte_len(p) <= 64 {
            Some(without_meta(p))
        } else {
            None
        },
        None => None,
    }
}

/// How many lines are read.
pub open spec fn line_count(lines: u32) -> nat {
    if lines < 1 {
        1
    } else if lines > 5000 {
        5000
    } else {
        lines as nat
    }
}

/// Reads the end of a log. Path and pattern go to the shell as single words.
pub open spec fn tail_plan(
    config: Config,
    site: RecordView,
    stream: LogStream,
    lines: u32,
    grep: Option<Seq<char>>,
) -> Seq<StageView> {
    let count = digits::dec(line_count(lines));
    let file = log_path(config, site, stream);
    let action = match safe_pattern(grep) {
        Some(pattern) => plan::probe(
            "sh"@,
            seq![
                "-c"@,
                "tail -n "@ + count + " "@ + exec::quoted(file) + " | grep -F "@ + exec::quoted(
                    pattern,
                ),
            ],
        ),
        None => plan::probe("tail"@, seq!["-n"@, count, file]),
    };
    seq![plan::silent(seq![plan::plain(action)])]
}

/// Executable form of [`without_meta`].
fn strip_meta(s: &str) -> (r: String)
    ensures
        r@ == without_meta(s@),
{
    let cs = text::chars_of(s);
    let mut r = String::new();
    let mut i: usize = 0;
    assert(s@.take(0) =~= Seq::empty());
    while i < cs.len()
        invariant
            i <= cs@.len(),
            cs@ == s@,
            r@ == without_meta(s@.take(i as int)),
        decreases cs@.len() - i,
    {
        assert(s@.take(i + 1).drop_last() =~= s@.take(i as int));
        let c = cs[i];
        if !(c == '\\' || c == '[' || c == ']' || c == '(' || c == ')' || c == '+' || c == '?'
            || c == '{' || c == '}' || c == '^' || c == '$' || c == '.' || c == '*' || c == '|'
            || c == '&' || c == ';') {
            r.push(c);
        }
        i += 1;
    }
    assert(s@.take(i as int) =~= s@);
    r
}

/// What [`tail_logs`] comes to.
pub open spec fn tail_logs_comes_to(
    state: AgentState,
    site_id: i64,
    stream: LogStream,
    lines: u32,
    grep_pattern: Option<Seq<char>>,
    r: Result<OperationRun, Error>,
) -> bool {
    on_site(state, site_id, r, |site: RecordView|
        flow::fresh(
            FlowView::Lines,
            tail_plan(state.config, site, stream, lines, grep_pattern),
        ))
}

pub fn tail_logs(
    state: &AgentState,
    site_id: i64,
    stream: LogStream,
    lines: u32,
    grep_pattern: Option<String>,
) -> (r: Result<OperationRun, Error>)
    ensures
        tail_logs_comes_to(*state, site_id, stream, lines, text::text_opt(grep_pattern), r),
{
    let site = match state.store.get(site_id) {
        Ok(site) => site,
        Err(e) => return Err(e),
    };
    let file = match stream {
        LogStream::Agent => "/var/log/wp-agent.log".to_owned(),
        _ => {
            let part = text::cat3("logs/", stream.as_str(), ".log");
            state.config.in_site(site.domain.as_str(), part.as_str())
        },
    };
    let count: u64 = if lines < 1 {
        1
    } else if lines > 5000 {
        5000
    } else {
        lines as u64
    };
    let count = digits::dec_u64(count);
    let pattern = match &grep_pattern {
        Some(p) => {
            let n = text::bytes_in(p.as_str());
            if 0 < n && n <= 64 {
                Some(strip_meta(p.as_str()))
            } else {
                None
            }
        },
        None => None,
    };
    let action = match &pattern {
        Some(p) => {
            let word = exec::shell_quote(p.as_str());
            let from = exec::shell_quote(file.as_str());
            let mut script = text::cat4("tail -n ", count.as_str(), " ", from.as_str());
            script.append(" | grep -F ");
            script.append(word.as_str());
            plan::run_probe("sh", text::list2("-c", script.as_str()))
        },
        None => plan::run_probe("tail", text::list3("-n", count.as_str(), file.as_str())),
    };
    let mut list = plan::no_stages();
    plan::push_stage(&mut list, plan::silent_stage(plan::only(action)));
    Ok(flow::begin(Flow::Lines, list))
}

// ---------------------------------------------------------------------------
// Cloning & staging
// ---------------------------------------------------------------------------

/// Why a clone is refused, if it is.
pub open spec fn clone_error(source: RecordView, target_domain: Seq<char>) -> Option<ErrorView> {
    if source.domain == target_domain {
        Some(ErrorView::Invalid("source and target domains are the same"@))
    } else {
        None
    }
}

/// The record of a clone: the settings of its source under its own names.
pub open spec fn clone_record(source: RecordView, request: CloneSite, uid: u32) -> RecordView {
    new_record(
        request.target_site_id,
        request.target_domain@,
        uid,
        request.php_version,
        source.database_mode,
        source.limits,
        source.cache,
    )
}

/// A clone begins by reading what its source connects to its database with.
pub open spec fn clone_run(
    state: AgentState,
    request: CloneSite,
    fresh: Fresh,
    source: RecordView,
) -> RunView {
    flow::fresh(
        FlowView::CloneFrom {
            source,
            target: clone_record(
                source,
                request,
                state.store.spec_next_uid(state.config.uid_base),
            ),
            staging: request.staging,
            search_replace: request.search_replace,
            password: fresh.password@,
        },
        seq![wpconfig::read_stage(state.config, source)],
    )
}

/// What [`clone`] comes to.
pub open spec fn clone_comes_to(
    state: AgentState,
    request: CloneSite,
    fresh: Fresh,
    r: Result<OperationRun, Error>,
) -> bool {
    on_site_unless(
        state,
        request.source_site_id,
        r,
        |source: RecordView| clone_error(source, request.target_domain@),
        |source: RecordView| clone_run(state, request, fresh, source),
    )
}

/// A site can be copied as requested: its source is known and has another domain.
pub open spec fn copies(state: AgentState, request: CloneSite) -> bool {
    state.store@.contains_key(request.source_site_id) && clone_error(
        state.store@[request.source_site_id],
        request.target_domain@,
    ) is None
}

/// Copies a site: the source's configuration is read first, then
/// [`clone_plan`] follows.
pub fn clone(state: &AgentState, request: CloneSite, fresh: &Fresh) -> (r: Result<OperationRun, Error>)
    requires
        copies(*state, request) ==> state.has_room(),
    ensures
        clone_comes_to(*state, request, *fresh, r),
        // The copy has a UID of its own.
        r matches Ok(run) ==> (run@.flow matches FlowView::CloneFrom { target, .. }
            && !state.store.uses(target.uid)),
{
    let source = match state.store.get(request.source_site_id) {
        Ok(site) => site,
        Err(e) => return Err(e),
    };
    if text::same(source.domain.as_str(), request.target_domain.as_str()) {
        return Err(Error::invalid("source and target domains are the same"));
    }
    let uid = state.store.next_uid(state.config.uid_base);
    let target = make_record(
        request.target_site_id,
        request.target_domain.as_str(),
        uid,
        request.php_version,
        source.database_mode,
        source.limits,
        source.cache,
    );
    let mut list = plan::no_stages();
    plan::push_stage(&mut list, wpconfig::reading(&state.config, &source));
    Ok(
        flow::begin(
            Flow::CloneFrom {
                source,
                target,
                staging: request.staging,
                search_replace: request.search_replace,
                password: fresh.password.clone(),
            },
            list,
        ),
    )
}

/// The pipeline that copies one database into another. Every value goes to the
/// shell as a single word.
pub open spec fn copy_script(source: DbConfigView, c: database::CredentialsView) -> Seq<char> {
    "mysqldump -u"@ + exec::quoted(source.user) + " -p"@ + exec::quoted(source.password) + " "@
        + exec::quoted(source.name) + " | mysql -u"@ + exec::quoted(c.user) + " -p"@
        + exec::quoted(c.password) + " "@ + exec::quoted(c.name)
}

/// Executable form of [`copy_script`].
fn write_copy_script(source: &DbConfig, c: &database::Credentials) -> (s: String)
    ensures
        s@ == copy_script(source@, c@),
{
    let a = exec::shell_quote(source.user.as_str());
    let b = exec::shell_quote(source.password.as_str());
    let d = exec::shell_quote(source.name.as_str());
    let e = exec::shell_quote(c.user.as_str());
    let f = exec::shell_quote(c.password.as_str());
    let g = exec::shell_quote(c.name.as_str());
    let mut s = text::cat5("mysqldump -u", a.as_str(), " -p", b.as_str(), " ");
    s.append(d.as_str());
    s.append(" | mysql -u");
    s.append(e.as_str());
    s.append(" -p");
    s.append(f.as_str());
    s.append(" ");
    s.append(g.as_str());
    s
}

/// Copies files, leaving out caches, upgrades and SQL dumps.
pub open spec fn copy_files(config: Config, source: RecordView, target: RecordView) -> TaskView {
    plan::plain(
        plan::command(
            "rsync"@,
            seq![
                "-a"@,
                "--delete"@,
                "--exclude"@,
                "wp-content/cache/"@,
                "--exclude"@,
                "wp-content/upgrade/"@,
                "--exclude"@,
                "*.sql"@,
                config.spec_in_site(source.domain, "public_html"@) + "/"@,
                config.spec_in_site(target.domain, "public_html"@) + "/"@,
            ],
        ),
    )
}

/// The stages up to a copy of files and database, in a running container.
pub open spec fn copy_plan(
    config: Config,
    source: RecordView,
    db: DbConfigView,
    target: RecordView,
    password: Seq<char>,
) -> Seq<StageView> {
    let c = database::credentials_of(target, password);
    seq![
        plan::required(
            "Allocate system user"@,
            filesystem::spec_ensure_user(target.domain, target.uid),
        ),
        plan::required(
            "Create filesystem layout"@,
            filesystem::spec_create_tree(config, target.domain, target.uid),
        ),
        plan::required("Copy files"@, seq![copy_files(config, source, target)]),
        plan::required("Create database"@, database::spec_create(config, target, password)),
        plan::required("Copy database"@, seq![database::shell(copy_script(db, c))]),
        plan::required(
            "Configure database in target"@,
            wordpress::spec_set_db_config(target.container(), c),
        ),
        start_container("Start PHP-FPM container"@, config, target),
    ]
}

/// Copies a site, points the copy at its own names, and serves it.
pub open spec fn clone_plan(
    config: Config,
    web: WebServer,
    source: RecordView,
    db: DbConfigView,
    target: RecordView,
    staging: bool,
    search_replace: bool,
    password: Seq<char>,
) -> Seq<StageView> {
    let copied = copy_plan(config, source, db, target, password);
    let replaced = if search_replace {
        copied.push(
            plan::required(
                "Search & replace URLs"@,
                seq![
                    wordpress::spec_search_replace(
                        target.container(),
                        source.domain,
                        target.domain,
                    ),
                ],
            ),
        )
    } else {
        copied
    };
    let hidden = if staging {
        replaced.push(
            plan::required(
                "Set blog_public to 0"@,
                seq![
                    wordpress::wp(
                        target.container(),
                        seq!["option"@, "update"@, "blog_public"@, "0"@],
                    ),
                ],
            ),
        ).push(
            plan::required(
                "Set environment type to staging"@,
                seq![
                    database::shell(
                        "docker exec "@ + target.container()
                            + " wp config set WP_ENVIRONMENT_TYPE staging --raw --allow-root"@,
                    ),
                ],
            ),
        )
    } else {
        replaced
    };
    serve(hidden, "Write Nginx vhost"@, web, target, false).push(health_check(target))
}

/// Executable form of [`copy_plan`].
fn build_copy(
    config: &Config,
    source: &SiteRecord,
    db: &DbConfig,
    target: &SiteRecord,
    password: &str,
) -> (list: Vec<Stage>)
    ensures
        plan::stages(list@) == copy_plan(*config, source@, db@, target@, password@),
{
    let domain = target.domain.as_str();
    let container = target.container_name();
    let c = database::credentials(target, password);
    let mut list = plan::no_stages();
    plan::push_stage(
        &mut list,
        plan::required_stage("Allocate system user", filesystem::ensure_user(domain, target.uid)),
    );
    plan::push_stage(
        &mut list,
        plan::required_stage(
            "Create filesystem layout",
            filesystem::create_tree(config, domain, target.uid),
        ),
    );
    let from = config.in_site(source.domain.as_str(), "public_html");
    let from = text::cat2(from.as_str(), "/");
    let to = config.in_site(domain, "public_html");
    let to = text::cat2(to.as_str(), "/");
    plan::push_stage(
        &mut list,
        plan::required_stage(
            "Copy files",
            plan::only(
                plan::run(
                    "rsync",
                    text::list10(
                        "-a",
                        "--delete",
                        "--exclude",
                        "wp-content/cache/",
                        "--exclude",
                        "wp-content/upgrade/",
                        "--exclude",
                        "*.sql",
                        from.as_str(),
                        to.as_str(),
                    ),
                ),
            ),
        ),
    );
    plan::push_stage(
        &mut list,
        plan::required_stage("Create database", database::create(config, target, password)),
    );
    let script = write_copy_script(db, &c);
    let mut tasks = plan::no_tasks();
    plan::push_task(&mut tasks, database::shell_task(script.as_str()));
    plan::push_stage(&mut list, plan::required_stage("Copy database", tasks));
    plan::push_stage(
        &mut list,
        plan::required_stage(
            "Configure database in target",
            wordpress::set_db_config(container.as_str(), &c),
        ),
    );
    plan::push_stage(&mut list, start_stage("Start PHP-FPM container", config, target));
    list
}

/// Executable form of [`clone_plan`].
pub fn build_clone(
    config: &Config,
    web: &WebServer,
    source: &SiteRecord,
    db: &DbConfig,
    target: &SiteRecord,
    staging: bool,
    search_replace: bool,
    password: &str,
) -> (list: Vec<Stage>)
    ensures
        plan::stages(list@) == clone_plan(
            *config,
            *web,
            source@,
            db@,
            target@,
            staging,
            search_replace,
            password@,
        ),
{
    let container = target.container_name();
    let container = container.as_str();
    let mut list = build_copy(config, source, db, target, password);
    if search_replace {
        let mut tasks = plan::no_tasks();
        plan::push_task(
            &mut tasks,
            wordpress::search_replace(container, source.domain.as_str(), target.domain.as_str()),
        );
        plan::push_stage(&mut list, plan::required_stage("Search & replace URLs", tasks));
    }
    if staging {
        let mut tasks = plan::no_tasks();
        plan::push_task(
            &mut tasks,
            wordpress::wp_task(container, &text::list4("option", "update", "blog_public", "0")),
        );
        plan::push_stage(&mut list, plan::required_stage("Set blog_public to 0", tasks));
        let script = text::cat3(
            "docker exec ",
            container,
            " wp config set WP_ENVIRONMENT_TYPE staging --raw --allow-root",
        );
        let mut tasks = plan::no_tasks();
        plan::push_task(&mut tasks, database::shell_task(script.as_str()));
        plan::push_stage(
            &mut list,
            plan::required_stage("Set environment type to staging", tasks),
        );
    }
    push_serve(&mut list, "Write Nginx vhost", web, target, false);
    plan::push_stage(&mut list, health_stage(target));
    list
}

} // verus!
