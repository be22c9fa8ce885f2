//! The panel never runs shell commands on a node. It sends one of the
//! operations below to the agent, which owns the privileged implementation.

use vstd::prelude::*;
use crate::clock::UtcTime;
use crate::common::error::{Error, ErrorView};
use crate::common::models::{
    Backup, BackupScope, CacheSettings, CronEventInfo, CronMode, DatabaseMode, PhpVersion,
    PluginInfo, ResourceLimits, RetentionPolicy, ServerMetrics, SiteMetricSample, SiteStatus,
    ThemeInfo, WpItemAction, WpUserInfo,
};
use crate::text;

verus! {

/// Version of the wire format. The agent refuses requests of any other.
pub const PROTOCOL_VERSION: u32 = 1;

/// The views of a list of named values.
pub open spec fn pairs(v: Seq<(String, String)>) -> Seq<(Seq<char>, Seq<char>)> {
    v.map_values(|p: (String, String)| (p.0@, p.1@))
}

/// A copy of a list of named values.
pub fn copy_pairs(v: &Vec<(String, String)>) -> (r: Vec<(String, String)>)
    ensures
        r@ == v@,
{
    let mut r: Vec<(String, String)> = Vec::new();
    let mut i: usize = 0;
    while i < v.len()
        invariant
            i <= v@.len(),
            r@ == v@.take(i as int),
        decreases v@.len() - i,
    {
        r.push((v[i].0.clone(), v[i].1.clone()));
        i += 1;
    }
    assert(v@.take(v@.len() as int) == v@);
    r
}

/// Restic backup target: repository URL, password, and environment variables
/// (AWS credentials, etc.). Passed per operation so the agent stores no
/// long-lived secrets.
#[derive(Debug)]
pub struct ResticTarget {
    pub repo: String,
    pub password: String,
    pub env: Vec<(String, String)>,
}

/// [`ResticTarget`] with its texts as sequences of characters.
pub struct ResticTargetView {
    pub repo: Seq<char>,
    pub password: Seq<char>,
    pub env: Seq<(Seq<char>, Seq<char>)>,
}

impl View for ResticTarget {
    type V = ResticTargetView;

    open spec fn view(&self) -> ResticTargetView {
        ResticTargetView {
            repo: self.repo@,
            password: self.password@,
            env: pairs(self.env@),
        }
    }
}

/// One request to an agent.
#[derive(Debug)]
pub struct OperationEnvelope {
    pub protocol_version: u32,
    /// Panel job id, echoed in agent logs so traces line up.
    pub job_id: Option<i64>,
    /// Idempotency key: replaying the same key is a no-op.
    pub request_id: String,
    pub operation: Operation,
}

/// The text form of an identifier: hexadecimal digits in groups of eight, four, four,
/// four and twelve, with hyphens between them.
pub open spec fn is_identifier(s: Seq<char>) -> bool {
    s.len() == 36 && forall|i: int|
        0 <= i < 36 ==> if i == 8 || i == 13 || i == 18 || i == 23 {
            #[trigger] s[i] == '-'
        } else {
            '0' <= s[i] <= '9' || 'a' <= s[i] <= 'f'
        }
}

/// Calls `uuid::Uuid::new_v4`, and writes the identifier out in its hyphenated form.
/// Which one is left to chance.
#[verifier::external_body]
pub(crate) fn random_id() -> (s: String)
    ensures
        is_identifier(s@),
{
    uuid::Uuid::new_v4().to_string()
}

impl OperationEnvelope {
    /// A request under a fresh key.
    pub fn new(operation: Operation) -> (e: Self)
        ensures
            e.protocol_version == PROTOCOL_VERSION,
            e.job_id is None,
            is_identifier(e.request_id@),
            e.operation == operation,
    {
        OperationEnvelope {
            protocol_version: PROTOCOL_VERSION,
            job_id: None,
            request_id: random_id(),
            operation,
        }
    }

    pub fn with_job(self, job_id: i64) -> (e: Self)
        ensures
            e == (OperationEnvelope { job_id: Some(job_id), ..self }),
    {
        OperationEnvelope {
            protocol_version: self.protocol_version,
            job_id: Some(job_id),
            request_id: self.request_id,
            operation: self.operation,
        }
    }
}

/// What the panel can ask of an agent.
#[derive(Debug)]
pub enum Operation {
    Ping,
    GetServerMetrics,
    GetSiteMetrics { site_ids: Vec<i64> },
    CreateSite(CreateSite),
    DeleteSite { site_id: i64, keep_backups: bool },
    StartSite { site_id: i64 },
    StopSite { site_id: i64 },
    RestartSite { site_id: i64 },
    GetSiteStatus { site_id: i64 },
    CloneSite(CloneSite),
    SwitchPhp { site_id: i64, version: PhpVersion },
    SetLimits { site_id: i64, limits: ResourceLimits },
    AddDomain { site_id: i64, domain: String },
    RemoveDomain { site_id: i64, domain: String },
    IssueCertificate { site_id: i64, domains: Vec<String> },
    RenewCertificate { site_id: i64 },
    SetCache { site_id: i64, settings: CacheSettings },
    ClearCache { site_id: i64 },
    /// Runs a whitelisted WP-CLI subcommand inside the site container.
    WpCli { site_id: i64, args: Vec<String> },
    InstallWordpress(InstallWordpress),
    UpdateWordpress { site_id: i64 },
    ListPlugins { site_id: i64 },
    ListThemes { site_id: i64 },
    ListWpUsers { site_id: i64 },
    ListCronEvents { site_id: i64 },
    CoreCheckUpdate { site_id: i64 },
    PluginAction { site_id: i64, slug: String, action: WpItemAction },
    ThemeAction { site_id: i64, slug: String, action: WpItemAction },
    UpdateAllPlugins { site_id: i64 },
    ResetWpPassword { site_id: i64, user_login: String },
    RunCronEvent { site_id: i64, hook: String },
    SetWpCron { site_id: i64, mode: CronMode },
    PurgeUrls { site_id: i64, urls: Vec<String> },
    CreateBackup {
        site_id: i64,
        scope: BackupScope,
        target: ResticTarget,
        retention: RetentionPolicy,
    },
    RestoreBackup { site_id: i64, snapshot_id: String, scope: BackupScope, target: ResticTarget },
    ListBackups { site_id: i64, target: ResticTarget },
    InitBackupRepo { target: ResticTarget },
    TailLogs { site_id: i64, stream: LogStream, lines: u32, grep: Option<String> },
    InspectImportSource { source: ImportSource },
    ImportSite(ImportRequest),
}

impl Operation {
    /// The name of the operation on the wire.
    pub open spec fn spec_name(self) -> Seq<char> {
        match self {
            Operation::Ping => "ping"@,
            Operation::GetServerMetrics => "get_server_metrics"@,
            Operation::GetSiteMetrics { .. } => "get_site_metrics"@,
            Operation::CreateSite(_) => "create_site"@,
            Operation::DeleteSite { .. } => "delete_site"@,
            Operation::StartSite { .. } => "start_site"@,
            Operation::StopSite { .. } => "stop_site"@,
            Operation::RestartSite { .. } => "restart_site"@,
            Operation::GetSiteStatus { .. } => "get_site_status"@,
            Operation::CloneSite(_) => "clone_site"@,
            Operation::SwitchPhp { .. } => "switch_php"@,
            Operation::SetLimits { .. } => "set_limits"@,
            Operation::AddDomain { .. } => "add_domain"@,
            Operation::RemoveDomain { .. } => "remove_domain"@,
            Operation::IssueCertificate { .. } => "issue_certificate"@,
            Operation::RenewCertificate { .. } => "renew_certificate"@,
            Operation::SetCache { .. } => "set_cache"@,
            Operation::ClearCache { .. } => "clear_cache"@,
            Operation::WpCli { .. } => "wp_cli"@,
            Operation::InstallWordpress(_) => "install_wordpress"@,
            Operation::UpdateWordpress { .. } => "update_wordpress"@,
            Operation::ListPlugins { .. } => "list_plugins"@,
            Operation::ListThemes { .. } => "list_themes"@,
            Operation::ListWpUsers { .. } => "list_wp_users"@,
            Operation::ListCronEvents { .. } => "list_cron_events"@,
            Operation::CoreCheckUpdate { .. } => "core_check_update"@,
            Operation::PluginAction { .. } => "plugin_action"@,
            Operation::ThemeAction { .. } => "theme_action"@,
            Operation::UpdateAllPlugins { .. } => "update_all_plugins"@,
            Operation::ResetWpPassword { .. } => "reset_wp_password"@,
            Operation::RunCronEvent { .. } => "run_cron_event"@,
            Operation::SetWpCron { .. } => "set_wp_cron"@,
            Operation::PurgeUrls { .. } => "purge_urls"@,
            Operation::CreateBackup { .. } => "create_backup"@,
            Operation::RestoreBackup { .. } => "restore_backup"@,
            Operation::ListBackups { .. } => "list_backups"@,
            Operation::InitBackupRepo { .. } => "init_backup_repo"@,
            Operation::TailLogs { .. } => "tail_logs"@,
            Operation::InspectImportSource { .. } => "inspect_import_source"@,
            Operation::ImportSite(_) => "import_site"@,
        }
    }

    /// The name of the operation on the wire.
    pub fn name(&self) -> (s: &'static str)
        ensures
            s@ == self.spec_name(),
    {
        match self {
            Operation::Ping => "ping",
            Operation::GetServerMetrics => "get_server_metrics",
            Operation::GetSiteMetrics { .. } => "get_site_metrics",
            Operation::CreateSite(_) => "create_site",
            Operation::DeleteSite { .. } => "delete_site",
            Operation::StartSite { .. } => "start_site",
            Operation::StopSite { .. } => "stop_site",
            Operation::RestartSite { .. } => "restart_site",
            Operation::GetSiteStatus { .. } => "get_site_status",
            Operation::CloneSite(_) => "clone_site",
            Operation::SwitchPhp { .. } => "switch_php",
            Operation::SetLimits { .. } => "set_limits",
            Operation::AddDomain { .. } => "add_domain",
            Operation::RemoveDomain { .. } => "remove_domain",
            Operation::IssueCertificate { .. } => "issue_certificate",
            Operation::RenewCertificate { .. } => "renew_certificate",
            Operation::SetCache { .. } => "set_cache",
            Operation::ClearCache { .. } => "clear_cache",
            Operation::WpCli { .. } => "wp_cli",
            Operation::InstallWordpress(_) => "install_wordpress",
            Operation::UpdateWordpress { .. } => "update_wordpress",
            Operation::ListPlugins { .. } => "list_plugins",
            Operation::ListThemes { .. } => "list_themes",
            Operation::ListWpUsers { .. } => "list_wp_users",
            Operation::ListCronEvents { .. } => "list_cron_events",
            Operation::CoreCheckUpdate { .. } => "core_check_update",
            Operation::PluginAction { .. } => "plugin_action",
            Operation::ThemeAction { .. } => "theme_action",
            Operation::UpdateAllPlugins { .. } => "update_all_plugins",
            Operation::ResetWpPassword { .. } => "reset_wp_password",
            Operation::RunCronEvent { .. } => "run_cron_event",
            Operation::SetWpCron { .. } => "set_wp_cron",
            Operation::PurgeUrls { .. } => "purge_urls",
            Operation::CreateBackup { .. } => "create_backup",
            Operation::RestoreBackup { .. } => "restore_backup",
            Operation::ListBackups { .. } => "list_backups",
            Operation::InitBackupRepo { .. } => "init_backup_repo",
            Operation::TailLogs { .. } => "tail_logs",
            Operation::InspectImportSource { .. } => "inspect_import_source",
            Operation::ImportSite(_) => "import_site",
        }
    }
}

#[derive(Debug)]
pub struct CreateSite {
    pub site_id: i64,
    pub domain: String,
    pub php_version: PhpVersion,
    pub database_mode: DatabaseMode,
    pub limits: ResourceLimits,
    pub cache: CacheSettings,
    pub install_wordpress: bool,
    pub request_ssl: bool,
    pub wordpress: Option<InstallWordpress>,
}

/// Everything the agent needs to take over an existing WordPress install.
///
/// Carries the site definition as well as the source, because an import creates
/// a site the agent has never seen.
#[derive(Debug)]
pub struct ImportRequest {
    pub site_id: i64,
    pub domain: String,
    pub php_version: PhpVersion,
    pub database_mode: DatabaseMode,
    pub limits: ResourceLimits,
    pub cache: CacheSettings,
    pub source: ImportSource,
    /// Re-run against a site the agent already manages, keeping its database
    /// and `wp-config.php` in place.
    pub resync: bool,
}

#[derive(Debug)]
pub struct InstallWordpress {
    pub site_id: i64,
    pub site_title: String,
    pub admin_user: String,
    pub admin_email: String,
    /// Generated by the panel; the agent never logs it.
    pub admin_password: String,
    pub locale: String,
}

/// [`InstallWordpress`] with its texts as sequences of characters.
pub struct InstallView {
    pub site_id: i64,
    pub site_title: Seq<char>,
    pub admin_user: Seq<char>,
    pub admin_email: Seq<char>,
    pub admin_password: Seq<char>,
    pub locale: Seq<char>,
}

impl View for InstallWordpress {
    type V = InstallView;

    open spec fn view(&self) -> InstallView {
        InstallView {
            site_id: self.site_id,
            site_title: self.site_title@,
            admin_user: self.admin_user@,
            admin_email: self.admin_email@,
            admin_password: self.admin_password@,
            locale: self.locale@,
        }
    }
}

#[derive(Debug)]
pub struct CloneSite {
    pub source_site_id: i64,
    pub source_domain: String,
    pub target_site_id: i64,
    pub target_domain: String,
    pub php_version: PhpVersion,
    /// When true, clone is treated as staging (blog_public=0, WP_ENVIRONMENT_TYPE=staging).
    pub staging: bool,
    pub search_replace: bool,
    pub request_ssl: bool,
}

#[derive(Debug)]
pub struct ImportSource {
    pub host: String,
    pub port: u16,
    pub user: String,
    pub auth: SshAuth,
    pub remote_path: String,
    pub db: Option<RemoteDb>,
}

#[derive(Debug)]
pub enum SshAuth {
    Password(String),
    PrivateKey(String),
}

#[derive(Debug)]
pub struct RemoteDb {
    pub host: String,
    pub port: u16,
    pub name: String,
    pub user: String,
    pub password: String,
}

/// The logs that can be read.
#[derive(Debug, Clone, Copy, PartialEq, Eq, Structural)]
pub enum LogStream {
    NginxAccess,
    NginxError,
    PhpError,
    PhpSlow,
    WpDebug,
    Agent,
}

impl LogStream {
    /// The name of the log, also of its file.
    pub open spec fn spec_str(self) -> Seq<char> {
        match self {
            LogStream::NginxAccess => "nginx-access"@,
            LogStream::NginxError => "nginx-error"@,
            LogStream::PhpError => "php-error"@,
            LogStream::PhpSlow => "php-slow"@,
            LogStream::WpDebug => "wp-debug"@,
            LogStream::Agent => "agent"@,
        }
    }

    /// The name of the log, also of its file.
    pub fn as_str(&self) -> (s: &'static str)
        ensures
            s@ == self.spec_str(),
    {
        match self {
            LogStream::NginxAccess => "nginx-access",
            LogStream::NginxError => "nginx-error",
            LogStream::PhpError => "php-error",
            LogStream::PhpSlow => "php-slow",
            LogStream::WpDebug => "wp-debug",
            LogStream::Agent => "agent",
        }
    }
}

// ---------------------------------------------------------------------------
// Responses
// ---------------------------------------------------------------------------

/// What an agent answers.
#[derive(Debug)]
pub struct OperationResult {
    pub success: bool,
    pub error: Option<Error>,
    pub data: OperationData,
    /// Ordered progress log the panel streams into the job view.
    pub steps: Vec<StepReport>,
}

impl OperationResult {
    /// The answer says that the operation failed with `error`, and nothing else.
    pub open spec fn is_err(self, error: ErrorView) -> bool {
        &&& !self.success
        &&& self.error matches Some(e) && e@ == error
        &&& self.data is Empty
        &&& self.steps@.len() == 0
    }

    /// The answer says that the operation succeeded and took the given steps.
    pub open spec fn is_ok(self, steps: Seq<StepReportView>) -> bool {
        &&& self.success
        &&& self.error is None
        &&& reports(self.steps@) == steps
    }

    pub fn ok(data: OperationData) -> (r: Self)
        ensures
            r.is_ok(Seq::empty()),
            r.data == data,
    {
        let steps: Vec<StepReport> = Vec::new();
        assert(reports(steps@) =~= Seq::empty());
        OperationResult { success: true, error: None, data, steps }
    }

    pub fn err(error: Error) -> (r: Self)
        ensures
            r.is_err(error@),
            r.error == Some(error),
    {
        OperationResult {
            success: false,
            error: Some(error),
            data: OperationData::Empty,
            steps: Vec::new(),
        }
    }

    pub fn with_steps(self, steps: Vec<StepReport>) -> (r: Self)
        ensures
            r == (OperationResult { steps, ..self }),
    {
        OperationResult { success: self.success, error: self.error, data: self.data, steps }
    }
}

/// What an answer carries.
#[allow(inconsistent_fields)]
#[derive(Debug)]
pub enum OperationData {
    Empty,
    Pong { agent_version: String, protocol_version: u32 },
    Metrics(ServerMetrics),
    SiteCreated { site_id: i64, container_id: String, uid: u32, db_name: String },
    SiteStatus {
        site_id: i64,
        status: SiteStatus,
        php_version: PhpVersion,
        wp_version: Option<String>,
        disk_usage_mb: u64,
    },
    Certificate { domains: Vec<String>, expires_at: UtcTime },
    Backup {
        snapshot_id: String,
        size_bytes: u64,
        /// Bytes attributable to site files, and to the database dump.
        files_bytes: u64,
        db_bytes: u64,
    },
    Backups { backups: Vec<Backup> },
    CommandOutput { stdout: String, stderr: String, exit_code: i32 },
    Lines { lines: Vec<String> },
    Plugins { plugins: Vec<PluginInfo> },
    Themes { themes: Vec<ThemeInfo> },
    WpUsers { users: Vec<WpUserInfo> },
    CronEvents { events: Vec<CronEventInfo> },
    CoreUpdate { current: String, latest: Option<String> },
    GeneratedPassword { user_login: String, password: String },
    SiteMetrics { samples: Vec<SiteMetricSample> },
    ImportInspection {
        wp_version: String,
        php_version: String,
        size_mb: u64,
        db_name: Option<String>,
        db_user: Option<String>,
    },
}

impl Default for OperationData {
    fn default() -> (d: Self)
        ensures
            d is Empty,
    {
        OperationData::Empty
    }
}

/// How one step of an operation went.
#[derive(Debug)]
pub struct StepReport {
    pub name: String,
    pub ok: bool,
    pub duration_ms: u64,
    pub detail: Option<String>,
}

/// [`StepReport`] with its texts as sequences of characters.
pub struct StepReportView {
    pub name: Seq<char>,
    pub ok: bool,
    pub duration_ms: u64,
    pub detail: Option<Seq<char>>,
}

impl View for StepReport {
    type V = StepReportView;

    open spec fn view(&self) -> StepReportView {
        StepReportView {
            name: self.name@,
            ok: self.ok,
            duration_ms: self.duration_ms,
            detail: text::text_opt(self.detail),
        }
    }
}

/// The views of a list of reports.
pub open spec fn reports(v: Seq<StepReport>) -> Seq<StepReportView> {
    v.map_values(|r: StepReport| r@)
}

impl StepReport {
    pub fn ok(name: &str, duration_ms: u64) -> (r: Self)
        ensures
            r@ == (StepReportView { name: name@, ok: true, duration_ms, detail: None }),
    {
        StepReport { name: name.to_owned(), ok: true, duration_ms, detail: None }
    }
}

} // verus!
