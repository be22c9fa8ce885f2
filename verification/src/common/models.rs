//! Domain model shared by panel and agent.

use vstd::prelude::*;
use crate::clock;
use crate::clock::UtcTime;
use crate::common::fmt;
use crate::digits;
use crate::text;

verus! {

// ---------------------------------------------------------------------------
// Servers
// ---------------------------------------------------------------------------

/// How a server was last found.
#[derive(Debug, Clone, Copy, PartialEq, Eq, Structural)]
pub enum ServerStatus {
    Provisioning,
    Online,
    Degraded,
    Offline,
}

impl ServerStatus {
    /// The string form.
    pub open spec fn spec_str(self) -> Seq<char> {
        match self {
            ServerStatus::Provisioning => "provisioning"@,
            ServerStatus::Online => "online"@,
            ServerStatus::Degraded => "degraded"@,
            ServerStatus::Offline => "offline"@,
        }
    }

    /// The string form.
    pub fn as_str(&self) -> (s: &'static str)
        ensures
            s@ == self.spec_str(),
    {
        match self {
            ServerStatus::Provisioning => "provisioning",
            ServerStatus::Online => "online",
            ServerStatus::Degraded => "degraded",
            ServerStatus::Offline => "offline",
        }
    }

    /// CSS modifier used by the status dot in the UI.
    pub open spec fn spec_tone(self) -> Seq<char> {
        match self {
            ServerStatus::Provisioning => "info"@,
            ServerStatus::Online => "ok"@,
            ServerStatus::Degraded => "warn"@,
            ServerStatus::Offline => "bad"@,
        }
    }

    /// CSS modifier used by the status dot in the UI.
    pub fn tone(&self) -> (s: &'static str)
        ensures
            s@ == self.spec_tone(),
    {
        match self {
            ServerStatus::Provisioning => "info",
            ServerStatus::Online => "ok",
            ServerStatus::Degraded => "warn",
            ServerStatus::Offline => "bad",
        }
    }
}

#[derive(Debug)]
pub struct Server {
    pub id: i64,
    pub name: String,
    /// Base URL of the agent, e.g. `https://10.0.0.4:8443`.
    pub agent_url: String,
    pub hostname: String,
    pub ip_address: String,
    pub provider: Option<String>,
    pub region: Option<String>,
    pub status: ServerStatus,
    pub agent_version: Option<String>,
    pub last_seen_at: Option<UtcTime>,
    pub created_at: UtcTime,
}

/// Live metrics reported by an agent heartbeat. The utilisation figures are held
/// as the bit patterns of single-precision numbers, which nothing here computes
/// with.
#[derive(Debug)]
pub struct ServerMetrics {
    pub cpu_percent_bits: u32,
    pub memory_percent_bits: u32,
    pub memory_total_mb: u64,
    pub disk_percent_bits: u32,
    pub disk_total_gb: u64,
    pub load_1m_bits: u32,
    pub sites: u32,
    pub containers: u32,
    pub services: Vec<ServiceHealth>,
    pub php_versions: Vec<PhpUsage>,
}

impl Default for ServerMetrics {
    /// A server of which nothing is known.
    fn default() -> (m: Self)
        ensures
            m.is_blank(),
    {
        ServerMetrics {
            cpu_percent_bits: 0,
            memory_percent_bits: 0,
            memory_total_mb: 0,
            disk_percent_bits: 0,
            disk_total_gb: 0,
            load_1m_bits: 0,
            sites: 0,
            containers: 0,
            services: Vec::new(),
            php_versions: Vec::new(),
        }
    }
}

impl ServerMetrics {
    /// Nothing is known of the server.
    pub open spec fn is_blank(self) -> bool {
        &&& self.cpu_percent_bits == 0
        &&& self.memory_percent_bits == 0
        &&& self.memory_total_mb == 0
        &&& self.disk_percent_bits == 0
        &&& self.disk_total_gb == 0
        &&& self.load_1m_bits == 0
        &&& self.sites == 0
        &&& self.containers == 0
        &&& self.services@.len() == 0
        &&& self.php_versions@.len() == 0
    }
}

#[derive(Debug)]
pub struct ServiceHealth {
    pub name: String,
    pub healthy: bool,
    pub detail: Option<String>,
}

#[derive(Debug, Clone, Copy, PartialEq, Eq, Structural)]
pub struct PhpUsage {
    pub version: PhpVersion,
    pub sites: u32,
}

// ---------------------------------------------------------------------------
// Sites
// ---------------------------------------------------------------------------

#[derive(Debug)]
pub struct Site {
    pub id: i64,
    pub server_id: i64,
    /// Primary domain, also the on-disk directory name.
    pub domain: String,
    pub title: Option<String>,
    pub status: SiteStatus,
    pub php_version: PhpVersion,
    pub wp_version: Option<String>,
    pub database_mode: DatabaseMode,
    pub limits: ResourceLimits,
    pub cache: CacheSettings,
    pub ssl: SslState,
    pub environment: Environment,
    /// The site that a staging copy was made of.
    pub parent_site_id: Option<i64>,
    /// Dedicated Linux UID/GID owning `/var/www/<domain>`.
    pub uid: u32,
    pub disk_usage_mb: u64,
    pub created_at: UtcTime,
}

/// What a site is doing.
#[derive(Debug, Clone, Copy, PartialEq, Eq, Structural)]
pub enum SiteStatus {
    Provisioning,
    Online,
    Stopped,
    Failed,
    Suspended,
}

impl SiteStatus {
    /// The string form.
    pub open spec fn spec_str(self) -> Seq<char> {
        match self {
            SiteStatus::Provisioning => "provisioning"@,
            SiteStatus::Online => "online"@,
            SiteStatus::Stopped => "stopped"@,
            SiteStatus::Failed => "failed"@,
            SiteStatus::Suspended => "suspended"@,
        }
    }

    /// The string form.
    pub fn as_str(&self) -> (s: &'static str)
        ensures
            s@ == self.spec_str(),
    {
        match self {
            SiteStatus::Provisioning => "provisioning",
            SiteStatus::Online => "online",
            SiteStatus::Stopped => "stopped",
            SiteStatus::Failed => "failed",
            SiteStatus::Suspended => "suspended",
        }
    }

    /// CSS modifier used by the status dot in the UI.
    pub open spec fn spec_tone(self) -> Seq<char> {
        match self {
            SiteStatus::Provisioning => "info"@,
            SiteStatus::Online => "ok"@,
            SiteStatus::Stopped => "muted"@,
            SiteStatus::Failed => "bad"@,
            SiteStatus::Suspended => "muted"@,
        }
    }

    /// CSS modifier used by the status dot in the UI.
    pub fn tone(&self) -> (s: &'static str)
        ensures
            s@ == self.spec_tone(),
    {
        match self {
            SiteStatus::Provisioning => "info",
            SiteStatus::Online => "ok",
            SiteStatus::Stopped => "muted",
            SiteStatus::Failed => "bad",
            SiteStatus::Suspended => "muted",
        }
    }
}

/// What a site is for.
#[derive(Debug, Clone, Copy, PartialEq, Eq, Structural)]
pub enum Environment {
    Production,
    Staging,
}

impl Environment {
    /// The string form.
    pub open spec fn spec_str(self) -> Seq<char> {
        match self {
            Environment::Production => "production"@,
            Environment::Staging => "staging"@,
        }
    }

    /// The string form.
    pub fn as_str(&self) -> (s: &'static str)
        ensures
            s@ == self.spec_str(),
    {
        match self {
            Environment::Production => "production",
            Environment::Staging => "staging",
        }
    }
}

/// The PHP versions that a site can run on.
#[derive(Debug, Clone, Copy, PartialEq, Eq, PartialOrd, Ord, Hash, Structural)]
pub enum PhpVersion {
    Php81,
    Php82,
    Php83,
    Php84,
}

impl PhpVersion {
    /// The string form.
    pub open spec fn spec_str(self) -> Seq<char> {
        match self {
            PhpVersion::Php81 => "8.1"@,
            PhpVersion::Php82 => "8.2"@,
            PhpVersion::Php83 => "8.3"@,
            PhpVersion::Php84 => "8.4"@,
        }
    }

    /// The string form.
    pub fn as_str(&self) -> (s: &'static str)
        ensures
            s@ == self.spec_str(),
    {
        match self {
            PhpVersion::Php81 => "8.1",
            PhpVersion::Php82 => "8.2",
            PhpVersion::Php83 => "8.3",
            PhpVersion::Php84 => "8.4",
        }
    }

    /// The value that `s` is the string form of.
    pub open spec fn spec_parse(s: Seq<char>) -> Option<Self> {
        if s == "8.1"@ {
            Some(PhpVersion::Php81)
        } else if s == "8.2"@ {
            Some(PhpVersion::Php82)
        } else if s == "8.3"@ {
            Some(PhpVersion::Php83)
        } else if s == "8.4"@ {
            Some(PhpVersion::Php84)
        } else {
            None
        }
    }

    /// The value that `s` is the string form of.
    pub fn parse(s: &str) -> (r: Option<Self>)
        ensures
            r == Self::spec_parse(s@),
    {
        if text::same(s, "8.1") {
            return Some(PhpVersion::Php81);
        }
        if text::same(s, "8.2") {
            return Some(PhpVersion::Php82);
        }
        if text::same(s, "8.3") {
            return Some(PhpVersion::Php83);
        }
        if text::same(s, "8.4") {
            return Some(PhpVersion::Php84);
        }
        None
    }

    /// Every version, oldest first.
    pub open spec fn spec_all() -> Seq<PhpVersion> {
        seq![PhpVersion::Php81, PhpVersion::Php82, PhpVersion::Php83, PhpVersion::Php84]
    }

    /// Every version, oldest first.
    pub fn all() -> (v: Vec<PhpVersion>)
        ensures
            v@ == PhpVersion::spec_all(),
    {
        let v = vec![PhpVersion::Php81, PhpVersion::Php82, PhpVersion::Php83, PhpVersion::Php84];
        assert(v@ =~= PhpVersion::spec_all());
        v
    }

    /// Upstream image the agent pulls for this version.
    pub fn image(&self) -> (s: String)
        ensures
            s@ == "wp-panel/php-fpm:"@ + self.spec_str(),
    {
        text::cat2("wp-panel/php-fpm:", self.as_str())
    }

    /// Whether two versions are the same.
    pub fn same(&self, other: &PhpVersion) -> (r: bool)
        ensures
            r == (*self == *other),
    {
        *self == *other
    }
}

/// Every PHP version is read back from its string form.
pub proof fn law_php_version_is_read_back(v: PhpVersion)
    ensures
        PhpVersion::spec_parse(v.spec_str()) == Some(v),
{
    reveal_strlit("8.1");
    reveal_strlit("8.2");
    reveal_strlit("8.3");
    reveal_strlit("8.4");
    assert("8.1"@.len() == 3 && "8.1"@[2] == '1');
    assert("8.2"@.len() == 3 && "8.2"@[2] == '2');
    assert("8.3"@.len() == 3 && "8.3"@[2] == '3');
    assert("8.4"@.len() == 3 && "8.4"@[2] == '4');
}

/// Where the database of a site lives.
#[derive(Debug, Clone, Copy, PartialEq, Eq, Structural)]
pub enum DatabaseMode {
    /// Shared MariaDB on the host, one schema + user per site.
    Shared,
    /// Dedicated MariaDB container per site.
    Dedicated,
}

impl DatabaseMode {
    /// The string form.
    pub open spec fn spec_str(self) -> Seq<char> {
        match self {
            DatabaseMode::Shared => "shared"@,
            DatabaseMode::Dedicated => "dedicated"@,
        }
    }

    /// The string form.
    pub fn as_str(&self) -> (s: &'static str)
        ensures
            s@ == self.spec_str(),
    {
        match self {
            DatabaseMode::Shared => "shared",
            DatabaseMode::Dedicated => "dedicated",
        }
    }

    /// Human readable label.
    pub open spec fn spec_label(self) -> Seq<char> {
        match self {
            DatabaseMode::Shared => "Shared server"@,
            DatabaseMode::Dedicated => "Dedicated container"@,
        }
    }

    /// Human readable label.
    pub fn label(&self) -> (s: &'static str)
        ensures
            s@ == self.spec_label(),
    {
        match self {
            DatabaseMode::Shared => "Shared server",
            DatabaseMode::Dedicated => "Dedicated container",
        }
    }
}

/// What a site's container may use. Processor time is counted in hundredths of a
/// core, the precision that containers are given it in.
#[derive(Debug, Clone, Copy, PartialEq, Eq, Structural)]
pub struct ResourceLimits {
    pub cpu_hundredths: u32,
    pub memory_mb: u32,
    pub php_workers: u16,
}

impl ResourceLimits {
    /// The share of the processor, in cores with two decimals.
    pub open spec fn cpus(self) -> Seq<char> {
        digits::dec((self.cpu_hundredths / 100) as nat) + "."@ + digits::dec2(
            (self.cpu_hundredths % 100) as nat,
        )
    }

    /// Executable form of [`ResourceLimits::cpus`].
    pub fn cpus_text(&self) -> (s: String)
        ensures
            s@ == self.cpus(),
    {
        let whole = digits::dec_u64((self.cpu_hundredths / 100) as u64);
        let part = digits::dec2_u64((self.cpu_hundredths % 100) as u64);
        text::cat3(whole.as_str(), ".", part.as_str())
    }

    /// The limits that a site gets where none are asked for.
    pub open spec fn standard() -> ResourceLimits {
        ResourceLimits { cpu_hundredths: 100, memory_mb: 1024, php_workers: 8 }
    }
}

impl Default for ResourceLimits {
    fn default() -> (r: Self)
        ensures
            r == ResourceLimits::standard(),
    {
        ResourceLimits { cpu_hundredths: 100, memory_mb: 1024, php_workers: 8 }
    }
}

#[derive(Debug, Clone, Copy, PartialEq, Eq, Structural)]
pub struct CacheSettings {
    pub fastcgi_cache: bool,
    /// Cache lifetime in seconds.
    pub ttl_seconds: u32,
    pub redis_object_cache: bool,
    pub opcache: bool,
    pub brotli: bool,
}

impl CacheSettings {
    /// The settings that a site gets where none are asked for.
    pub open spec fn standard() -> CacheSettings {
        CacheSettings {
            fastcgi_cache: true,
            ttl_seconds: 3600,
            redis_object_cache: false,
            opcache: true,
            brotli: true,
        }
    }
}

impl Default for CacheSettings {
    fn default() -> (r: Self)
        ensures
            r == CacheSettings::standard(),
    {
        CacheSettings {
            fastcgi_cache: true,
            ttl_seconds: 3600,
            redis_object_cache: false,
            opcache: true,
            brotli: true,
        }
    }
}

#[derive(Debug, Clone, Copy, PartialEq, Eq, Structural)]
pub struct SslState {
    pub enabled: bool,
    pub issuer: SslIssuer,
    pub expires_at: Option<UtcTime>,
    pub auto_renew: bool,
}

impl Default for SslState {
    fn default() -> (r: Self)
        ensures
            !r.enabled,
            r.issuer == SslIssuer::LetsEncrypt,
            r.expires_at is None,
            r.auto_renew,
    {
        SslState {
            enabled: false,
            issuer: SslIssuer::LetsEncrypt,
            expires_at: None,
            auto_renew: true,
        }
    }
}

/// Who issued a certificate.
#[derive(Debug, Clone, Copy, PartialEq, Eq, Structural)]
pub enum SslIssuer {
    /// The string form is what the panel database stores.
    LetsEncrypt,
    Custom,
    Absent,
}

impl SslIssuer {
    /// The string form.
    pub open spec fn spec_str(self) -> Seq<char> {
        match self {
            SslIssuer::LetsEncrypt => "letsencrypt"@,
            SslIssuer::Custom => "custom"@,
            SslIssuer::Absent => "none"@,
        }
    }

    /// The string form.
    pub fn as_str(&self) -> (s: &'static str)
        ensures
            s@ == self.spec_str(),
    {
        match self {
            SslIssuer::LetsEncrypt => "letsencrypt",
            SslIssuer::Custom => "custom",
            SslIssuer::Absent => "none",
        }
    }
}

#[derive(Debug)]
pub struct Domain {
    pub id: i64,
    pub site_id: i64,
    pub name: String,
    pub primary: bool,
    pub redirect_to_primary: bool,
    pub dns_ok: bool,
}

// ---------------------------------------------------------------------------
// WordPress
// ---------------------------------------------------------------------------

#[derive(Debug)]
pub struct PluginInfo {
    pub name: String,
    pub slug: String,
    pub status: String,
    pub version: String,
    pub update_version: Option<String>,
    pub auto_update: bool,
}

#[derive(Debug)]
pub struct ThemeInfo {
    pub name: String,
    pub slug: String,
    pub status: String,
    pub version: String,
    pub update_version: Option<String>,
}

#[derive(Debug)]
pub struct WpUserInfo {
    pub id: i64,
    pub login: String,
    pub email: String,
    pub role: String,
}

#[derive(Debug)]
pub struct CronEventInfo {
    pub hook: String,
    pub next_run_relative: String,
    pub schedule: String,
}

/// One reading of a site's container. Figures with a fraction are held as bit
/// patterns: single precision for the load, double for the ratio.
#[derive(Debug, Clone, Copy, PartialEq, Eq, Structural)]
pub struct SiteMetricSample {
    pub site_id: i64,
    pub cpu_percent_bits: u32,
    pub memory_mb: u64,
    pub php_busy_workers: u32,
    pub cache_hit_ratio_bits: Option<u64>,
}

/// What can be done to a plugin or a theme.
#[derive(Debug, Clone, Copy, PartialEq, Eq, Structural)]
pub enum WpItemAction {
    Activate,
    Deactivate,
    Update,
    Delete,
}

impl WpItemAction {
    /// The WP-CLI verb.
    pub open spec fn spec_str(self) -> Seq<char> {
        match self {
            WpItemAction::Activate => "activate"@,
            WpItemAction::Deactivate => "deactivate"@,
            WpItemAction::Update => "update"@,
            WpItemAction::Delete => "delete"@,
        }
    }

    /// The WP-CLI verb.
    pub fn as_str(&self) -> (s: &'static str)
        ensures
            s@ == self.spec_str(),
    {
        match self {
            WpItemAction::Activate => "activate",
            WpItemAction::Deactivate => "deactivate",
            WpItemAction::Update => "update",
            WpItemAction::Delete => "delete",
        }
    }
}

/// Who runs the scheduled events of a site.
#[derive(Debug, Clone, Copy, PartialEq, Eq, Structural)]
pub enum CronMode {
    /// WordPress itself, on page views.
    WpCron,
    /// The cron daemon of the host.
    SystemCron,
}

impl CronMode {
    /// The string form.
    pub open spec fn spec_str(self) -> Seq<char> {
        match self {
            CronMode::WpCron => "wp_cron"@,
            CronMode::SystemCron => "system_cron"@,
        }
    }

    /// The string form.
    pub fn as_str(&self) -> (s: &'static str)
        ensures
            s@ == self.spec_str(),
    {
        match self {
            CronMode::WpCron => "wp_cron",
            CronMode::SystemCron => "system_cron",
        }
    }
}

// ---------------------------------------------------------------------------
// Jobs
// ---------------------------------------------------------------------------

#[derive(Debug)]
pub struct Job {
    pub id: i64,
    pub server_id: Option<i64>,
    pub site_id: Option<i64>,
    pub kind: JobKind,
    pub status: JobStatus,
    /// 0-100.
    pub progress: u8,
    pub message: String,
    pub error: Option<String>,
    pub created_at: UtcTime,
    pub started_at: Option<UtcTime>,
    pub finished_at: Option<UtcTime>,
}

/// How far a job is.
#[derive(Debug, Clone, Copy, PartialEq, Eq, Structural)]
pub enum JobStatus {
    Queued,
    Running,
    Succeeded,
    Failed,
    Cancelled,
}

impl JobStatus {
    /// The string form.
    pub open spec fn spec_str(self) -> Seq<char> {
        match self {
            JobStatus::Queued => "queued"@,
            JobStatus::Running => "running"@,
            JobStatus::Succeeded => "succeeded"@,
            JobStatus::Failed => "failed"@,
            JobStatus::Cancelled => "cancelled"@,
        }
    }

    /// The string form.
    pub fn as_str(&self) -> (s: &'static str)
        ensures
            s@ == self.spec_str(),
    {
        match self {
            JobStatus::Queued => "queued",
            JobStatus::Running => "running",
            JobStatus::Succeeded => "succeeded",
            JobStatus::Failed => "failed",
            JobStatus::Cancelled => "cancelled",
        }
    }

    /// CSS modifier used by the status dot in the UI.
    pub open spec fn spec_tone(self) -> Seq<char> {
        match self {
            JobStatus::Queued => "muted"@,
            JobStatus::Running => "info"@,
            JobStatus::Succeeded => "ok"@,
            JobStatus::Failed => "bad"@,
            JobStatus::Cancelled => "warn"@,
        }
    }

    /// CSS modifier used by the status dot in the UI.
    pub fn tone(&self) -> (s: &'static str)
        ensures
            s@ == self.spec_tone(),
    {
        match self {
            JobStatus::Queued => "muted",
            JobStatus::Running => "info",
            JobStatus::Succeeded => "ok",
            JobStatus::Failed => "bad",
            JobStatus::Cancelled => "warn",
        }
    }

    /// Nothing more happens to the job.
    pub open spec fn spec_terminal(self) -> bool {
        self is Succeeded || self is Failed || self is Cancelled
    }
}

/// Every long-running action is a job. The string form is what is persisted
/// and displayed (`site.create`, `backup.restore`, ...).
#[derive(Debug, Clone, Copy, PartialEq, Eq, Structural)]
pub enum JobKind {
    SiteCreate,
    SiteDelete,
    SiteClone,
    SiteStart,
    SiteStop,
    SiteRestart,
    PhpSwitch,
    WordpressInstall,
    WordpressUpdate,
    BackupCreate,
    BackupRestore,
    SslIssue,
    SslRenew,
    CacheClear,
    StagingCreate,
    StagingPush,
    PluginAction,
    PluginUpdateAll,
    ThemeAction,
    WpUserPasswordReset,
    CronRun,
    CronModeSet,
    ImportRun,
}

impl JobKind {
    /// The string form.
    pub open spec fn spec_str(self) -> Seq<char> {
        match self {
            JobKind::SiteCreate => "site.create"@,
            JobKind::SiteDelete => "site.delete"@,
            JobKind::SiteClone => "site.clone"@,
            JobKind::SiteStart => "site.start"@,
            JobKind::SiteStop => "site.stop"@,
            JobKind::SiteRestart => "site.restart"@,
            JobKind::PhpSwitch => "php.switch"@,
            JobKind::WordpressInstall => "wordpress.install"@,
            JobKind::WordpressUpdate => "wordpress.update"@,
            JobKind::BackupCreate => "backup.create"@,
            JobKind::BackupRestore => "backup.restore"@,
            JobKind::SslIssue => "ssl.issue"@,
            JobKind::SslRenew => "ssl.renew"@,
            JobKind::CacheClear => "cache.clear"@,
            JobKind::StagingCreate => "staging.create"@,
            JobKind::StagingPush => "staging.push"@,
            JobKind::PluginAction => "plugin.action"@,
            JobKind::PluginUpdateAll => "plugin.update_all"@,
            JobKind::ThemeAction => "theme.action"@,
            JobKind::WpUserPasswordReset => "wp_user.password_reset"@,
            JobKind::CronRun => "cron.run"@,
            JobKind::CronModeSet => "cron.mode_set"@,
            JobKind::ImportRun => "import.run"@,
        }
    }

    /// The string form.
    pub fn as_str(&self) -> (s: &'static str)
        ensures
            s@ == self.spec_str(),
    {
        match self {
            JobKind::SiteCreate => "site.create",
            JobKind::SiteDelete => "site.delete",
            JobKind::SiteClone => "site.clone",
            JobKind::SiteStart => "site.start",
            JobKind::SiteStop => "site.stop",
            JobKind::SiteRestart => "site.restart",
            JobKind::PhpSwitch => "php.switch",
            JobKind::WordpressInstall => "wordpress.install",
            JobKind::WordpressUpdate => "wordpress.update",
            JobKind::BackupCreate => "backup.create",
            JobKind::BackupRestore => "backup.restore",
            JobKind::SslIssue => "ssl.issue",
            JobKind::SslRenew => "ssl.renew",
            JobKind::CacheClear => "cache.clear",
            JobKind::StagingCreate => "staging.create",
            JobKind::StagingPush => "staging.push",
            JobKind::PluginAction => "plugin.action",
            JobKind::PluginUpdateAll => "plugin.update_all",
            JobKind::ThemeAction => "theme.action",
            JobKind::WpUserPasswordReset => "wp_user.password_reset",
            JobKind::CronRun => "cron.run",
            JobKind::CronModeSet => "cron.mode_set",
            JobKind::ImportRun => "import.run",
        }
    }

    /// Human readable label used in the jobs list.
    pub open spec fn spec_label(self) -> Seq<char> {
        match self {
            JobKind::SiteCreate => "Create site"@,
            JobKind::SiteDelete => "Delete site"@,
            JobKind::SiteClone => "Clone site"@,
            JobKind::SiteStart => "Start site"@,
            JobKind::SiteStop => "Stop site"@,
            JobKind::SiteRestart => "Restart site"@,
            JobKind::PhpSwitch => "Switch PHP version"@,
            JobKind::WordpressInstall => "Install WordPress"@,
            JobKind::WordpressUpdate => "Update WordPress"@,
            JobKind::BackupCreate => "Create backup"@,
            JobKind::BackupRestore => "Restore backup"@,
            JobKind::SslIssue => "Issue certificate"@,
            JobKind::SslRenew => "Renew certificate"@,
            JobKind::CacheClear => "Clear cache"@,
            JobKind::StagingCreate => "Create staging"@,
            JobKind::StagingPush => "Push staging to production"@,
            JobKind::PluginAction => "Manage plugin"@,
            JobKind::PluginUpdateAll => "Update all plugins"@,
            JobKind::ThemeAction => "Manage theme"@,
            JobKind::WpUserPasswordReset => "Reset WordPress password"@,
            JobKind::CronRun => "Run cron event"@,
            JobKind::CronModeSet => "Set cron mode"@,
            JobKind::ImportRun => "Import site"@,
        }
    }

    /// Human readable label used in the jobs list.
    pub fn label(&self) -> (s: &'static str)
        ensures
            s@ == self.spec_label(),
    {
        match self {
            JobKind::SiteCreate => "Create site",
            JobKind::SiteDelete => "Delete site",
            JobKind::SiteClone => "Clone site",
            JobKind::SiteStart => "Start site",
            JobKind::SiteStop => "Stop site",
            JobKind::SiteRestart => "Restart site",
            JobKind::PhpSwitch => "Switch PHP version",
            JobKind::WordpressInstall => "Install WordPress",
            JobKind::WordpressUpdate => "Update WordPress",
            JobKind::BackupCreate => "Create backup",
            JobKind::BackupRestore => "Restore backup",
            JobKind::SslIssue => "Issue certificate",
            JobKind::SslRenew => "Renew certificate",
            JobKind::CacheClear => "Clear cache",
            JobKind::StagingCreate => "Create staging",
            JobKind::StagingPush => "Push staging to production",
            JobKind::PluginAction => "Manage plugin",
            JobKind::PluginUpdateAll => "Update all plugins",
            JobKind::ThemeAction => "Manage theme",
            JobKind::WpUserPasswordReset => "Reset WordPress password",
            JobKind::CronRun => "Run cron event",
            JobKind::CronModeSet => "Set cron mode",
            JobKind::ImportRun => "Import site",
        }
    }

    /// The value that `s` is the string form of.
    pub open spec fn spec_parse(s: Seq<char>) -> Option<Self> {
        if s == "site.create"@ {
            Some(JobKind::SiteCreate)
        } else if s == "site.delete"@ {
            Some(JobKind::SiteDelete)
        } else if s == "site.clone"@ {
            Some(JobKind::SiteClone)
        } else if s == "site.start"@ {
            Some(JobKind::SiteStart)
        } else if s == "site.stop"@ {
            Some(JobKind::SiteStop)
        } else if s == "site.restart"@ {
            Some(JobKind::SiteRestart)
        } else if s == "php.switch"@ {
            Some(JobKind::PhpSwitch)
        } else if s == "wordpress.install"@ {
            Some(JobKind::WordpressInstall)
        } else if s == "wordpress.update"@ {
            Some(JobKind::WordpressUpdate)
        } else if s == "backup.create"@ {
            Some(JobKind::BackupCreate)
        } else if s == "backup.restore"@ {
            Some(JobKind::BackupRestore)
        } else if s == "ssl.issue"@ {
            Some(JobKind::SslIssue)
        } else if s == "ssl.renew"@ {
            Some(JobKind::SslRenew)
        } else if s == "cache.clear"@ {
            Some(JobKind::CacheClear)
        } else if s == "staging.create"@ {
            Some(JobKind::StagingCreate)
        } else if s == "staging.push"@ {
            Some(JobKind::StagingPush)
        } else if s == "plugin.action"@ {
            Some(JobKind::PluginAction)
        } else if s == "plugin.update_all"@ {
            Some(JobKind::PluginUpdateAll)
        } else if s == "theme.action"@ {
            Some(JobKind::ThemeAction)
        } else if s == "wp_user.password_reset"@ {
            Some(JobKind::WpUserPasswordReset)
        } else if s == "cron.run"@ {
            Some(JobKind::CronRun)
        } else if s == "cron.mode_set"@ {
            Some(JobKind::CronModeSet)
        } else if s == "import.run"@ {
            Some(JobKind::ImportRun)
        } else {
            None
        }
    }

    /// The value that `s` is the string form of.
    pub fn parse(s: &str) -> (r: Option<Self>)
        ensures
            r == Self::spec_parse(s@),
    {
        if text::same(s, "site.create") {
            return Some(JobKind::SiteCreate);
        }
        if text::same(s, "site.delete") {
            return Some(JobKind::SiteDelete);
        }
        if text::same(s, "site.clone") {
            return Some(JobKind::SiteClone);
        }
        if text::same(s, "site.start") {
            return Some(JobKind::SiteStart);
        }
        if text::same(s, "site.stop") {
            return Some(JobKind::SiteStop);
        }
        if text::same(s, "site.restart") {
            return Some(JobKind::SiteRestart);
        }
        if text::same(s, "php.switch") {
            return Some(JobKind::PhpSwitch);
        }
        if text::same(s, "wordpress.install") {
            return Some(JobKind::WordpressInstall);
        }
        if text::same(s, "wordpress.update") {
            return Some(JobKind::WordpressUpdate);
        }
        if text::same(s, "backup.create") {
            return Some(JobKind::BackupCreate);
        }
        if text::same(s, "backup.restore") {
            return Some(JobKind::BackupRestore);
        }
        if text::same(s, "ssl.issue") {
            return Some(JobKind::SslIssue);
        }
        if text::same(s, "ssl.renew") {
            return Some(JobKind::SslRenew);
        }
        if text::same(s, "cache.clear") {
            return Some(JobKind::CacheClear);
        }
        if text::same(s, "staging.create") {
            return Some(JobKind::StagingCreate);
        }
        if text::same(s, "staging.push") {
            return Some(JobKind::StagingPush);
        }
        if text::same(s, "plugin.action") {
            return Some(JobKind::PluginAction);
        }
        if text::same(s, "plugin.update_all") {
            return Some(JobKind::PluginUpdateAll);
        }
        if text::same(s, "theme.action") {
            return Some(JobKind::ThemeAction);
        }
        if text::same(s, "wp_user.password_reset") {
            return Some(JobKind::WpUserPasswordReset);
        }
        if text::same(s, "cron.run") {
            return Some(JobKind::CronRun);
        }
        if text::same(s, "cron.mode_set") {
            return Some(JobKind::CronModeSet);
        }
        if text::same(s, "import.run") {
            return Some(JobKind::ImportRun);
        }
        None
    }
}

/// Every kind of job is read back from its string form.
pub proof fn law_job_kind_is_read_back(v: JobKind)
    ensures
        JobKind::spec_parse(v.spec_str()) == Some(v),
{
    reveal_strlit("site.create");
    reveal_strlit("site.delete");
    reveal_strlit("site.clone");
    reveal_strlit("site.start");
    reveal_strlit("site.stop");
    reveal_strlit("site.restart");
    reveal_strlit("php.switch");
    reveal_strlit("wordpress.install");
    reveal_strlit("wordpress.update");
    reveal_strlit("backup.create");
    reveal_strlit("backup.restore");
    reveal_strlit("ssl.issue");
    reveal_strlit("ssl.renew");
    reveal_strlit("cache.clear");
    reveal_strlit("staging.create");
    reveal_strlit("staging.push");
    reveal_strlit("plugin.action");
    reveal_strlit("plugin.update_all");
    reveal_strlit("theme.action");
    reveal_strlit("wp_user.password_reset");
    reveal_strlit("cron.run");
    reveal_strlit("cron.mode_set");
    reveal_strlit("import.run");
    assert("site.create"@.len() == 11 && "site.create"@[0] == 's' && "site.create"@[6] == 'r');
    assert("site.delete"@.len() == 11 && "site.delete"@[0] == 's' && "site.delete"@[6] == 'e');
    assert("site.clone"@.len() == 10 && "site.clone"@[0] == 's' && "site.clone"@[6] == 'l');
    assert("site.start"@.len() == 10 && "site.start"@[0] == 's' && "site.start"@[6] == 't');
    assert("site.stop"@.len() == 9 && "site.stop"@[0] == 's' && "site.stop"@[6] == 't');
    assert("site.restart"@.len() == 12 && "site.restart"@[0] == 's' && "site.restart"@[6] == 'e');
    assert("php.switch"@.len() == 10 && "php.switch"@[0] == 'p' && "php.switch"@[6] == 'i');
    assert("wordpress.install"@.len() == 17 && "wordpress.install"@[0] == 'w' && "wordpress.install"@[6] == 'e');
    assert("wordpress.update"@.len() == 16 && "wordpress.update"@[0] == 'w' && "wordpress.update"@[6] == 'e');
    assert("backup.create"@.len() == 13 && "backup.create"@[0] == 'b' && "backup.create"@[6] == '.');
    assert("backup.restore"@.len() == 14 && "backup.restore"@[0] == 'b' && "backup.restore"@[6] == '.');
    assert("ssl.issue"@.len() == 9 && "ssl.issue"@[0] == 's' && "ssl.issue"@[6] == 's');
    assert("ssl.renew"@.len() == 9 && "ssl.renew"@[0] == 's' && "ssl.renew"@[6] == 'n');
    assert("cache.clear"@.len() == 11 && "cache.clear"@[0] == 'c' && "cache.clear"@[6] == 'c');
    assert("staging.create"@.len() == 14 && "staging.create"@[0] == 's' && "staging.create"@[6] == 'g');
    assert("staging.push"@.len() == 12 && "staging.push"@[0] == 's' && "staging.push"@[6] == 'g');
    assert("plugin.action"@.len() == 13 && "plugin.action"@[0] == 'p' && "plugin.action"@[6] == '.');
    assert("plugin.update_all"@.len() == 17 && "plugin.update_all"@[0] == 'p' && "plugin.update_all"@[6] == '.');
    assert("theme.action"@.len() == 12 && "theme.action"@[0] == 't' && "theme.action"@[6] == 'a');
    assert("wp_user.password_reset"@.len() == 22 && "wp_user.password_reset"@[0] == 'w' && "wp_user.password_reset"@[6] == 'r');
    assert("cron.run"@.len() == 8 && "cron.run"@[0] == 'c' && "cron.run"@[6] == 'u');
    assert("cron.mode_set"@.len() == 13 && "cron.mode_set"@[0] == 'c' && "cron.mode_set"@[6] == 'o');
    assert("import.run"@.len() == 10 && "import.run"@[0] == 'i' && "import.run"@[6] == '.');
}

/// A persisted job step, as shown in the job timeline.
#[derive(Debug)]
pub struct StepView {
    pub name: String,
    pub ok: bool,
    pub duration_ms: u64,
    pub detail: Option<String>,
    pub created_at: UtcTime,
}

// ---------------------------------------------------------------------------
// Backups
// ---------------------------------------------------------------------------

#[derive(Debug)]
pub struct Backup {
    pub id: i64,
    pub site_id: i64,
    /// Restic snapshot id.
    pub snapshot_id: String,
    pub size_bytes: u64,
    pub scope: BackupScope,
    pub destination: String,
    pub created_at: UtcTime,
}

/// What a backup holds.
#[derive(Debug, Clone, Copy, PartialEq, Eq, Structural)]
pub enum BackupScope {
    Full,
    FilesOnly,
    DatabaseOnly,
}

impl BackupScope {
    /// The string form.
    pub open spec fn spec_str(self) -> Seq<char> {
        match self {
            BackupScope::Full => "full"@,
            BackupScope::FilesOnly => "files"@,
            BackupScope::DatabaseOnly => "database"@,
        }
    }

    /// The string form.
    pub fn as_str(&self) -> (s: &'static str)
        ensures
            s@ == self.spec_str(),
    {
        match self {
            BackupScope::Full => "full",
            BackupScope::FilesOnly => "files",
            BackupScope::DatabaseOnly => "database",
        }
    }

    /// The scope that a stored string stands for; anything unknown is a full backup.
    pub open spec fn spec_from_tag(s: Seq<char>) -> BackupScope {
        if s == "files"@ {
            BackupScope::FilesOnly
        } else if s == "database"@ {
            BackupScope::DatabaseOnly
        } else {
            BackupScope::Full
        }
    }

    /// The scope that a stored string stands for; anything unknown is a full backup.
    pub fn from_tag(s: &str) -> (r: BackupScope)
        ensures
            r == BackupScope::spec_from_tag(s@),
    {
        if text::same(s, "files") {
            BackupScope::FilesOnly
        } else if text::same(s, "database") {
            BackupScope::DatabaseOnly
        } else {
            BackupScope::Full
        }
    }
}

#[derive(Debug, Clone, Copy, PartialEq, Eq, Structural)]
pub struct RetentionPolicy {
    pub hourly: u16,
    pub daily: u16,
    pub weekly: u16,
    pub monthly: u16,
}

impl RetentionPolicy {
    /// How many snapshots are kept where nothing else is asked for.
    pub open spec fn standard() -> RetentionPolicy {
        RetentionPolicy { hourly: 24, daily: 14, weekly: 8, monthly: 12 }
    }
}

impl Default for RetentionPolicy {
    fn default() -> (r: Self)
        ensures
            r == RetentionPolicy::standard(),
    {
        RetentionPolicy { hourly: 24, daily: 14, weekly: 8, monthly: 12 }
    }
}

// ---------------------------------------------------------------------------
// Audit log
// ---------------------------------------------------------------------------

#[derive(Debug)]
pub struct AuditEntry {
    pub id: i64,
    pub actor: String,
    pub action: String,
    pub target: String,
    pub detail: Option<String>,
    pub success: bool,
    pub created_at: UtcTime,
}

// ---------------------------------------------------------------------------
// Names derived from a domain
// ---------------------------------------------------------------------------

/// The container that serves a domain.
pub open spec fn container_name_of(domain: Seq<char>) -> Seq<char> {
    "wp-"@ + text::swap(domain, '.', '-')
}

/// A domain with everything but ASCII letters and digits turned into underscores.
pub open spec fn plain_of(domain: Seq<char>) -> Seq<char> {
    domain.map_values(|c: char| if text::is_alnum(c) { c } else { '_' })
}

/// `example.com` -> `wp_example_com`, a valid Linux user and MySQL identifier.
pub open spec fn identifier_of(domain: Seq<char>) -> Seq<char> {
    "wp_"@ + text::lowered(text::trim(plain_of(domain), text::Class::Is('_')))
}

/// Executable form of [`container_name_of`].
pub fn container_name(domain: &str) -> (s: String)
    ensures
        s@ == container_name_of(domain@),
{
    let d = text::swapped(domain, '.', '-');
    text::cat2("wp-", d.as_str())
}

/// Executable form of [`identifier_of`].
pub fn identifier(domain: &str) -> (s: String)
    ensures
        s@ == identifier_of(domain@),
{
    let cs = text::chars_of(domain);
    let mut plain: Vec<char> = Vec::new();
    let mut i: usize = 0;
    while i < cs.len()
        invariant
            cs@ == domain@,
            i <= cs@.len(),
            plain@ =~= plain_of(domain@).take(i as int),
        decreases cs@.len() - i,
    {
        plain.push(if text::alnum(cs[i]) { cs[i] } else { '_' });
        i += 1;
    }
    assert(plain@ =~= plain_of(domain@));
    let kept = text::trimmed(plain.as_slice(), text::Class::Is('_'));
    let small = text::lowered_chars(kept);
    text::cat2("wp_", small.as_str())
}

// ---------------------------------------------------------------------------
// Labels
// ---------------------------------------------------------------------------

impl Server {
    /// How the last sign of life is shown at `now`.
    pub open spec fn spec_last_seen_label(self, now: UtcTime) -> Seq<char> {
        match self.last_seen_at {
            Some(seen) => fmt::spec_relative(now, seen),
            None => "never"@,
        }
    }

    pub fn last_seen_label(&self) -> (s: String)
        requires
            self.last_seen_at matches Some(t) ==> t.wf(),
        ensures
            exists|now: UtcTime| now.wf() && s@ == #[trigger] self.spec_last_seen_label(now),
    {
        let now = clock::now();
        let s = match &self.last_seen_at {
            Some(seen) => fmt::relative_at(&now, seen),
            None => "never".to_owned(),
        };
        assert(s@ == self.spec_last_seen_label(now));
        s
    }

    pub fn location_label(&self) -> (s: String)
        ensures
            s@ == match (self.provider, self.region) {
                (Some(provider), Some(region)) => provider@ + " · "@ + region@,
                (Some(provider), None) => provider@,
                (None, Some(region)) => region@,
                (None, None) => "—"@,
            },
    {
        match (&self.provider, &self.region) {
            (Some(provider), Some(region)) => text::cat3(provider.as_str(), " · ", region.as_str()),
            (Some(provider), None) => provider.clone(),
            (None, Some(region)) => region.clone(),
            (None, None) => "—".to_owned(),
        }
    }

    pub fn created_label(&self) -> (s: String)
        requires
            self.created_at.wf(),
        ensures
            exists|now: UtcTime|
                now.wf() && s@ == #[trigger] fmt::spec_relative(now, self.created_at),
    {
        fmt::relative(&self.created_at)
    }
}

impl ServerMetrics {
    pub fn cpu_tone(&self) -> (s: &'static str)
        ensures
            s@ == fmt::tone_of(self.cpu_percent_bits),
    {
        fmt::utilisation_tone(self.cpu_percent_bits)
    }

    pub fn memory_tone(&self) -> (s: &'static str)
        ensures
            s@ == fmt::tone_of(self.memory_percent_bits),
    {
        fmt::utilisation_tone(self.memory_percent_bits)
    }

    pub fn disk_tone(&self) -> (s: &'static str)
        ensures
            s@ == fmt::tone_of(self.disk_percent_bits),
    {
        fmt::utilisation_tone(self.disk_percent_bits)
    }

    pub fn memory_total_label(&self) -> (s: String)
        ensures
            s@ == fmt::spec_megabytes(self.memory_total_mb as int),
    {
        fmt::megabytes(self.memory_total_mb)
    }

    pub fn disk_total_label(&self) -> (s: String)
        ensures
            s@ == digits::dec(self.disk_total_gb as nat) + " GB"@,
    {
        let n = digits::dec_u64(self.disk_total_gb);
        text::cat2(n.as_str(), " GB")
    }

    pub fn has_data(&self) -> (r: bool)
        ensures
            r == (self.memory_total_mb > 0 || self.sites > 0 || self.services@.len() > 0),
    {
        self.memory_total_mb > 0 || self.sites > 0 || self.services.len() > 0
    }
}

impl Site {
    pub fn root_path(&self) -> (s: String)
        ensures
            s@ == "/var/www/"@ + self.domain@,
    {
        text::cat2("/var/www/", self.domain.as_str())
    }

    pub fn container_name(&self) -> (s: String)
        ensures
            s@ == container_name_of(self.domain@),
    {
        container_name(self.domain.as_str())
    }

    pub fn display_title(&self) -> (s: String)
        ensures
            s@ == match self.title {
                Some(title) => title@,
                None => self.domain@,
            },
    {
        match &self.title {
            Some(title) => title.clone(),
            None => self.domain.clone(),
        }
    }

    pub fn url(&self) -> (s: String)
        ensures
            s@ == (if self.ssl.enabled {
                "https"@
            } else {
                "http"@
            }) + "://"@ + self.domain@,
    {
        let scheme = if self.ssl.enabled { "https" } else { "http" };
        text::cat3(scheme, "://", self.domain.as_str())
    }

    pub fn wp_label(&self) -> (s: String)
        ensures
            s@ == match self.wp_version {
                Some(version) => version@,
                None => "not installed"@,
            },
    {
        match &self.wp_version {
            Some(version) => version.clone(),
            None => "not installed".to_owned(),
        }
    }

    pub fn memory_label(&self) -> (s: String)
        ensures
            s@ == fmt::spec_megabytes(self.limits.memory_mb as int),
    {
        fmt::megabytes(self.limits.memory_mb as u64)
    }

    /// Whole cores are shown without decimals.
    pub fn cpu_label(&self) -> (s: String)
        ensures
            s@ == (if self.limits.cpu_hundredths % 100 == 0 {
                digits::dec((self.limits.cpu_hundredths / 100) as nat)
            } else {
                self.limits.cpus()
            }) + " vCPU"@,
    {
        if self.limits.cpu_hundredths % 100 == 0 {
            let n = digits::dec_u64((self.limits.cpu_hundredths / 100) as u64);
            text::cat2(n.as_str(), " vCPU")
        } else {
            let n = self.limits.cpus_text();
            text::cat2(n.as_str(), " vCPU")
        }
    }

    pub fn disk_label(&self) -> (s: String)
        ensures
            s@ == fmt::spec_megabytes(self.disk_usage_mb as int),
    {
        fmt::megabytes(self.disk_usage_mb)
    }

    /// How the state of the certificate is shown at `now`.
    pub open spec fn spec_ssl_label(self, now: UtcTime) -> Seq<char> {
        match (self.ssl.enabled, self.ssl.expires_at) {
            (true, Some(expires)) => "valid, "@ + fmt::spec_until(now, expires) + " left"@,
            (true, None) => "valid"@,
            (false, _) => "not issued"@,
        }
    }

    /// How the state of the certificate is shown at `now`.
    pub fn ssl_label_at(&self, now: &UtcTime) -> (s: String)
        ensures
            s@ == self.spec_ssl_label(*now),
    {
        match (self.ssl.enabled, &self.ssl.expires_at) {
            (true, Some(expires)) => {
                let left = fmt::until_at(now, expires);
                text::cat3("valid, ", left.as_str(), " left")
            },
            (true, None) => "valid".to_owned(),
            (false, _) => "not issued".to_owned(),
        }
    }

    pub fn ssl_label(&self) -> (s: String)
        ensures
            exists|now: UtcTime| now.wf() && s@ == #[trigger] self.spec_ssl_label(now),
    {
        let now = clock::now();
        self.ssl_label_at(&now)
    }

    /// The colour of the certificate's state at `now`.
    pub open spec fn spec_ssl_tone(self, now: UtcTime) -> Seq<char> {
        match (self.ssl.enabled, self.ssl.expires_at) {
            (true, Some(expires)) => {
                let days = expires.spec_days_since(now);
                if days < 0 {
                    "bad"@
                } else if days < 14 {
                    "warn"@
                } else {
                    "ok"@
                }
            },
            (true, None) => "ok"@,
            (false, _) => "muted"@,
        }
    }

    /// The colour of the certificate's state at `now`.
    pub fn ssl_tone_at(&self, now: &UtcTime) -> (s: &'static str)
        ensures
            s@ == self.spec_ssl_tone(*now),
    {
        match (self.ssl.enabled, &self.ssl.expires_at) {
            (true, Some(expires)) => {
                let days = expires.days_since(now);
                if days < 0 {
                    "bad"
                } else if days < 14 {
                    "warn"
                } else {
                    "ok"
                }
            },
            (true, None) => "ok",
            (false, _) => "muted",
        }
    }

    pub fn ssl_tone(&self) -> (s: &'static str)
        ensures
            exists|now: UtcTime| now.wf() && s@ == #[trigger] self.spec_ssl_tone(now),
    {
        let now = clock::now();
        self.ssl_tone_at(&now)
    }

    pub fn cache_label(&self) -> (s: &'static str)
        ensures
            s@ == if self.cache.fastcgi_cache {
                "FastCGI on"@
            } else {
                "off"@
            },
    {
        if self.cache.fastcgi_cache {
            "FastCGI on"
        } else {
            "off"
        }
    }

    pub fn cache_ttl_label(&self) -> (s: String)
        ensures
            s@ == fmt::spec_duration_secs(self.cache.ttl_seconds as nat),
    {
        fmt::duration_secs(self.cache.ttl_seconds as u64)
    }

    pub fn created_label(&self) -> (s: String)
        requires
            self.created_at.wf(),
        ensures
            exists|now: UtcTime|
                now.wf() && s@ == #[trigger] fmt::spec_relative(now, self.created_at),
    {
        fmt::relative(&self.created_at)
    }

    pub fn is_running(&self) -> (r: bool)
        ensures
            r == (self.status is Online || self.status is Provisioning),
    {
        match self.status {
            SiteStatus::Online => true,
            SiteStatus::Provisioning => true,
            _ => false,
        }
    }

    pub fn is_staging(&self) -> (r: bool)
        ensures
            r == (self.environment is Staging),
    {
        self.environment == Environment::Staging
    }

    /// Database name the agent derives from the domain.
    pub fn db_name(&self) -> (s: String)
        ensures
            s@ == identifier_of(self.domain@),
    {
        identifier(self.domain.as_str())
    }
}

impl Job {
    pub fn is_terminal(&self) -> (r: bool)
        ensures
            r == self.status.spec_terminal(),
    {
        match self.status {
            JobStatus::Succeeded => true,
            JobStatus::Failed => true,
            JobStatus::Cancelled => true,
            _ => false,
        }
    }

    pub fn created_label(&self) -> (s: String)
        requires
            self.created_at.wf(),
        ensures
            exists|now: UtcTime|
                now.wf() && s@ == #[trigger] fmt::spec_relative(now, self.created_at),
    {
        fmt::relative(&self.created_at)
    }

    /// How the end of the job is shown at `now`.
    pub open spec fn spec_finished_label(self, now: UtcTime) -> Seq<char> {
        match self.finished_at {
            Some(end) => fmt::spec_relative(now, end),
            None => "—"@,
        }
    }

    pub fn finished_label(&self) -> (s: String)
        requires
            self.finished_at matches Some(t) ==> t.wf(),
        ensures
            exists|now: UtcTime| now.wf() && s@ == #[trigger] self.spec_finished_label(now),
    {
        let now = clock::now();
        let s = match &self.finished_at {
            Some(end) => fmt::relative_at(&now, end),
            None => "—".to_owned(),
        };
        assert(s@ == self.spec_finished_label(now));
        s
    }

    pub fn is_active(&self) -> (r: bool)
        ensures
            r == !self.status.spec_terminal(),
    {
        !self.is_terminal()
    }

    /// What the progress bar shows: a finished job is full, and any other leaves
    /// something to see.
    pub fn progress_percent(&self) -> (p: u8)
        ensures
            p == match self.status {
                JobStatus::Succeeded => 100u8,
                JobStatus::Failed | JobStatus::Cancelled => if self.progress < 4 {
                    4u8
                } else {
                    self.progress
                },
                _ => if self.progress < 2 {
                    2u8
                } else {
                    self.progress
                },
            },
    {
        match self.status {
            JobStatus::Succeeded => 100,
            JobStatus::Failed | JobStatus::Cancelled => if self.progress < 4 {
                4
            } else {
                self.progress
            },
            _ => if self.progress < 2 {
                2
            } else {
                self.progress
            },
        }
    }
}

impl StepView {
    /// How long the step took: milliseconds, or seconds with one decimal.
    pub open spec fn spec_duration_label(self) -> Seq<char> {
        if self.duration_ms < 1000 {
            digits::dec(self.duration_ms as nat) + " ms"@
        } else {
            fmt::tenths(fmt::seconds_in_tenths(self.duration_ms as int)) + " s"@
        }
    }

    pub fn duration_label(&self) -> (s: String)
        ensures
            s@ == self.spec_duration_label(),
    {
        if self.duration_ms < 1000 {
            let n = digits::dec_u64(self.duration_ms);
            text::cat2(n.as_str(), " ms")
        } else {
            let n = fmt::write_seconds(self.duration_ms);
            text::cat2(n.as_str(), " s")
        }
    }
}

impl Backup {
    pub fn size_label(&self) -> (s: String)
        ensures
            s@ == fmt::spec_bytes(self.size_bytes as int),
    {
        fmt::bytes(self.size_bytes)
    }

    pub fn created_label(&self) -> (s: String)
        requires
            self.created_at.wf(),
        ensures
            exists|now: UtcTime|
                now.wf() && s@ == #[trigger] fmt::spec_relative(now, self.created_at),
    {
        fmt::relative(&self.created_at)
    }

    pub fn timestamp_label(&self) -> (s: String)
        requires
            self.created_at.wf(),
        ensures
            s@ == clock::formatted(
                self.created_at.secs,
                self.created_at.nanos,
                clock::MINUTE_PATTERN@,
            ),
    {
        fmt::timestamp(&self.created_at)
    }

    pub fn scope_label(&self) -> (s: &'static str)
        ensures
            s@ == match self.scope {
                BackupScope::Full => "files + database"@,
                BackupScope::FilesOnly => "files only"@,
                BackupScope::DatabaseOnly => "database only"@,
            },
    {
        match self.scope {
            BackupScope::Full => "files + database",
            BackupScope::FilesOnly => "files only",
            BackupScope::DatabaseOnly => "database only",
        }
    }
}

impl AuditEntry {
    pub fn created_label(&self) -> (s: String)
        requires
            self.created_at.wf(),
        ensures
            s@ == clock::formatted(
                self.created_at.secs,
                self.created_at.nanos,
                clock::MINUTE_PATTERN@,
            ),
    {
        fmt::timestamp(&self.created_at)
    }
}

impl Domain {
    pub fn dns_label(&self) -> (s: &'static str)
        ensures
            s@ == if self.dns_ok {
                "resolves"@
            } else {
                "not verified"@
            },
    {
        if self.dns_ok {
            "resolves"
        } else {
            "not verified"
        }
    }

    pub fn dns_tone(&self) -> (s: &'static str)
        ensures
            s@ == if self.dns_ok {
                "ok"@
            } else {
                "warn"@
            },
    {
        if self.dns_ok {
            "ok"
        } else {
            "warn"
        }
    }
}
} // verus!
