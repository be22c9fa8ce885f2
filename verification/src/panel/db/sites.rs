//! Sites as they are stored.

use vstd::prelude::*;
use crate::clock::UtcTime;
use crate::common::models::{
    Backup, BackupScope, CacheSettings, DatabaseMode, Domain, Environment, PhpVersion,
    ResourceLimits, Site, SiteStatus, SslIssuer, SslState,
};
use crate::panel::db::times;
use crate::text;

verus! {

/// Site plus the parent server name, which every site view displays.
#[derive(Debug)]
pub struct SiteRow {
    pub site: Site,
    pub server_name: String,
}

/// The PHP version that a stored text stands for.
pub open spec fn php_of(raw: Seq<char>) -> PhpVersion {
    match PhpVersion::spec_parse(raw) {
        Some(v) => v,
        None => PhpVersion::Php84,
    }
}

/// The status that a stored text stands for.
pub open spec fn status_of(raw: Seq<char>) -> SiteStatus {
    if raw == "online"@ {
        SiteStatus::Online
    } else if raw == "stopped"@ {
        SiteStatus::Stopped
    } else if raw == "failed"@ {
        SiteStatus::Failed
    } else if raw == "suspended"@ {
        SiteStatus::Suspended
    } else {
        SiteStatus::Provisioning
    }
}

/// The database mode that a stored text stands for.
pub open spec fn mode_of(raw: Seq<char>) -> DatabaseMode {
    if raw == "dedicated"@ {
        DatabaseMode::Dedicated
    } else {
        DatabaseMode::Shared
    }
}

/// The issuer that a stored text stands for.
pub open spec fn issuer_of(raw: Seq<char>) -> SslIssuer {
    if raw == "custom"@ {
        SslIssuer::Custom
    } else if raw == "none"@ {
        SslIssuer::Absent
    } else {
        SslIssuer::LetsEncrypt
    }
}

/// The environment that a stored text stands for.
pub open spec fn environment_of(raw: Seq<char>) -> Environment {
    if raw == "staging"@ {
        Environment::Staging
    } else {
        Environment::Production
    }
}

/// The scope that a stored text stands for.
pub open spec fn scope_of(raw: Seq<char>) -> BackupScope {
    if raw == "files"@ {
        BackupScope::FilesOnly
    } else if raw == "database"@ {
        BackupScope::DatabaseOnly
    } else {
        BackupScope::Full
    }
}

/// Executable form of [`php_of`].
pub fn php(raw: &str) -> (v: PhpVersion)
    ensures
        v == php_of(raw@),
{
    match PhpVersion::parse(raw) {
        Some(v) => v,
        None => PhpVersion::Php84,
    }
}

/// Executable form of [`status_of`].
pub fn status(raw: &str) -> (s: SiteStatus)
    ensures
        s == status_of(raw@),
{
    if text::same(raw, "online") {
        SiteStatus::Online
    } else if text::same(raw, "stopped") {
        SiteStatus::Stopped
    } else if text::same(raw, "failed") {
        SiteStatus::Failed
    } else if text::same(raw, "suspended") {
        SiteStatus::Suspended
    } else {
        SiteStatus::Provisioning
    }
}

/// Executable form of [`mode_of`].
pub fn mode(raw: &str) -> (m: DatabaseMode)
    ensures
        m == mode_of(raw@),
{
    if text::same(raw, "dedicated") {
        DatabaseMode::Dedicated
    } else {
        DatabaseMode::Shared
    }
}

/// Executable form of [`issuer_of`].
pub fn issuer(raw: &str) -> (i: SslIssuer)
    ensures
        i == issuer_of(raw@),
{
    if text::same(raw, "custom") {
        SslIssuer::Custom
    } else if text::same(raw, "none") {
        SslIssuer::Absent
    } else {
        SslIssuer::LetsEncrypt
    }
}

/// Executable form of [`environment_of`].
pub fn environment(raw: &str) -> (e: Environment)
    ensures
        e == environment_of(raw@),
{
    if text::same(raw, "staging") {
        Environment::Staging
    } else {
        Environment::Production
    }
}

/// Executable form of [`scope_of`].
pub fn scope(raw: &str) -> (s: BackupScope)
    ensures
        s == scope_of(raw@),
{
    if text::same(raw, "files") {
        BackupScope::FilesOnly
    } else if text::same(raw, "database") {
        BackupScope::DatabaseOnly
    } else {
        BackupScope::Full
    }
}

/// What is stored of a site's state is read back as it was.
pub proof fn law_site_columns_are_read_back(
    s: SiteStatus,
    m: DatabaseMode,
    i: SslIssuer,
    e: Environment,
    b: BackupScope,
)
    ensures
        status_of(s.spec_str()) == s,
        mode_of(m.spec_str()) == m,
        issuer_of(i.spec_str()) == i,
        environment_of(e.spec_str()) == e,
        scope_of(b.spec_str()) == b,
{
    reveal_strlit("online");
    reveal_strlit("stopped");
    reveal_strlit("failed");
    reveal_strlit("suspended");
    reveal_strlit("provisioning");
    assert("online"@[0] == 'o' && "stopped"@[1] == 't' && "failed"@[0] == 'f' && "suspended"@[1]
        == 'u' && "provisioning"@[0] == 'p' && "online"@[1] == 'n' && "failed"@[1] == 'a'
        && "provisioning"@[1] == 'r');
    reveal_strlit("shared");
    reveal_strlit("dedicated");
    assert("shared"@[0] == 's' && "dedicated"@[0] == 'd');
    reveal_strlit("letsencrypt");
    reveal_strlit("custom");
    reveal_strlit("none");
    assert("letsencrypt"@[0] == 'l' && "custom"@[0] == 'c' && "none"@[0] == 'n');
    reveal_strlit("production");
    reveal_strlit("staging");
    assert("production"@[0] == 'p' && "staging"@[0] == 's');
    reveal_strlit("full");
    reveal_strlit("files");
    reveal_strlit("database");
    assert("full"@[1] == 'u' && "files"@[1] == 'i' && "database"@[1] == 'a');
}

/// The columns of a site as they are stored; its share of the processor in hundredths
/// of a core.
#[derive(Debug)]
pub struct SiteColumns {
    pub id: i64,
    pub server_id: i64,
    pub domain: String,
    pub title: Option<String>,
    pub status: String,
    pub php_version: String,
    pub wp_version: Option<String>,
    pub database_mode: String,
    pub cpu_hundredths: u32,
    pub memory_mb: i64,
    pub php_workers: i64,
    pub cache_fastcgi: i64,
    pub cache_ttl_seconds: i64,
    pub cache_redis: i64,
    pub cache_opcache: i64,
    pub cache_brotli: i64,
    pub ssl_enabled: i64,
    pub ssl_issuer: String,
    pub ssl_expires_at: Option<String>,
    pub ssl_auto_renew: i64,
    pub environment: String,
    pub parent_site_id: Option<i64>,
    pub uid: i64,
    pub disk_usage_mb: i64,
    pub created_at: String,
    pub server_name: Option<String>,
}

/// The site that columns stand for; `now` stands for a time that cannot be read.
pub open spec fn site_of(c: SiteColumns, now: UtcTime) -> Site {
    Site {
        id: c.id,
        server_id: c.server_id,
        domain: c.domain,
        title: c.title,
        status: status_of(c.status@),
        php_version: php_of(c.php_version@),
        wp_version: c.wp_version,
        database_mode: mode_of(c.database_mode@),
        limits: ResourceLimits {
            cpu_hundredths: c.cpu_hundredths,
            memory_mb: c.memory_mb as u32,
            php_workers: c.php_workers as u16,
        },
        cache: CacheSettings {
            fastcgi_cache: c.cache_fastcgi != 0,
            ttl_seconds: c.cache_ttl_seconds as u32,
            redis_object_cache: c.cache_redis != 0,
            opcache: c.cache_opcache != 0,
            brotli: c.cache_brotli != 0,
        },
        ssl: SslState {
            enabled: c.ssl_enabled != 0,
            issuer: issuer_of(c.ssl_issuer@),
            expires_at: times::stored_opt(c.ssl_expires_at, now),
            auto_renew: c.ssl_auto_renew != 0,
        },
        environment: environment_of(c.environment@),
        parent_site_id: c.parent_site_id,
        uid: c.uid as u32,
        disk_usage_mb: c.disk_usage_mb as u64,
        created_at: times::stored_or(c.created_at@, now),
    }
}

/// The row that columns stand for.
pub fn map(c: SiteColumns, now: &UtcTime) -> (r: SiteRow)
    ensures
        r.site == site_of(c, *now),
        r.server_name@ == match c.server_name {
            Some(s) => s@,
            None => ""@,
        },
{
    let state = status(c.status.as_str());
    let version = php(c.php_version.as_str());
    let database_mode = mode(c.database_mode.as_str());
    let ssl_issuer = issuer(c.ssl_issuer.as_str());
    let expires_at = times::parse_ts_opt_or(&c.ssl_expires_at, now);
    let env = environment(c.environment.as_str());
    let created_at = times::parse_ts_or(c.created_at.as_str(), now);
    let server_name = match c.server_name {
        Some(s) => s,
        None => "".to_owned(),
    };
    SiteRow {
        site: Site {
            id: c.id,
            server_id: c.server_id,
            domain: c.domain,
            title: c.title,
            status: state,
            php_version: version,
            wp_version: c.wp_version,
            database_mode,
            limits: ResourceLimits {
                cpu_hundredths: c.cpu_hundredths,
                memory_mb: #[verifier::truncate]
                (c.memory_mb as u32),
                php_workers: #[verifier::truncate]
                (c.php_workers as u16),
            },
            cache: CacheSettings {
                fastcgi_cache: c.cache_fastcgi != 0,
                ttl_seconds: #[verifier::truncate]
                (c.cache_ttl_seconds as u32),
                redis_object_cache: c.cache_redis != 0,
                opcache: c.cache_opcache != 0,
                brotli: c.cache_brotli != 0,
            },
            ssl: SslState {
                enabled: c.ssl_enabled != 0,
                issuer: ssl_issuer,
                expires_at,
                auto_renew: c.ssl_auto_renew != 0,
            },
            environment: env,
            parent_site_id: c.parent_site_id,
            uid: #[verifier::truncate]
            (c.uid as u32),
            disk_usage_mb: #[verifier::truncate]
            (c.disk_usage_mb as u64),
            created_at,
        },
        server_name,
    }
}

/// The first UID that the panel hands out.
pub const FIRST_UID: u32 = 10001;

/// Next free UID in the per-site range: one above the highest one that is stored, of
/// which the lowest 32 bits count.
pub fn next_uid(highest: Option<i64>) -> (uid: u32)
    requires
        highest matches Some(m) ==> (m as u32) < u32::MAX,
    ensures
        uid == match highest {
            Some(m) => (m as u32) + 1,
            None => FIRST_UID as int,
        },
        highest matches Some(m) ==> (0 <= m < u32::MAX ==> uid == m + 1),
{
    match highest {
        Some(m) => #[verifier::truncate] (m as u32) + 1,
        None => FIRST_UID,
    }
}

/// A site that is to be stored.
#[derive(Debug)]
pub struct NewSite {
    pub server_id: i64,
    pub domain: String,
    pub title: Option<String>,
    pub php_version: PhpVersion,
    pub database_mode: DatabaseMode,
    pub environment: Environment,
    pub parent_site_id: Option<i64>,
    pub limits: ResourceLimits,
    pub cache: CacheSettings,
    pub request_ssl: bool,
}

impl NewSite {
    /// Who is to issue the certificate of the site.
    pub open spec fn spec_issuer(self) -> SslIssuer {
        if self.request_ssl {
            SslIssuer::LetsEncrypt
        } else {
            SslIssuer::Absent
        }
    }

    /// Who is to issue the certificate of the site.
    pub fn issuer(&self) -> (i: SslIssuer)
        ensures
            i == self.spec_issuer(),
    {
        if self.request_ssl {
            SslIssuer::LetsEncrypt
        } else {
            SslIssuer::Absent
        }
    }
}

/// The columns of a domain as they are stored.
#[derive(Debug)]
pub struct DomainColumns {
    pub id: i64,
    pub site_id: i64,
    pub name: String,
    pub is_primary: i64,
    pub redirect_to_primary: i64,
    pub dns_ok: i64,
}

/// The domain that columns stand for.
pub fn map_domain(c: DomainColumns) -> (d: Domain)
    ensures
        d == (Domain {
            id: c.id,
            site_id: c.site_id,
            name: c.name,
            primary: c.is_primary != 0,
            redirect_to_primary: c.redirect_to_primary != 0,
            dns_ok: c.dns_ok != 0,
        }),
{
    Domain {
        id: c.id,
        site_id: c.site_id,
        name: c.name,
        primary: c.is_primary != 0,
        redirect_to_primary: c.redirect_to_primary != 0,
        dns_ok: c.dns_ok != 0,
    }
}

/// The columns of a backup as they are stored.
#[derive(Debug)]
pub struct BackupColumns {
    pub id: i64,
    pub site_id: i64,
    pub snapshot_id: String,
    pub size_bytes: i64,
    pub scope: String,
    pub destination: String,
    pub created_at: String,
}

/// The backup that columns stand for; `now` stands for a time that cannot be read.
pub open spec fn stored_backup(c: BackupColumns, now: UtcTime) -> Backup {
    Backup {
        id: c.id,
        site_id: c.site_id,
        snapshot_id: c.snapshot_id,
        size_bytes: c.size_bytes as u64,
        scope: scope_of(c.scope@),
        destination: c.destination,
        created_at: times::stored_or(c.created_at@, now),
    }
}

/// Executable form of [`stored_backup`].
pub fn map_backup(c: BackupColumns, now: &UtcTime) -> (b: Backup)
    ensures
        b == stored_backup(c, *now),
{
    let what = scope(c.scope.as_str());
    let created_at = times::parse_ts_or(c.created_at.as_str(), now);
    Backup {
        id: c.id,
        site_id: c.site_id,
        snapshot_id: c.snapshot_id,
        size_bytes: #[verifier::truncate]
        (c.size_bytes as u64),
        scope: what,
        destination: c.destination,
        created_at,
    }
}

} // verus!
