//! First-run bootstrap: the admin account and (optionally) an example server with a
//! few sites so the UI can be evaluated before a node is attached.

use vstd::prelude::*;
use crate::clock::{UtcTime, MAX_SECS, MIN_SECS, SECS_PER_DAY};
use crate::common::models::{
    CacheSettings, DatabaseMode, Environment, PhpUsage, PhpVersion, ResourceLimits, ServerMetrics,
    ServiceHealth, SiteStatus,
};
use crate::crypto;
use crate::panel::auth;
use crate::panel::db::servers::NewServer;
use crate::panel::db::sites::NewSite;
use crate::text;

verus! {

// ---------------------------------------------------------------------------
// The first account
// ---------------------------------------------------------------------------

/// The account that a panel without users starts with.
#[derive(Debug)]
pub struct Admin {
    pub email: String,
    pub name: String,
    pub password_hash: String,
    pub role: String,
    /// The password, where it had to be invented, so that it can be shown once.
    pub generated: Option<String>,
}

/// The hash of a password is the one under some salt, and opens with the password.
pub open spec fn is_hash(password: Seq<char>, hash: Seq<char>) -> bool {
    crypto::argon2_accepts(password, hash) && auth::hashes_to(password, Ok(hash))
}

/// The account is the owner's, under the given address, and opens with the given
/// password, or with the one that was invented where none was given.
pub open spec fn is_first_account(a: Admin, email: Seq<char>, password: Option<Seq<char>>) -> bool {
    &&& a.email@ == email
    &&& a.name@ == "Administrator"@
    &&& a.role@ == "owner"@
    &&& match (password, a.generated) {
        (Some(p), None) => is_hash(p, a.password_hash@),
        (None, Some(p)) => auth::is_drawn(p@) && is_hash(p@, a.password_hash@),
        _ => false,
    }
}

/// The first account of a panel, if it has no users yet. Fails where the given password
/// is too long to be hashed.
pub fn bootstrap_admin(users: i64, email: &str, password: Option<&str>) -> (r: Result<
    Option<Admin>,
    String,
>)
    ensures
        users > 0 ==> (r matches Ok(None)),
        users <= 0 ==> !(r matches Ok(None)),
        r matches Ok(Some(a)) ==> is_first_account(
            a,
            email@,
            match password {
                Some(p) => Some(p@),
                None => None,
            },
        ),
        users <= 0 ==> (r is Ok <==> (password matches Some(p) ==> text::byte_len(p@)
            <= crypto::MAX_PASSWORD)),
        r matches Err(reason) ==> (password matches Some(p) && auth::hashes_to(
            p@,
            Err(reason@),
        )),
{
    if users > 0 {
        return Ok(None);
    }
    let (plain, generated) = match password {
        Some(p) => (p.to_owned(), None),
        None => {
            let p = auth::random_password();
            (p.clone(), Some(p))
        },
    };
    proof {
        text::lemma_byte_len(plain@);
    }
    match auth::hash_password(plain.as_str()) {
        Err(reason) => Err(reason),
        Ok(password_hash) => Ok(
            Some(
                Admin {
                    email: email.to_owned(),
                    name: "Administrator".to_owned(),
                    password_hash,
                    role: "owner".to_owned(),
                    generated,
                },
            ),
        ),
    }
}

// ---------------------------------------------------------------------------
// The example server
// ---------------------------------------------------------------------------

/// The example server, whose token marks it as one without an agent.
pub fn demo_server() -> (s: NewServer)
    ensures
        s.name@ == "server-01"@,
        s.agent_url@ == "https://127.0.0.1:8443"@,
        s.agent_token@ == "demo-token"@,
        s.hostname@ == "server-01.example.net"@,
        s.ip_address@ == "203.0.113.10"@,
        s.provider matches Some(p) && p@ == "Hetzner"@,
        s.region matches Some(r) && r@ == "fsn1"@,
        s.agent_fingerprint is None,
{
    NewServer {
        name: "server-01".to_owned(),
        agent_url: "https://127.0.0.1:8443".to_owned(),
        agent_token: "demo-token".to_owned(),
        hostname: "server-01.example.net".to_owned(),
        ip_address: "203.0.113.10".to_owned(),
        provider: Some("Hetzner".to_owned()),
        region: Some("fsn1".to_owned()),
        agent_fingerprint: None,
    }
}

/// The version that the agent of the example server shows.
pub const DEMO_AGENT_VERSION: &'static str = "0.1.0";

/// A healthy service with its version.
pub open spec fn is_healthy(s: ServiceHealth, name: Seq<char>, version: Seq<char>) -> bool {
    s.name@ == name && s.healthy && (s.detail matches Some(d) && d@ == version)
}

/// A healthy service with its version.
fn healthy(name: &str, version: &str) -> (s: ServiceHealth)
    ensures
        is_healthy(s, name@, version@),
{
    ServiceHealth { name: name.to_owned(), healthy: true, detail: Some(version.to_owned()) }
}

/// What the example server shows of itself: a third of its processor and two fifths of
/// its memory in use, and a load of 0.84.
pub fn demo_metrics() -> (m: ServerMetrics)
    ensures
        m.cpu_percent_bits == 0x4200_0000,
        m.memory_percent_bits == 0x4224_0000,
        m.memory_total_mb == 16384,
        m.disk_percent_bits == 0x4268_0000,
        m.disk_total_gb == 320,
        m.load_1m_bits == 0x3f57_0a3d,
        m.sites == 3,
        m.containers == 4,
        m.services@.len() == 4,
        is_healthy(m.services@[0], "nginx"@, "1.27"@),
        is_healthy(m.services@[1], "docker"@, "27.3"@),
        is_healthy(m.services@[2], "mariadb"@, "11.4"@),
        is_healthy(m.services@[3], "agent"@, DEMO_AGENT_VERSION@),
        m.php_versions@ == seq![
            PhpUsage { version: PhpVersion::Php83, sites: 1 },
            PhpUsage { version: PhpVersion::Php84, sites: 2 },
        ],
{
    let mut services: Vec<ServiceHealth> = Vec::new();
    services.push(healthy("nginx", "1.27"));
    services.push(healthy("docker", "27.3"));
    services.push(healthy("mariadb", "11.4"));
    services.push(healthy("agent", DEMO_AGENT_VERSION));
    let mut php_versions: Vec<PhpUsage> = Vec::new();
    php_versions.push(PhpUsage { version: PhpVersion::Php83, sites: 1 });
    php_versions.push(PhpUsage { version: PhpVersion::Php84, sites: 2 });
    ServerMetrics {
        cpu_percent_bits: 0x4200_0000,
        memory_percent_bits: 0x4224_0000,
        memory_total_mb: 16384,
        disk_percent_bits: 0x4268_0000,
        disk_total_gb: 320,
        load_1m_bits: 0x3f57_0a3d,
        sites: 3,
        containers: 4,
        services,
        php_versions,
    }
}

// ---------------------------------------------------------------------------
// The example sites
// ---------------------------------------------------------------------------

/// An example site with what is shown of it.
#[derive(Debug)]
pub struct DemoSite {
    pub site: NewSite,
    pub status: SiteStatus,
    /// When its certificate expires, if it has one.
    pub ssl_expires: Option<UtcTime>,
}

/// How long the certificates of the example sites are valid.
pub const DEMO_SSL_DAYS: i64 = 74;

/// The backups of each example site: the id and the size of each.
pub const DEMO_SNAPSHOT: &'static str = "a1b2c3d4";

pub const DEMO_SNAPSHOT_SIZE: u64 = 1_236_000_000;

pub const DEMO_SNAPSHOT_2: &'static str = "e5f6a7b8";

pub const DEMO_SNAPSHOT_2_SIZE: u64 = 1_198_000_000;

/// What an example site is made of.
pub struct DemoView {
    pub domain: Seq<char>,
    pub title: Seq<char>,
    pub php_version: PhpVersion,
    pub database_mode: DatabaseMode,
    pub environment: Environment,
    pub cpu_hundredths: u32,
    pub memory_mb: u32,
    pub status: SiteStatus,
    pub ssl: bool,
}

/// The example sites.
pub open spec fn demo_views() -> Seq<DemoView> {
    seq![
        DemoView {
            domain: "example.com"@,
            title: "Example Shop"@,
            php_version: PhpVersion::Php84,
            database_mode: DatabaseMode::Dedicated,
            environment: Environment::Production,
            cpu_hundredths: 200,
            memory_mb: 2048,
            status: SiteStatus::Online,
            ssl: true,
        },
        DemoView {
            domain: "blog.example.com"@,
            title: "Example Blog"@,
            php_version: PhpVersion::Php83,
            database_mode: DatabaseMode::Shared,
            environment: Environment::Production,
            cpu_hundredths: 100,
            memory_mb: 1024,
            status: SiteStatus::Online,
            ssl: true,
        },
        DemoView {
            domain: "staging.example.com"@,
            title: "Example Shop (staging)"@,
            php_version: PhpVersion::Php84,
            database_mode: DatabaseMode::Shared,
            environment: Environment::Staging,
            cpu_hundredths: 100,
            memory_mb: 1024,
            status: SiteStatus::Stopped,
            ssl: false,
        },
    ]
}

/// The site is the one that a view describes, on a server, as of `now`.
pub open spec fn shows(d: DemoSite, v: DemoView, server_id: i64, now: UtcTime) -> bool {
    &&& d.site.server_id == server_id
    &&& d.site.domain@ == v.domain
    &&& d.site.title matches Some(t) && t@ == v.title
    &&& d.site.php_version == v.php_version
    &&& d.site.database_mode == v.database_mode
    &&& d.site.environment == v.environment
    &&& d.site.parent_site_id is None
    &&& d.site.limits == (ResourceLimits {
        cpu_hundredths: v.cpu_hundredths,
        memory_mb: v.memory_mb,
        php_workers: 8,
    })
    &&& d.site.cache == CacheSettings::standard()
    &&& d.site.request_ssl == v.ssl
    &&& d.status == v.status
    &&& d.ssl_expires == if v.ssl {
        Some(
            UtcTime {
                secs: (now.secs + DEMO_SSL_DAYS * SECS_PER_DAY) as i64,
                nanos: now.nanos,
            },
        )
    } else {
        None
    }
}

/// Sites of which the domain starts so are copies for trying things out.
pub fn demo_environment(domain: &str) -> (e: Environment)
    ensures
        e == if text::starts_with(domain@, "staging."@) {
            Environment::Staging
        } else {
            Environment::Production
        },
{
    let cs = text::chars_of(domain);
    if text::begins(cs.as_slice(), "staging.") {
        Environment::Staging
    } else {
        Environment::Production
    }
}

/// An example site.
fn demo_site(
    server_id: i64,
    domain: &str,
    title: &str,
    versions: (PhpVersion, DatabaseMode),
    limits: ResourceLimits,
    status: SiteStatus,
    ssl_expires: Option<UtcTime>,
) -> (d: DemoSite)
    ensures
        d.site.server_id == server_id,
        d.site.domain@ == domain@,
        d.site.title matches Some(t) && t@ == title@,
        d.site.php_version == versions.0,
        d.site.database_mode == versions.1,
        d.site.environment == if text::starts_with(domain@, "staging."@) {
            Environment::Staging
        } else {
            Environment::Production
        },
        d.site.parent_site_id is None,
        d.site.limits == limits,
        d.site.cache == CacheSettings::standard(),
        d.site.request_ssl == (ssl_expires is Some),
        d.status == status,
        d.ssl_expires == ssl_expires,
{
    DemoSite {
        site: NewSite {
            server_id,
            domain: domain.to_owned(),
            title: Some(title.to_owned()),
            php_version: versions.0,
            database_mode: versions.1,
            environment: demo_environment(domain),
            parent_site_id: None,
            limits,
            cache: CacheSettings::default(),
            request_ssl: ssl_expires.is_some(),
        },
        status,
        ssl_expires,
    }
}

/// The example sites of a server.
pub fn demo_sites(server_id: i64, now: &UtcTime) -> (v: Vec<DemoSite>)
    requires
        MIN_SECS <= now.secs <= MAX_SECS - DEMO_SSL_DAYS * SECS_PER_DAY,
    ensures
        v@.len() == 3,
        shows(v@[0], demo_views()[0], server_id, *now),
        shows(v@[1], demo_views()[1], server_id, *now),
        shows(v@[2], demo_views()[2], server_id, *now),
{
    proof {
        reveal_strlit("staging.");
        reveal_strlit("example.com");
        reveal_strlit("blog.example.com");
        reveal_strlit("staging.example.com");
        assert("example.com"@[0] != "staging."@[0]);
        assert("blog.example.com"@[0] != "staging."@[0]);
        assert("staging.example.com"@.subrange(0, 8) =~= "staging."@);
    }
    let expires = UtcTime { secs: now.secs + DEMO_SSL_DAYS * SECS_PER_DAY, nanos: now.nanos };
    let mut v: Vec<DemoSite> = Vec::new();
    v.push(
        demo_site(
            server_id,
            "example.com",
            "Example Shop",
            (PhpVersion::Php84, DatabaseMode::Dedicated),
            ResourceLimits { cpu_hundredths: 200, memory_mb: 2048, php_workers: 8 },
            SiteStatus::Online,
            Some(expires),
        ),
    );
    v.push(
        demo_site(
            server_id,
            "blog.example.com",
            "Example Blog",
            (PhpVersion::Php83, DatabaseMode::Shared),
            ResourceLimits { cpu_hundredths: 100, memory_mb: 1024, php_workers: 8 },
            SiteStatus::Online,
            Some(expires),
        ),
    );
    v.push(
        demo_site(
            server_id,
            "staging.example.com",
            "Example Shop (staging)",
            (PhpVersion::Php84, DatabaseMode::Shared),
            ResourceLimits { cpu_hundredths: 100, memory_mb: 1024, php_workers: 8 },
            SiteStatus::Stopped,
            None,
        ),
    );
    v
}

} // verus!
