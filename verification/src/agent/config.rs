//! Agent configuration.

use vstd::prelude::*;
use crate::agent::path;
use crate::text;

verus! {

/// Agent configuration. Runs as root (or with the required capabilities) from a
/// systemd unit; every value can come from the environment.
#[derive(Debug, Clone)]
pub struct Config {
    /// Address the operations API binds to. Keep this on a private interface.
    pub bind: String,
    /// Shared secret the panel presents as a bearer token.
    pub token: String,
    /// Root of the per-site directory tree.
    pub sites_root: String,
    /// Root of the full-page caches.
    pub cache_root: String,
    /// Where the agent keeps its local index of managed sites.
    pub state_file: String,
    /// Nginx vhost directory.
    pub nginx_dir: String,
    /// First UID handed out to sites. Each site gets the next free one.
    pub uid_base: u32,
    /// Log every command that would run, but do not execute anything.
    pub dry_run: bool,
    /// Restic repository, e.g. `s3:s3.amazonaws.com/wp-backups`.
    pub restic_repo: Option<String>,
    /// Email used for Let's Encrypt registration.
    pub acme_email: Option<String>,
    /// Public address of the server, where it is known. Domains have to point at it
    /// before a certificate is asked for.
    pub public_ip: Option<String>,
    /// Certificate and key of the operations API.
    pub tls_cert: Option<String>,
    pub tls_key: Option<String>,
    pub tls_self_signed: bool,
}

impl Default for Config {
    /// What the agent runs with where nothing is set: in dry-run, so that a fresh
    /// install cannot damage a host by accident.
    fn default() -> (c: Config)
        ensures
            c.bind@ == "127.0.0.1:8443"@,
            c.token@ == ""@,
            c.sites_root@ == "/var/www"@,
            c.cache_root@ == "/var/cache/nginx"@,
            c.state_file@ == "/var/lib/wp-agent/state.json"@,
            c.nginx_dir@ == "/etc/nginx/sites-enabled"@,
            c.uid_base == 10001,
            c.dry_run,
            c.restic_repo is None,
            c.acme_email is None,
            c.public_ip is None,
            c.tls_cert is None,
            c.tls_key is None,
            !c.tls_self_signed,
    {
        Config {
            bind: "127.0.0.1:8443".to_owned(),
            token: "".to_owned(),
            sites_root: "/var/www".to_owned(),
            cache_root: "/var/cache/nginx".to_owned(),
            state_file: "/var/lib/wp-agent/state.json".to_owned(),
            nginx_dir: "/etc/nginx/sites-enabled".to_owned(),
            uid_base: 10001,
            dry_run: true,
            restic_repo: None,
            acme_email: None,
            public_ip: None,
            tls_cert: None,
            tls_key: None,
            tls_self_signed: false,
        }
    }
}

impl Config {
    /// The directory of a site.
    pub open spec fn spec_site_root(self, domain: Seq<char>) -> Seq<char> {
        path::join(self.sites_root@, domain)
    }

    /// A path below the directory of a site.
    pub open spec fn spec_in_site(self, domain: Seq<char>, part: Seq<char>) -> Seq<char> {
        path::join(self.spec_site_root(domain), part)
    }

    /// The vhost of a site.
    pub open spec fn spec_vhost_path(self, domain: Seq<char>) -> Seq<char> {
        path::join(self.nginx_dir@, domain + ".conf"@)
    }

    /// The full-page cache of a site.
    pub open spec fn spec_cache_dir(self, domain: Seq<char>) -> Seq<char> {
        path::join(self.cache_root@, domain)
    }

    /// The directory of a site.
    pub fn site_root(&self, domain: &str) -> (s: String)
        ensures
            s@ == self.spec_site_root(domain@),
    {
        path::joined(self.sites_root.as_str(), domain)
    }

    /// A path below the directory of a site.
    pub fn in_site(&self, domain: &str, part: &str) -> (s: String)
        ensures
            s@ == self.spec_in_site(domain@, part@),
    {
        let root = self.site_root(domain);
        path::joined(root.as_str(), part)
    }

    /// The vhost of a site.
    pub fn vhost_path(&self, domain: &str) -> (s: String)
        ensures
            s@ == self.spec_vhost_path(domain@),
    {
        let file = text::cat2(domain, ".conf");
        path::joined(self.nginx_dir.as_str(), file.as_str())
    }

    /// The full-page cache of a site.
    pub fn cache_dir(&self, domain: &str) -> (s: String)
        ensures
            s@ == self.spec_cache_dir(domain@),
    {
        path::joined(self.cache_root.as_str(), domain)
    }

    /// Whether the shared secret is long enough to start with.
    pub fn token_ok(&self) -> (r: bool)
        ensures
            r == (text::byte_len(self.token@) >= 24),
    {
        text::bytes_in(self.token.as_str()) >= 24
    }
}

} // verus!
