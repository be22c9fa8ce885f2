//! Web server abstraction.
//!
//! Nginx is the only backend today and the only one the panel exposes. The seam
//! exists because an OpenLiteSpeed backend is a plausible future option, and
//! because it keeps the site operations free of config-file details: they ask
//! for "write this site's config and reload", not for a specific directive
//! dialect.

use vstd::prelude::*;
use crate::agent::capabilities::NginxCapabilities;
use crate::agent::config::Config;
use crate::agent::ops::nginx::NginxServer;
use crate::agent::plan;
use crate::agent::plan::{Task, TaskView};
use crate::agent::store::{RecordView, SiteRecord};

verus! {

#[derive(Debug)]
pub enum WebServer {
    Nginx(NginxServer),
}

impl WebServer {
    /// The backend for a host with the given capabilities.
    pub fn detect(config: Config, caps: NginxCapabilities) -> (w: Self)
        ensures
            w == WebServer::Nginx(NginxServer { config, caps }),
    {
        WebServer::Nginx(NginxServer::new(config, caps))
    }

    /// Backend name, reported to the panel in service health.
    pub fn kind(&self) -> (s: &'static str)
        ensures
            s@ == "nginx"@,
    {
        match self {
            WebServer::Nginx(_) => "nginx",
        }
    }

    /// Version of the backend as installed.
    pub open spec fn spec_version_label(self) -> Seq<char> {
        match self {
            WebServer::Nginx(server) => server.caps.spec_version_label(),
        }
    }

    /// Version of the backend as installed, for the server dashboard.
    pub fn version_label(&self) -> (s: String)
        ensures
            s@ == self.spec_version_label(),
    {
        match self {
            WebServer::Nginx(server) => server.caps.version_label(),
        }
    }

    /// Writes (or rewrites) the site's configuration.
    pub open spec fn spec_write_site(self, site: RecordView, ssl: bool) -> Seq<TaskView> {
        match self {
            WebServer::Nginx(server) => server.spec_write_site(site, ssl),
        }
    }

    /// Removes the site's configuration.
    pub open spec fn spec_remove_site(self, domain: Seq<char>) -> Seq<TaskView> {
        match self {
            WebServer::Nginx(server) => server.spec_remove_site(domain),
        }
    }

    /// Validates, then applies.
    pub open spec fn spec_reload(self) -> Seq<TaskView> {
        match self {
            WebServer::Nginx(_) => NginxServer::spec_reload(),
        }
    }

    /// Drops the site's full-page cache.
    pub open spec fn spec_purge(self, domain: Seq<char>) -> Seq<TaskView> {
        match self {
            WebServer::Nginx(server) => server.spec_purge(domain),
        }
    }

    /// Writes (or rewrites) the site's configuration. Idempotent.
    pub fn write_site(&self, site: &SiteRecord, ssl: bool) -> (v: Vec<Task>)
        ensures
            plan::tasks(v@) == self.spec_write_site(site@, ssl),
    {
        match self {
            WebServer::Nginx(server) => server.write_site(site, ssl),
        }
    }

    pub fn remove_site(&self, domain: &str) -> (v: Vec<Task>)
        ensures
            plan::tasks(v@) == self.spec_remove_site(domain@),
    {
        match self {
            WebServer::Nginx(server) => server.remove_site(domain),
        }
    }

    /// Validates, then applies. Never reloads an invalid configuration.
    pub fn reload(&self) -> (v: Vec<Task>)
        ensures
            plan::tasks(v@) == self.spec_reload(),
    {
        match self {
            WebServer::Nginx(server) => server.reload(),
        }
    }

    /// Drops the site's full-page cache.
    pub fn purge(&self, domain: &str) -> (v: Vec<Task>)
        ensures
            plan::tasks(v@) == self.spec_purge(domain@),
    {
        match self {
            WebServer::Nginx(server) => server.purge(domain),
        }
    }
}

} // verus!
