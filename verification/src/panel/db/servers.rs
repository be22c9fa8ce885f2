//! Servers and their agents.

use vstd::prelude::*;
use crate::clock::UtcTime;
use crate::common::models::{Server, ServerMetrics, ServerStatus};
use crate::panel::agent::ServerConnection;
use crate::panel::db::times;
use crate::text;

verus! {

/// A server row plus the aggregates the list view needs, so that showing a row does
/// not trigger extra queries.
#[derive(Debug)]
pub struct ServerRow {
    pub server: Server,
    pub metrics: ServerMetrics,
    pub site_count: i64,
    pub agent_token: String,
    pub agent_fingerprint: Option<String>,
}

impl ServerRow {
    /// How the agent of the server is reached.
    pub fn connection(&self) -> (c: ServerConnection)
        ensures
            c.url == self.server.agent_url,
            c.token == self.agent_token,
            c.fingerprint == self.agent_fingerprint,
    {
        ServerConnection {
            url: self.server.agent_url.clone(),
            token: self.agent_token.clone(),
            fingerprint: text::copy_opt(&self.agent_fingerprint),
        }
    }
}

/// The status that a stored text stands for.
pub open spec fn status_of(raw: Seq<char>) -> ServerStatus {
    if raw == "online"@ {
        ServerStatus::Online
    } else if raw == "degraded"@ {
        ServerStatus::Degraded
    } else if raw == "offline"@ {
        ServerStatus::Offline
    } else {
        ServerStatus::Provisioning
    }
}

/// Executable form of [`status_of`].
pub fn status(raw: &str) -> (s: ServerStatus)
    ensures
        s == status_of(raw@),
{
    if text::same(raw, "online") {
        ServerStatus::Online
    } else if text::same(raw, "degraded") {
        ServerStatus::Degraded
    } else if text::same(raw, "offline") {
        ServerStatus::Offline
    } else {
        ServerStatus::Provisioning
    }
}

/// A stored status is read back as it was.
pub proof fn law_server_status_is_read_back(s: ServerStatus)
    ensures
        status_of(s.spec_str()) == s,
{
    reveal_strlit("online");
    reveal_strlit("degraded");
    reveal_strlit("offline");
    reveal_strlit("provisioning");
    assert("online"@.len() == 6);
    assert("degraded"@.len() == 8);
    assert("offline"@.len() == 7);
    assert("provisioning"@.len() == 12);
}

/// The columns of a server as they are stored, with its metrics as far as they could
/// be read.
#[derive(Debug)]
pub struct ServerColumns {
    pub id: i64,
    pub name: String,
    pub agent_url: String,
    pub hostname: String,
    pub ip_address: String,
    pub provider: Option<String>,
    pub region: Option<String>,
    pub status: String,
    pub agent_version: Option<String>,
    pub last_seen_at: Option<String>,
    pub created_at: String,
    pub metrics: Option<ServerMetrics>,
    pub site_count: i64,
    pub agent_token: String,
    pub agent_fingerprint: Option<String>,
}

/// The server that columns stand for; `now` stands for a time that cannot be read.
pub open spec fn server_of(c: ServerColumns, now: UtcTime) -> Server {
    Server {
        id: c.id,
        name: c.name,
        agent_url: c.agent_url,
        hostname: c.hostname,
        ip_address: c.ip_address,
        provider: c.provider,
        region: c.region,
        status: status_of(c.status@),
        agent_version: c.agent_version,
        last_seen_at: times::stored_opt(c.last_seen_at, now),
        created_at: times::stored_or(c.created_at@, now),
    }
}

/// The row that columns stand for.
pub fn map(c: ServerColumns, now: &UtcTime) -> (r: ServerRow)
    ensures
        r.server == server_of(c, *now),
        match c.metrics {
            Some(m) => r.metrics == m,
            None => r.metrics.is_blank(),
        },
        r.site_count == c.site_count,
        r.agent_token == c.agent_token,
        r.agent_fingerprint == c.agent_fingerprint,
{
    let state = status(c.status.as_str());
    let last_seen_at = times::parse_ts_opt_or(&c.last_seen_at, now);
    let created_at = times::parse_ts_or(c.created_at.as_str(), now);
    let metrics = match c.metrics {
        Some(m) => m,
        None => ServerMetrics::default(),
    };
    ServerRow {
        server: Server {
            id: c.id,
            name: c.name,
            agent_url: c.agent_url,
            hostname: c.hostname,
            ip_address: c.ip_address,
            provider: c.provider,
            region: c.region,
            status: state,
            agent_version: c.agent_version,
            last_seen_at,
            created_at,
        },
        metrics,
        site_count: c.site_count,
        agent_token: c.agent_token,
        agent_fingerprint: c.agent_fingerprint,
    }
}

/// A server that is to be stored.
#[derive(Debug)]
pub struct NewServer {
    pub name: String,
    pub agent_url: String,
    pub agent_token: String,
    pub hostname: String,
    pub ip_address: String,
    pub provider: Option<String>,
    pub region: Option<String>,
    pub agent_fingerprint: Option<String>,
}

} // verus!
