//! JSON API. Same data as the UI, for CLI tooling and automation.
//!
//! Every answer is scoped to the caller, exactly like the HTML routes.

use vstd::prelude::*;
use crate::common::models::{Job, Server, ServerMetrics, Site, StepView};
use crate::panel::db::jobs::JobRow;
use crate::panel::db::servers::ServerRow;
use crate::panel::db::sites::SiteRow;
use crate::panel::db::teams;

verus! {

#[derive(Debug)]
pub struct ServerView {
    pub server: Server,
    pub metrics: ServerMetrics,
    pub site_count: i64,
}

#[derive(Debug)]
pub struct SiteView {
    pub site: Site,
    pub server_name: String,
}

#[derive(Debug)]
pub struct JobView {
    pub job: Job,
    pub site_domain: Option<String>,
    pub server_name: Option<String>,
    pub steps: Vec<StepView>,
}

/// One of the sites has this id.
pub open spec fn has_site(sites: Seq<SiteRow>, id: i64) -> bool {
    exists|i: int| 0 <= i < sites.len() && (#[trigger] sites[i]).site.id == id
}

/// One of the sites is on this server.
pub open spec fn hosts(sites: Seq<SiteRow>, server_id: i64) -> bool {
    exists|i: int| 0 <= i < sites.len() && (#[trigger] sites[i]).site.server_id == server_id
}

/// A user with this role, to whom these sites are visible, sees a server: with a role
/// that sees everything, or where one of the sites is on it.
pub open spec fn sees_server(role: Seq<char>, sites: Seq<SiteRow>, server_id: i64) -> bool {
    teams::sees_all(role) || hosts(sites, server_id)
}

/// A user with this role, to whom these sites are visible, sees a job: with a role that
/// sees everything, or where the job is about one of the sites. Jobs with no site
/// (server-level work) stay hidden from scoped users.
pub open spec fn sees_job(role: Seq<char>, sites: Seq<SiteRow>, site_id: Option<i64>) -> bool {
    teams::sees_all(role) || match site_id {
        Some(id) => has_site(sites, id),
        None => false,
    }
}

/// Scoped users see nothing that is not about a site that is visible to them; without
/// one they see nothing at all.
pub proof fn law_scoped_users_see_only_their_sites(
    role: Seq<char>,
    sites: Seq<SiteRow>,
    server_id: i64,
    site_id: Option<i64>,
)
    requires
        !teams::sees_all(role),
    ensures
        sees_server(role, sites, server_id) ==> hosts(sites, server_id),
        sees_job(role, sites, site_id) ==> site_id is Some && has_site(sites, site_id->0),
        sites.len() == 0 ==> !sees_server(role, sites, server_id) && !sees_job(
            role,
            sites,
            site_id,
        ),
{
}

/// Executable form of [`sees_server`].
pub fn may_see_server(role: &str, sites: &Vec<SiteRow>, server_id: i64) -> (r: bool)
    ensures
        r == sees_server(role@, sites@, server_id),
{
    if teams::has_global_access(role) {
        return true;
    }
    let mut i: usize = 0;
    while i < sites.len()
        invariant
            i <= sites@.len(),
            forall|j: int| 0 <= j < i ==> (#[trigger] sites@[j]).site.server_id != server_id,
        decreases sites@.len() - i,
    {
        if sites[i].site.server_id == server_id {
            return true;
        }
        i += 1;
    }
    false
}

/// Executable form of [`sees_job`].
pub fn may_see_job(role: &str, sites: &Vec<SiteRow>, site_id: Option<i64>) -> (r: bool)
    ensures
        r == sees_job(role@, sites@, site_id),
{
    if teams::has_global_access(role) {
        return true;
    }
    match site_id {
        None => false,
        Some(id) => {
            let mut i: usize = 0;
            while i < sites.len()
                invariant
                    i <= sites@.len(),
                    site_id == Some(id),
                    forall|j: int| 0 <= j < i ==> (#[trigger] sites@[j]).site.id != id,
                decreases sites@.len() - i,
            {
                if sites[i].site.id == id {
                    return true;
                }
                i += 1;
            }
            false
        },
    }
}

/// The rows of servers that a user sees.
pub open spec fn seen_servers(rows: Seq<ServerRow>, role: Seq<char>, sites: Seq<SiteRow>) -> Seq<
    ServerRow,
>
    decreases rows.len(),
{
    if rows.len() == 0 {
        Seq::empty()
    } else {
        let before = seen_servers(rows.drop_last(), role, sites);
        if sees_server(role, sites, rows.last().server.id) {
            before.push(rows.last())
        } else {
            before
        }
    }
}

/// How many of the sites are on a server.
pub open spec fn hosted(sites: Seq<SiteRow>, server_id: i64) -> nat
    decreases sites.len(),
{
    if sites.len() == 0 {
        0
    } else {
        hosted(sites.drop_last(), server_id) + if sites.last().site.server_id == server_id {
            1nat
        } else {
            0nat
        }
    }
}

/// The figures of a server without the counts of what runs on it.
pub open spec fn uncounted(m: ServerMetrics, all: ServerMetrics) -> bool {
    &&& m.cpu_percent_bits == all.cpu_percent_bits
    &&& m.memory_percent_bits == all.memory_percent_bits
    &&& m.memory_total_mb == all.memory_total_mb
    &&& m.disk_percent_bits == all.disk_percent_bits
    &&& m.disk_total_gb == all.disk_total_gb
    &&& m.load_1m_bits == all.load_1m_bits
    &&& m.services == all.services
    &&& m.sites == 0
    &&& m.containers == 0
    &&& m.php_versions@.len() == 0
}

/// A number of sites as it is shown.
pub open spec fn shown_count(n: nat) -> i64 {
    if n <= i64::MAX {
        n as i64
    } else {
        i64::MAX
    }
}

/// What a user sees of a server. Scoped users get no counts that they could use to infer
/// other tenants' footprint: only their own sites are counted.
pub open spec fn shows_server(
    v: ServerView,
    row: ServerRow,
    role: Seq<char>,
    sites: Seq<SiteRow>,
) -> bool {
    v.server == row.server && if teams::sees_all(role) {
        v.metrics == row.metrics && v.site_count == row.site_count
    } else {
        uncounted(v.metrics, row.metrics) && v.site_count == shown_count(
            hosted(sites, row.server.id),
        )
    }
}

/// What a scoped user sees of a server does not depend on how many sites and containers
/// others have there.
pub proof fn law_scoped_users_see_no_foreign_counts(
    one: ServerRow,
    other: ServerRow,
    v: ServerView,
    role: Seq<char>,
    sites: Seq<SiteRow>,
)
    requires
        !teams::sees_all(role),
        one.server == other.server,
        other.metrics == (ServerMetrics {
            sites: other.metrics.sites,
            containers: other.metrics.containers,
            php_versions: other.metrics.php_versions,
            ..one.metrics
        }),
    ensures
        shows_server(v, one, role, sites) == shows_server(v, other, role, sites),
{
}

/// Counts the sites on a server.
fn count_hosted(sites: &Vec<SiteRow>, server_id: i64) -> (n: i64)
    ensures
        n == shown_count(hosted(sites@, server_id)),
{
    let mut n: u64 = 0;
    let mut i: usize = 0;
    while i < sites.len()
        invariant
            i <= sites@.len(),
            n <= i,
            n == hosted(sites@.take(i as int), server_id),
        decreases sites@.len() - i,
    {
        assert(sites@.take(i + 1).drop_last() =~= sites@.take(i as int));
        if sites[i].site.server_id == server_id {
            n += 1;
        }
        i += 1;
    }
    assert(sites@.take(i as int) =~= sites@);
    if n <= 0x7fff_ffff_ffff_ffff {
        n as i64
    } else {
        i64::MAX
    }
}

/// Executable form of [`shows_server`].
pub fn server_view(row: ServerRow, role: &str, sites: &Vec<SiteRow>) -> (v: ServerView)
    ensures
        shows_server(v, row, role@, sites@),
{
    if teams::has_global_access(role) {
        return ServerView {
            server: row.server,
            metrics: row.metrics,
            site_count: row.site_count,
        };
    }
    let site_count = count_hosted(sites, row.server.id);
    let m = row.metrics;
    ServerView {
        server: row.server,
        metrics: ServerMetrics {
            cpu_percent_bits: m.cpu_percent_bits,
            memory_percent_bits: m.memory_percent_bits,
            memory_total_mb: m.memory_total_mb,
            disk_percent_bits: m.disk_percent_bits,
            disk_total_gb: m.disk_total_gb,
            load_1m_bits: m.load_1m_bits,
            sites: 0,
            containers: 0,
            services: m.services,
            php_versions: Vec::new(),
        },
        site_count,
    }
}

/// Each of the rows is shown, in their order.
pub open spec fn show_servers(
    v: Seq<ServerView>,
    rows: Seq<ServerRow>,
    role: Seq<char>,
    sites: Seq<SiteRow>,
) -> bool {
    v.len() == rows.len() && forall|i: int|
        0 <= i < v.len() ==> shows_server(#[trigger] v[i], rows[i], role, sites)
}

/// The servers that a user sees, in the order of the rows.
pub fn servers(rows: Vec<ServerRow>, role: &str, sites: &Vec<SiteRow>) -> (v: Vec<ServerView>)
    ensures
        show_servers(v@, seen_servers(rows@, role@, sites@), role@, sites@),
{
    let ghost all = rows@;
    let mut rest = rows;
    let mut v: Vec<ServerView> = Vec::new();
    let ghost mut n: int = 0;
    assert(all.skip(0) =~= all);
    assert(all.take(0) =~= Seq::empty());
    while rest.len() > 0
        invariant
            0 <= n <= all.len(),
            rest@ == all.skip(n),
            show_servers(v@, seen_servers(all.take(n), role@, sites@), role@, sites@),
        decreases rest@.len(),
    {
        let row = rest.remove(0);
        assert(row == all[n]);
        let ghost next = all.take(n + 1);
        assert(next.drop_last() =~= all.take(n));
        assert(next.last() == row);
        let ghost before = seen_servers(all.take(n), role@, sites@);
        let ghost shown = v@;
        if may_see_server(role, sites, row.server.id) {
            let ghost kept = row;
            v.push(server_view(row, role, sites));
            assert forall|i: int| 0 <= i < v@.len() implies shows_server(
                #[trigger] v@[i],
                before.push(kept)[i],
                role@,
                sites@,
            ) by {
                if i < shown.len() {
                    assert(v@[i] == shown[i]);
                }
            }
        }
        proof {
            n = n + 1;
        }
        assert(rest@ =~= all.skip(n));
    }
    assert(all.take(n) =~= all);
    v
}

/// The rows of jobs that a user sees.
pub open spec fn seen_jobs(rows: Seq<JobRow>, role: Seq<char>, sites: Seq<SiteRow>) -> Seq<JobRow>
    decreases rows.len(),
{
    if rows.len() == 0 {
        Seq::empty()
    } else {
        let before = seen_jobs(rows.drop_last(), role, sites);
        if sees_job(role, sites, rows.last().job.site_id) {
            before.push(rows.last())
        } else {
            before
        }
    }
}

/// The job as it is shown, without or with its steps.
pub fn job_view(row: JobRow, steps: Vec<StepView>) -> (v: JobView)
    ensures
        v == (JobView {
            job: row.job,
            site_domain: row.site_domain,
            server_name: row.server_name,
            steps,
        }),
{
    JobView { job: row.job, site_domain: row.site_domain, server_name: row.server_name, steps }
}

/// The jobs that a user sees, in the order of the rows.
pub fn jobs(rows: Vec<JobRow>, role: &str, sites: &Vec<SiteRow>) -> (v: Vec<JobRow>)
    ensures
        v@ == seen_jobs(rows@, role@, sites@),
{
    let ghost all = rows@;
    let mut rest = rows;
    let mut v: Vec<JobRow> = Vec::new();
    let ghost mut n: int = 0;
    assert(all.skip(0) =~= all);
    assert(all.take(0) =~= Seq::empty());
    while rest.len() > 0
        invariant
            0 <= n <= all.len(),
            rest@ == all.skip(n),
            v@ == seen_jobs(all.take(n), role@, sites@),
        decreases rest@.len(),
    {
        let row = rest.remove(0);
        assert(row == all[n]);
        let ghost next = all.take(n + 1);
        assert(next.drop_last() =~= all.take(n));
        assert(next.last() == row);
        if may_see_job(role, sites, row.job.site_id) {
            v.push(row);
        }
        proof {
            n = n + 1;
        }
        assert(rest@ =~= all.skip(n));
    }
    assert(all.take(n) =~= all);
    v
}

/// The view of a site row.
pub fn site_view(row: SiteRow) -> (v: SiteView)
    ensures
        v == (SiteView { site: row.site, server_name: row.server_name }),
{
    SiteView { site: row.site, server_name: row.server_name }
}

} // verus!
