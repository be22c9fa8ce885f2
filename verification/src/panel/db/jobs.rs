//! Jobs as they are stored.

use vstd::prelude::*;
use crate::clock;
use crate::clock::UtcTime;
use crate::common::models::{Job, JobKind, JobStatus, StepView};
use crate::digits;
use crate::panel::db::times;
use crate::text;

verus! {

/// Job plus display context (site domain / server name) for the jobs table.
#[derive(Debug)]
pub struct JobRow {
    pub job: Job,
    pub site_domain: Option<String>,
    pub server_name: Option<String>,
    pub actor: String,
}

/// A number of seconds: "12s", or "3m 12s" from a minute on.
pub open spec fn span(secs: nat) -> Seq<char> {
    if secs < 60 {
        digits::dec(secs) + "s"@
    } else {
        digits::dec(secs / 60) + "m "@ + digits::dec(secs % 60) + "s"@
    }
}

impl JobRow {
    /// The seconds from the start of a job to its end, or to `now` where it has none.
    pub open spec fn seconds_at(self, now: UtcTime) -> int {
        let end = match self.job.finished_at {
            Some(t) => t,
            None => now,
        };
        let start = match self.job.started_at {
            Some(t) => t,
            None => self.job.created_at,
        };
        end.spec_seconds_since(start)
    }

    /// "3m 12s" style duration, or elapsed time for running jobs.
    pub fn duration_at(&self, now: &UtcTime) -> (s: String)
        ensures
            s@ == span(
                if self.seconds_at(*now) < 0 {
                    0
                } else {
                    self.seconds_at(*now) as nat
                },
            ),
    {
        let end = match self.job.finished_at {
            Some(t) => t,
            None => *now,
        };
        let start = match self.job.started_at {
            Some(t) => t,
            None => self.job.created_at,
        };
        let between = end.seconds_since(&start);
        let secs: u128 = if between < 0 {
            0
        } else {
            between as u128
        };
        if secs < 60 {
            let n = digits::dec_u128(secs);
            text::cat2(n.as_str(), "s")
        } else {
            let m = digits::dec_u128(secs / 60);
            let n = digits::dec_u128(secs % 60);
            text::cat4(m.as_str(), "m ", n.as_str(), "s")
        }
    }

    /// "3m 12s" style duration, or elapsed time for running jobs.
    pub fn duration(&self) -> (s: String)
        ensures
            exists|now: UtcTime|
                now.wf() && s@ == span(
                    if #[trigger] self.seconds_at(now) < 0 {
                        0
                    } else {
                        self.seconds_at(now) as nat
                    },
                ),
    {
        let now = clock::now();
        self.duration_at(&now)
    }
}

/// The status that a stored text stands for.
pub open spec fn status_of(raw: Seq<char>) -> JobStatus {
    if raw == "running"@ {
        JobStatus::Running
    } else if raw == "succeeded"@ {
        JobStatus::Succeeded
    } else if raw == "failed"@ {
        JobStatus::Failed
    } else if raw == "cancelled"@ {
        JobStatus::Cancelled
    } else {
        JobStatus::Queued
    }
}

/// Executable form of [`status_of`].
pub fn status(raw: &str) -> (s: JobStatus)
    ensures
        s == status_of(raw@),
{
    if text::same(raw, "running") {
        JobStatus::Running
    } else if text::same(raw, "succeeded") {
        JobStatus::Succeeded
    } else if text::same(raw, "failed") {
        JobStatus::Failed
    } else if text::same(raw, "cancelled") {
        JobStatus::Cancelled
    } else {
        JobStatus::Queued
    }
}

/// A stored status is read back as it was.
pub proof fn law_job_status_is_read_back(s: JobStatus)
    ensures
        status_of(s.spec_str()) == s,
{
    reveal_strlit("queued");
    reveal_strlit("running");
    reveal_strlit("succeeded");
    reveal_strlit("failed");
    reveal_strlit("cancelled");
    assert("queued"@[0] == 'q' && "running"@[0] == 'r' && "succeeded"@[0] == 's' && "failed"@[0]
        == 'f' && "cancelled"@[0] == 'c');
}

/// A stored progress, kept between 0 and 100.
pub open spec fn percent(raw: i64) -> int {
    if raw < 0 {
        0
    } else if raw > 100 {
        100
    } else {
        raw as int
    }
}

/// The columns of a job as they are stored.
#[derive(Debug)]
pub struct JobColumns {
    pub id: i64,
    pub server_id: Option<i64>,
    pub site_id: Option<i64>,
    pub kind: String,
    pub status: String,
    pub progress: i64,
    pub message: String,
    pub error: Option<String>,
    pub created_at: String,
    pub started_at: Option<String>,
    pub finished_at: Option<String>,
    pub site_domain: Option<String>,
    pub server_name: Option<String>,
    pub actor: Option<String>,
}

/// The kind that a stored text stands for.
pub open spec fn kind_of(raw: Seq<char>) -> JobKind {
    match JobKind::spec_parse(raw) {
        Some(k) => k,
        None => JobKind::SiteCreate,
    }
}

/// The job that columns stand for; `now` stands for a time that cannot be read.
pub open spec fn job_of(c: JobColumns, now: UtcTime) -> Job {
    Job {
        id: c.id,
        server_id: c.server_id,
        site_id: c.site_id,
        kind: kind_of(c.kind@),
        status: status_of(c.status@),
        progress: percent(c.progress) as u8,
        message: c.message,
        error: c.error,
        created_at: times::stored_or(c.created_at@, now),
        started_at: times::stored_opt(c.started_at, now),
        finished_at: times::stored_opt(c.finished_at, now),
    }
}

/// The row that columns stand for.
pub fn map(c: JobColumns, now: &UtcTime) -> (r: JobRow)
    ensures
        r.job == job_of(c, *now),
        r.job.progress <= 100,
        r.site_domain == c.site_domain,
        r.server_name == c.server_name,
        r.actor@ == match c.actor {
            Some(a) => a@,
            None => "system"@,
        },
{
    let kind = match JobKind::parse(c.kind.as_str()) {
        Some(k) => k,
        None => JobKind::SiteCreate,
    };
    let state = status(c.status.as_str());
    let progress: u8 = if c.progress < 0 {
        0
    } else if c.progress > 100 {
        100
    } else {
        c.progress as u8
    };
    let created_at = times::parse_ts_or(c.created_at.as_str(), now);
    let started_at = times::parse_ts_opt_or(&c.started_at, now);
    let finished_at = times::parse_ts_opt_or(&c.finished_at, now);
    let actor = match c.actor {
        Some(a) => a,
        None => "system".to_owned(),
    };
    JobRow {
        job: Job {
            id: c.id,
            server_id: c.server_id,
            site_id: c.site_id,
            kind,
            status: state,
            progress,
            message: c.message,
            error: c.error,
            created_at,
            started_at,
            finished_at,
        },
        site_domain: c.site_domain,
        server_name: c.server_name,
        actor,
    }
}

/// The progress of a job that has ended.
pub open spec fn spec_final_progress(s: JobStatus) -> int {
    if s == JobStatus::Succeeded {
        100
    } else {
        0
    }
}

/// The progress of a job that has ended.
pub fn final_progress(s: JobStatus) -> (n: i64)
    ensures
        n == spec_final_progress(s),
{
    match s {
        JobStatus::Succeeded => 100,
        _ => 0,
    }
}

/// The columns of a step as they are stored.
#[derive(Debug)]
pub struct StepColumns {
    pub name: String,
    pub ok: i64,
    pub duration_ms: i64,
    pub detail: Option<String>,
    pub created_at: String,
}

/// The step that columns stand for; `now` stands for a time that cannot be read.
pub open spec fn step_of(c: StepColumns, now: UtcTime) -> StepView {
    StepView {
        name: c.name,
        ok: c.ok != 0,
        duration_ms: c.duration_ms as u64,
        detail: c.detail,
        created_at: times::stored_or(c.created_at@, now),
    }
}

/// Executable form of [`step_of`].
pub fn map_step(c: StepColumns, now: &UtcTime) -> (s: StepView)
    ensures
        s == step_of(c, *now),
{
    let created_at = times::parse_ts_or(c.created_at.as_str(), now);
    StepView {
        name: c.name,
        ok: c.ok != 0,
        duration_ms: #[verifier::truncate]
        (c.duration_ms as u64),
        detail: c.detail,
        created_at,
    }
}

} // verus!
