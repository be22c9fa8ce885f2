//! Backup scheduler. Due schedules enqueue `backup.create` jobs.

use vstd::prelude::*;
use crate::panel::db::schedules::Schedule;

verus! {

/// A backup job that is to be enqueued.
#[derive(Debug)]
pub struct Enqueue {
    pub server_id: i64,
    pub site_id: i64,
    pub scope: String,
    pub destination_id: Option<i64>,
}

/// Who enqueues scheduled backups.
pub const ACTOR: &'static str = "scheduler";

/// What a due schedule comes to: nothing where a backup of its site is queued or running
/// already or where the site is gone, else a job.
pub fn due_job(schedule: &Schedule, active: bool, server_id: Option<i64>) -> (r: Option<Enqueue>)
    ensures
        if active || server_id is None {
            r is None
        } else {
            r == Some(
                Enqueue {
                    server_id: server_id->0,
                    site_id: schedule.site_id,
                    scope: schedule.scope,
                    destination_id: schedule.destination_id,
                },
            )
        },
{
    if active {
        return None;
    }
    match server_id {
        Some(server_id) => Some(
            Enqueue {
                server_id,
                site_id: schedule.site_id,
                scope: schedule.scope.clone(),
                destination_id: schedule.destination_id,
            },
        ),
        None => None,
    }
}

} // verus!
