//! Backup schedules. They determine when automatic backups run.

use vstd::prelude::*;
use crate::clock;
use crate::clock::UtcTime;

verus! {

#[derive(Debug)]
pub struct Schedule {
    pub id: i64,
    pub site_id: i64,
    pub destination_id: Option<i64>,
    pub scope: String,
    pub interval_minutes: i64,
    pub last_run_at: Option<String>,
    pub next_run_at: Option<String>,
    pub enabled: bool,
    pub keep_hourly: i64,
    pub keep_daily: i64,
    pub keep_weekly: i64,
    pub keep_monthly: i64,
}

#[derive(Debug)]
pub struct ScheduleForm {
    pub site_id: i64,
    pub destination_id: Option<i64>,
    pub scope: String,
    pub interval_minutes: i64,
    pub enabled: bool,
    pub keep_hourly: i64,
    pub keep_daily: i64,
    pub keep_weekly: i64,
    pub keep_monthly: i64,
}

/// The columns of a schedule as they are stored.
#[derive(Debug)]
pub struct ScheduleColumns {
    pub id: i64,
    pub site_id: i64,
    pub destination_id: Option<i64>,
    pub scope: String,
    pub interval_minutes: i64,
    pub last_run_at: Option<String>,
    pub next_run_at: Option<String>,
    pub enabled: i64,
    pub keep_hourly: i64,
    pub keep_daily: i64,
    pub keep_weekly: i64,
    pub keep_monthly: i64,
}

/// The schedule that columns stand for.
pub fn row_to_schedule(c: ScheduleColumns) -> (s: Schedule)
    ensures
        s == (Schedule {
            id: c.id,
            site_id: c.site_id,
            destination_id: c.destination_id,
            scope: c.scope,
            interval_minutes: c.interval_minutes,
            last_run_at: c.last_run_at,
            next_run_at: c.next_run_at,
            enabled: c.enabled != 0,
            keep_hourly: c.keep_hourly,
            keep_daily: c.keep_daily,
            keep_weekly: c.keep_weekly,
            keep_monthly: c.keep_monthly,
        }),
{
    Schedule {
        id: c.id,
        site_id: c.site_id,
        destination_id: c.destination_id,
        scope: c.scope,
        interval_minutes: c.interval_minutes,
        last_run_at: c.last_run_at,
        next_run_at: c.next_run_at,
        enabled: c.enabled != 0,
        keep_hourly: c.keep_hourly,
        keep_daily: c.keep_daily,
        keep_weekly: c.keep_weekly,
        keep_monthly: c.keep_monthly,
    }
}

/// When a schedule that ran at `now` runs next.
pub fn next_run(now: &UtcTime, interval_minutes: i64) -> (t: UtcTime)
    requires
        now.wf(),
        clock::MIN_SECS <= now.secs + interval_minutes * 60 <= clock::MAX_SECS,
    ensures
        t.secs == now.secs + interval_minutes * 60,
        t.nanos == now.nanos,
        t.wf(),
{
    now.plus_seconds(interval_minutes * 60)
}

} // verus!
