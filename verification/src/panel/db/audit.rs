//! The audit log.

use vstd::prelude::*;
use crate::clock::UtcTime;
use crate::common::models::AuditEntry;
use crate::panel::db::times;

verus! {

/// The columns of an entry as they are stored.
#[derive(Debug)]
pub struct AuditColumns {
    pub id: i64,
    pub actor: String,
    pub action: String,
    pub target: String,
    pub detail: Option<String>,
    pub success: i64,
    pub created_at: String,
}

/// The entry that columns stand for; `now` stands for a time that cannot be read.
pub open spec fn entry_of(c: AuditColumns, now: UtcTime) -> AuditEntry {
    AuditEntry {
        id: c.id,
        actor: c.actor,
        action: c.action,
        target: c.target,
        detail: c.detail,
        success: c.success != 0,
        created_at: times::stored_or(c.created_at@, now),
    }
}

/// Executable form of [`entry_of`].
pub fn map(c: AuditColumns, now: &UtcTime) -> (e: AuditEntry)
    ensures
        e == entry_of(c, *now),
{
    let created_at = times::parse_ts_or(c.created_at.as_str(), now);
    AuditEntry {
        id: c.id,
        actor: c.actor,
        action: c.action,
        target: c.target,
        detail: c.detail,
        success: c.success != 0,
        created_at,
    }
}

} // verus!
