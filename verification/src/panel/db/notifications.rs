//! Notifications that the alert rules raise.

use vstd::prelude::*;

verus! {

#[derive(Debug)]
pub struct Notification {
    pub id: i64,
    pub severity: String,
    pub rule: String,
    pub target: String,
    pub message: String,
    pub resolved_at: Option<String>,
    pub created_at: String,
}

impl Notification {
    /// Nobody has resolved it yet.
    pub open spec fn spec_is_open(self) -> bool {
        self.resolved_at is None
    }

    /// Whether nobody has resolved it yet.
    pub fn is_open(&self) -> (r: bool)
        ensures
            r == self.spec_is_open(),
    {
        self.resolved_at.is_none()
    }
}

} // verus!
