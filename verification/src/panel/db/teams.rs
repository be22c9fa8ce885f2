//! User management: roles, invitations, per-site access.

use vstd::prelude::*;
use crate::clock;
use crate::clock::UtcTime;
use crate::text;

verus! {

// ---------------------------------------------------------------------------
// Role definitions
// ---------------------------------------------------------------------------

/// Roles ordered by privilege level. Higher can manage lower.
pub open spec fn roles() -> Seq<Seq<char>> {
    seq!["owner"@, "admin"@, "operator"@, "viewer"@]
}

/// Executable form of [`roles`].
pub fn role_list() -> (v: Vec<String>)
    ensures
        text::texts(v@) == roles(),
{
    text::list4("owner", "admin", "operator", "viewer")
}

/// The place of a role in the order, the most privileged one first; a text that is no
/// role comes last.
pub open spec fn level(role: Seq<char>) -> u8 {
    if role == "owner"@ {
        0
    } else if role == "admin"@ {
        1
    } else if role == "operator"@ {
        2
    } else if role == "viewer"@ {
        3
    } else {
        255
    }
}

pub fn role_level(role: &str) -> (n: u8)
    ensures
        n == level(role@),
{
    if text::same(role, "owner") {
        0
    } else if text::same(role, "admin") {
        1
    } else if text::same(role, "operator") {
        2
    } else if text::same(role, "viewer") {
        3
    } else {
        255
    }
}

/// The role sees all sites without an explicit grant.
pub open spec fn sees_all(role: Seq<char>) -> bool {
    role == "owner"@ || role == "admin"@
}

/// The role may perform state-changing requests at all.
pub open spec fn acts(role: Seq<char>) -> bool {
    level(role) <= level("operator"@)
}

/// The role may modify users of another role.
pub open spec fn manages(actor: Seq<char>, target: Seq<char>) -> bool {
    level(actor) < level(target)
}

/// Returns true if this role can see all sites without an explicit grant.
pub fn has_global_access(role: &str) -> (r: bool)
    ensures
        r == sees_all(role@),
{
    text::same(role, "owner") || text::same(role, "admin")
}

/// Returns true if the role may perform state-changing requests at all.
/// `viewer` is read-only; every other known role may act, subject to per-site
/// grants.
pub fn can_mutate(role: &str) -> (r: bool)
    ensures
        r == acts(role@),
{
    role_level(role) <= role_level("operator")
}

/// Returns true if `actor_role` can modify users at `target_role` level.
pub fn can_manage(actor_role: &str, target_role: &str) -> (r: bool)
    ensures
        r == manages(actor_role@, target_role@),
{
    role_level(actor_role) < role_level(target_role)
}

/// A role manages the roles after it in the list and no other. Whoever sees everything
/// may act, and whoever is not on the list may neither see everything, nor act, nor
/// manage a role.
pub proof fn law_roles_are_ordered(i: int, j: int, stranger: Seq<char>)
    requires
        0 <= i < 4,
        0 <= j < 4,
        !roles().contains(stranger),
    ensures
        manages(roles()[i], roles()[j]) == (i < j),
        sees_all(roles()[i]) == (i < 2),
        acts(roles()[i]) == (i < 3),
        !sees_all(stranger),
        !acts(stranger),
        !manages(stranger, roles()[j]),
{
    reveal_strlit("owner");
    reveal_strlit("admin");
    reveal_strlit("operator");
    reveal_strlit("viewer");
    assert("owner"@[0] == 'o');
    assert("admin"@[0] == 'a');
    assert("operator"@[1] == 'p');
    assert("owner"@[1] == 'w');
    assert("viewer"@[0] == 'v');
    assert(roles()[0] == "owner"@);
    assert(roles()[1] == "admin"@);
    assert(roles()[2] == "operator"@);
    assert(roles()[3] == "viewer"@);
}

/// Nobody manages the own role, nor one that manages theirs, and who manages a role
/// manages those that it manages.
pub proof fn law_nobody_manages_upward(a: Seq<char>, b: Seq<char>, c: Seq<char>)
    ensures
        !manages(a, a),
        manages(a, b) ==> !manages(b, a),
        manages(a, b) && manages(b, c) ==> manages(a, c),
{
}

/// A user can reach a site with a role that sees them all, or with a grant.
pub open spec fn reaches(role: Seq<char>, grants: i64) -> bool {
    sees_all(role) || grants > 0
}

/// Returns true if a user can access a site, considering their role and how many
/// explicit grants there are.
pub fn can_access_site(user_role: &str, grants: i64) -> (r: bool)
    ensures
        r == reaches(user_role@, grants),
{
    if has_global_access(user_role) {
        return true;
    }
    grants > 0
}

// ---------------------------------------------------------------------------
// Rows
// ---------------------------------------------------------------------------

#[derive(Debug)]
pub struct UserSummary {
    pub id: i64,
    pub email: String,
    pub name: String,
    pub role: String,
    pub last_login_at: Option<String>,
    pub created_at: String,
}

#[derive(Debug)]
pub struct SiteAccess {
    pub site_id: i64,
    pub domain: String,
    pub access: String,
}

#[derive(Debug)]
pub struct Invitation {
    pub id: i64,
    pub email: String,
    pub role: String,
    pub token: String,
    pub invited_by_email: String,
    pub expires_at: String,
    pub used_at: Option<String>,
    pub created_at: String,
}

/// When an invitation of `now` expires.
pub fn invitation_expiry(now: &UtcTime, ttl_days: i64) -> (t: UtcTime)
    requires
        now.wf(),
        clock::MIN_SECS <= now.secs + ttl_days * 86_400 <= clock::MAX_SECS,
    ensures
        t.secs == now.secs + ttl_days * 86_400,
        t.nanos == now.nanos,
        t.wf(),
{
    now.plus_seconds(ttl_days * 86_400)
}

} // verus!
