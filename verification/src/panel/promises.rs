//! What the panel promises as a whole: what its jobs ask of the agents and change in the
//! panel, when it raises an alert, how long it trusts, and what it sends.

use vstd::prelude::*;
use crate::agent::ops::site;
use crate::agent::ops::webserver::WebServer;
use crate::agent::store::RecordView;
use crate::clock;
use crate::clock::UtcTime;
use crate::common::error::Error;
use crate::common::models;
use crate::common::models::{
    BackupScope, JobKind, JobStatus, PhpVersion, ServerStatus, SiteStatus,
};
use crate::common::protocol::{Operation, OperationData, OperationResult};
use crate::crypto;
use crate::digits;
use crate::panel::alerts;
use crate::panel::api;
use crate::panel::auth;
use crate::panel::config::Config;
use crate::panel::credentials;
use crate::panel::credentials::StashedView;
use crate::panel::csrf;
use crate::panel::db::destinations;
use crate::panel::db::destinations::{CredentialsView, Destination};
use crate::panel::db::jobs::JobRow;
use crate::panel::db::servers::ServerRow;
use crate::panel::db::sites;
use crate::panel::db::sites::{SiteColumns, SiteRow};
use crate::panel::db::teams;
use crate::panel::email;
use crate::panel::email::{EmailMessage, SendingView};
use crate::panel::jobs;
use crate::panel::jobs::{
    effects_of, ends, heartbeat_of, maps_to, EffectView, Fields, JobEnd, Models, SourceSite,
    TargetLookup,
};
use crate::panel::totp;
use crate::text;
use vstd::utf8;

verus! {

// ---------------------------------------------------------------------------
// Jobs
// ---------------------------------------------------------------------------

/// An operation does what a kind of job is for, to the site of the job.
pub open spec fn serves_job(kind: JobKind, id: i64, o: Operation) -> bool {
    match kind {
        JobKind::SiteCreate => o matches Operation::CreateSite(c) && c.site_id == id,
        JobKind::SiteDelete => o matches Operation::DeleteSite { site_id, .. } && site_id == id,
        JobKind::SiteClone => o matches Operation::CloneSite(c) && !c.staging,
        JobKind::SiteStart => o matches Operation::StartSite { site_id } && site_id == id,
        JobKind::SiteStop => o matches Operation::StopSite { site_id } && site_id == id,
        JobKind::SiteRestart => o matches Operation::RestartSite { site_id } && site_id == id,
        JobKind::PhpSwitch => o matches Operation::SwitchPhp { site_id, .. } && site_id == id,
        JobKind::WordpressInstall => o is InstallWordpress,
        JobKind::WordpressUpdate => o matches Operation::UpdateWordpress { site_id } && site_id
            == id,
        JobKind::BackupCreate => o matches Operation::CreateBackup { site_id, .. } && site_id == id,
        JobKind::BackupRestore => o matches Operation::RestoreBackup { site_id, .. } && site_id
            == id,
        JobKind::SslIssue => o matches Operation::IssueCertificate { site_id, .. } && site_id == id,
        JobKind::SslRenew => o matches Operation::RenewCertificate { site_id } && site_id == id,
        JobKind::CacheClear => o matches Operation::ClearCache { site_id } && site_id == id,
        JobKind::StagingCreate => o matches Operation::CloneSite(c) && c.staging,
        JobKind::StagingPush => o matches Operation::CloneSite(c) && c.staging,
        JobKind::PluginAction => o matches Operation::PluginAction { site_id, .. } && site_id == id,
        JobKind::PluginUpdateAll => o matches Operation::UpdateAllPlugins { site_id } && site_id
            == id,
        JobKind::ThemeAction => o matches Operation::ThemeAction { site_id, .. } && site_id == id,
        JobKind::WpUserPasswordReset => o matches Operation::ResetWpPassword { site_id, .. }
            && site_id == id,
        JobKind::CronRun => o matches Operation::RunCronEvent { site_id, .. } && site_id == id,
        JobKind::CronModeSet => o matches Operation::SetWpCron { site_id, .. } && site_id == id,
        JobKind::ImportRun => o matches Operation::ImportSite(i) && i.site_id == id,
    }
}

/// A job of a site asks an agent for what the job is for, of that site; a job without a
/// site asks for nothing. Only a job that lacks its destination or its source asks for
/// nothing though it has a site.
pub proof fn law_jobs_ask_for_what_they_are_for(
    kind: JobKind,
    site_id: Option<i64>,
    site_domain: Option<String>,
    f: Fields,
    m: Models,
    target: TargetLookup,
    source: Option<SourceSite>,
    r: Option<Operation>,
)
    requires
        maps_to(kind, site_id, site_domain, f, m, target, source, r),
    ensures
        match site_id {
            None => r is None,
            Some(id) => match r {
                Some(o) => serves_job(kind, id, o),
                None => match kind {
                    JobKind::BackupCreate | JobKind::BackupRestore => target is Missing,
                    JobKind::ImportRun => m.source is None,
                    _ => false,
                },
            },
        },
{
}

/// What a payload asks for reaches the operation as it is: the PHP version by its text,
/// the scope and the snapshot of a backup, the slug and the action on a plugin, the login
/// whose password is reset, the names of domains, and the sites that are copied.
pub proof fn law_payloads_reach_the_operation(
    site_domain: Option<String>,
    f: Fields,
    m: Models,
    target: TargetLookup,
    source: Option<SourceSite>,
    id: i64,
    kind: JobKind,
    r: Option<Operation>,
    version: PhpVersion,
)
    requires
        maps_to(kind, Some(id), site_domain, f, m, target, source, r),
        r is Some,
        f.php_version matches Some(s) && s@ == version.spec_str(),
    ensures
        r matches Some(Operation::SwitchPhp { version: v, .. }) ==> v == version,
        r matches Some(Operation::CreateSite(c)) ==> c.php_version == version && (
        site_domain matches Some(d) ==> c.domain@ == d@) && (f.request_ssl matches Some(x)
            ==> c.request_ssl == x) && (f.install_wordpress matches Some(x) ==> c.install_wordpress
            == x) && (m.limits matches Some(x) ==> c.limits == x) && (m.cache matches Some(x)
            ==> c.cache == x) && (m.database_mode matches Some(x) ==> c.database_mode == x),
        r matches Some(Operation::ImportSite(i)) ==> i.php_version == version && (
        m.source matches Some(x) ==> i.source == x) && (f.resync matches Some(x) ==> i.resync
            == x),
        r matches Some(Operation::DeleteSite { keep_backups, .. }) ==> (
        f.keep_backups matches Some(x) ==> keep_backups == x),
        r matches Some(Operation::CreateBackup { scope, target: to, .. }) ==> (
        m.scope matches Some(x) ==> scope == x) && (target matches TargetLookup::Found(t) ==> to@
            == t@),
        r matches Some(Operation::RestoreBackup { scope, snapshot_id, target: to, .. }) ==> (
        m.scope matches Some(x) ==> scope == x) && (f.snapshot_id matches Some(x) ==> snapshot_id@
            == x@) && (target matches TargetLookup::Found(t) ==> to@ == t@),
        r matches Some(Operation::PluginAction { slug, action, .. }) ==> (f.slug matches Some(x)
            ==> slug@ == x@) && (m.action matches Some(x) ==> action == x),
        r matches Some(Operation::ThemeAction { slug, action, .. }) ==> (f.slug matches Some(x)
            ==> slug@ == x@) && (m.action matches Some(x) ==> action == x),
        r matches Some(Operation::ResetWpPassword { user_login, .. }) ==> (
        f.user_login matches Some(x) ==> user_login@ == x@),
        r matches Some(Operation::RunCronEvent { hook, .. }) ==> (f.hook matches Some(x) ==> hook@
            == x@),
        r matches Some(Operation::SetWpCron { mode, .. }) ==> (m.mode matches Some(x) ==> mode
            == x),
        r matches Some(Operation::IssueCertificate { domains, .. }) ==> (
        f.domains matches Some(x) ==> text::texts(domains@) == text::texts(x@)),
        r matches Some(Operation::CloneSite(c)) ==> (f.source_site_id matches Some(x)
            ==> c.source_site_id == x) && (f.target_site_id matches Some(x) ==> c.target_site_id
            == x) && (f.target_domain matches Some(x) ==> c.target_domain@ == x@) && (
        source matches Some(s) ==> c.php_version == s.php_version),
{
    models::law_php_version_is_read_back(version);
}

/// Where a payload says nothing, nothing is lost and nothing is left open: a deleted site
/// keeps its backups, a new site gets WordPress and a certificate, a backup is a full one,
/// and an import is of a new site.
pub proof fn law_silence_is_on_the_safe_side(
    site_domain: Option<String>,
    f: Fields,
    m: Models,
    target: TargetLookup,
    source: Option<SourceSite>,
    id: i64,
    kind: JobKind,
    r: Option<Operation>,
)
    requires
        maps_to(kind, Some(id), site_domain, f, m, target, source, r),
        f.keep_backups is None,
        f.install_wordpress is None,
        f.request_ssl is None,
        f.resync is None,
        m.scope is None,
    ensures
        r matches Some(Operation::DeleteSite { keep_backups, .. }) ==> keep_backups,
        r matches Some(Operation::CreateSite(c)) ==> c.install_wordpress && c.request_ssl,
        r matches Some(Operation::CreateBackup { scope, .. }) ==> scope == BackupScope::Full,
        r matches Some(Operation::RestoreBackup { scope, .. }) ==> scope == BackupScope::Full,
        r matches Some(Operation::ImportSite(i)) ==> !i.resync,
        r matches Some(Operation::CloneSite(c)) ==> c.search_replace,
{
}

/// What a job that has succeeded changes in the panel is what it was for: only the
/// deletion of a site deletes it, only stopping stops it, a PHP switch sets the version
/// that was asked of the agent, a backup is recorded as the agent told it, and a
/// certificate expires when the agent said. A job without a site changes nothing.
pub proof fn law_effects_are_what_the_job_was_for(
    kind: JobKind,
    id: i64,
    f: Fields,
    data: Option<OperationData>,
    now: UtcTime,
    snapshot: Seq<char>,
    i: int,
)
    requires
        0 <= i < effects_of(kind, Some(id), f, data, now, snapshot).len(),
    ensures
        effects_of(kind, None, f, data, now, snapshot).len() == 0,
        ({
            let e = effects_of(kind, Some(id), f, data, now, snapshot)[i];
            &&& e is Delete ==> kind == JobKind::SiteDelete
            &&& e == EffectView::SetStatus(SiteStatus::Stopped) ==> kind == JobKind::SiteStop
            &&& e matches EffectView::SetStatus(s) ==> s == SiteStatus::Online || s
                == SiteStatus::Stopped
            &&& e matches EffectView::SetPhp(v) ==> kind == JobKind::PhpSwitch && (
            f.php_version matches Some(s) && s@ == v.spec_str())
            &&& e matches EffectView::RecordBackup { snapshot_id, size_bytes } ==> kind
                == JobKind::BackupCreate && (data matches Some(
                OperationData::Backup { snapshot_id: told, size_bytes: counted, .. },
            ) ==> snapshot_id == told@ && size_bytes == counted)
            &&& e matches EffectView::SetSsl { expires } ==> (kind == JobKind::SiteCreate || kind
                == JobKind::SslIssue || kind == JobKind::SslRenew) && (kind != JobKind::SiteCreate
                && (data matches Some(OperationData::Certificate { expires_at, .. }) && expires
                == expires_at) || expires.secs == (now.secs + 90 * 24 * 60 * 60) as i64)
        }),
{
    reveal_strlit("8.1");
    reveal_strlit("8.2");
    reveal_strlit("8.3");
    reveal_strlit("8.4");
}

/// Every job that has succeeded and changes the state of its site in the panel does so.
pub proof fn law_succeeded_jobs_take_effect(
    id: i64,
    f: Fields,
    data: Option<OperationData>,
    now: UtcTime,
    snapshot: Seq<char>,
    version: PhpVersion,
)
    ensures
        effects_of(JobKind::SiteDelete, Some(id), f, data, now, snapshot).contains(
            EffectView::Delete,
        ),
        effects_of(JobKind::SiteStop, Some(id), f, data, now, snapshot).contains(
            EffectView::SetStatus(SiteStatus::Stopped),
        ),
        effects_of(JobKind::SiteStart, Some(id), f, data, now, snapshot).contains(
            EffectView::SetStatus(SiteStatus::Online),
        ),
        effects_of(JobKind::SiteRestart, Some(id), f, data, now, snapshot).contains(
            EffectView::SetStatus(SiteStatus::Online),
        ),
        effects_of(JobKind::SiteCreate, Some(id), f, data, now, snapshot).contains(
            EffectView::SetStatus(SiteStatus::Online),
        ),
        effects_of(JobKind::ImportRun, Some(id), f, data, now, snapshot).contains(
            EffectView::SetStatus(SiteStatus::Online),
        ),
        effects_of(JobKind::SslIssue, Some(id), f, data, now, snapshot).len() == 1,
        effects_of(JobKind::SslRenew, Some(id), f, data, now, snapshot).len() == 1,
        effects_of(JobKind::BackupCreate, Some(id), f, data, now, snapshot).len() == 1,
        (f.php_version matches Some(s) && s@ == version.spec_str()) ==> effects_of(
            JobKind::PhpSwitch,
            Some(id),
            f,
            data,
            now,
            snapshot,
        ).contains(EffectView::SetPhp(version)),
{
    models::law_php_version_is_read_back(version);
    assert(effects_of(JobKind::SiteDelete, Some(id), f, data, now, snapshot)[0]
        == EffectView::Delete);
    assert(effects_of(JobKind::SiteStop, Some(id), f, data, now, snapshot)[0]
        == EffectView::SetStatus(SiteStatus::Stopped));
    let on = EffectView::SetStatus(SiteStatus::Online);
    assert(effects_of(JobKind::SiteStart, Some(id), f, data, now, snapshot)[0] == on);
    assert(effects_of(JobKind::SiteRestart, Some(id), f, data, now, snapshot)[0] == on);
    assert(effects_of(JobKind::SiteCreate, Some(id), f, data, now, snapshot)[0] == on);
    assert(effects_of(JobKind::ImportRun, Some(id), f, data, now, snapshot)[0] == on);
    if f.php_version matches Some(s) && s@ == version.spec_str() {
        assert(effects_of(JobKind::PhpSwitch, Some(id), f, data, now, snapshot)[0]
            == EffectView::SetPhp(version));
    }
}

/// A job succeeds exactly where its agent reports success, with what the agent tells, and
/// fails with the agent's own error where it reports one.
pub proof fn law_jobs_end_as_their_agent_says(
    outcome: Result<OperationResult, Error>,
    demo_data: bool,
    e: JobEnd,
)
    requires
        ends(Some(outcome), demo_data, e),
    ensures
        e is Succeed <==> (outcome matches Ok(r) && r.success),
        e matches JobEnd::Succeed { steps, data } ==> (outcome matches Ok(r) && steps == r.steps
            && data == r.data),
        (outcome matches Ok(r) && !r.success && r.error is Some) ==> (e matches JobEnd::Fail {
            error,
        } && error@ == (outcome->Ok_0).error->0@.message()),
{
}

/// A server is online exactly where its agent answers with metrics, which are stored, and
/// offline exactly where it does not answer.
pub proof fn law_heartbeat_tells_who_answers(result: Result<OperationResult, Error>)
    ensures
        heartbeat_of(result).status == ServerStatus::Online <==> (result matches Ok(r)
            && r.data is Metrics),
        heartbeat_of(result).status == ServerStatus::Offline <==> result is Err,
        heartbeat_of(result).metrics matches Some(x) ==> (result matches Ok(r) && r.data
            == OperationData::Metrics(x)),
        heartbeat_of(result).metrics is Some <==> heartbeat_of(result).status
            == ServerStatus::Online,
{
}

/// The steps that are shown for a switch of PHP, for a renewed certificate and for a
/// cleared cache are those that an agent reports, in their order.
pub proof fn law_shown_steps_are_those_of_the_agent(
    config: crate::agent::config::Config,
    web: WebServer,
    record: RecordView,
    next: RecordView,
    version: PhpVersion,
)
    ensures
        jobs::plan_of(JobKind::PhpSwitch) == (site::switch_plan(config, record, version)
            + site::switch_over_plan(web, next, record.php_version)).map_values(
            |s: crate::agent::plan::StageView| s.name,
        ),
        jobs::plan_of(JobKind::SslRenew) == site::renew_plan(web, record).map_values(
            |s: crate::agent::plan::StageView| s.name,
        ),
        jobs::plan_of(JobKind::CacheClear) == site::clear_plan(web, record).map_values(
            |s: crate::agent::plan::StageView| s.name,
        ),
{
    let name = |s: crate::agent::plan::StageView| s.name;
    assert(jobs::plan_of(JobKind::PhpSwitch) =~= (site::switch_plan(config, record, version)
        + site::switch_over_plan(web, next, record.php_version)).map_values(name));
    assert(jobs::plan_of(JobKind::SslRenew) =~= site::renew_plan(web, record).map_values(name));
    assert(jobs::plan_of(JobKind::CacheClear) =~= site::clear_plan(web, record).map_values(name));
}

// ---------------------------------------------------------------------------
// Alerts
// ---------------------------------------------------------------------------

/// A disk is full above 85 percent, written as the bits of a single-precision number; a
/// certificate is about to expire within its last 14 days; a backup is stale after 48
/// hours, or where there is none.
pub proof fn law_alerts_have_their_thresholds(
    bits: u32,
    expires: UtcTime,
    now: UtcTime,
    last_backup: Seq<char>,
)
    ensures
        alerts::disk_is_high(bits) <==> 0x42AA_0000 < bits <= 0x7F80_0000,
        alerts::expires_soon(expires, now) <==> 0 < expires.total() - now.total() < 14 * 24 * 60
            * 60 * 1_000_000_000int,
        alerts::is_stale(None, now),
        crate::panel::db::times::stored_time(last_backup) matches Some(t) ==> (alerts::is_stale(
            Some(last_backup),
            now,
        ) <==> now.total() - t.total() > 48 * 60 * 60 * 1_000_000_000int),
        expires.total() == expires.secs * 1_000_000_000int + expires.nanos,
{
}

/// Each rule has its severity: what stops a site is critical, what will is a warning.
pub proof fn law_severities_are_apart()
    ensures
        alerts::severity_of("disk.high"@) == "critical"@,
        alerts::severity_of("site.offline"@) == "critical"@,
        alerts::severity_of("ssl.expiring"@) == "warning"@,
        alerts::severity_of("backup.stale"@) == "warning"@,
{
    reveal_strlit("disk.high");
    reveal_strlit("site.offline");
    reveal_strlit("ssl.expiring");
    reveal_strlit("backup.stale");
    assert("disk.high"@.len() == 9);
    assert("site.offline"@.len() == 12 && "site.offline"@[1] == 'i');
    assert("ssl.expiring"@.len() == 12 && "ssl.expiring"@[1] == 's');
    assert("backup.stale"@.len() == 12 && "backup.stale"@[0] == 'b');
}

// ---------------------------------------------------------------------------
// Trust
// ---------------------------------------------------------------------------

/// Owners manage everyone below them, admins operators and viewers, operators viewers, and
/// viewers nobody. Owners and admins see all sites; everyone but viewers may act.
pub proof fn law_roles_have_their_rights()
    ensures
        teams::manages("owner"@, "admin"@),
        teams::manages("admin"@, "operator"@),
        teams::manages("operator"@, "viewer"@),
        !teams::manages("viewer"@, "viewer"@),
        !teams::manages("admin"@, "owner"@),
        teams::sees_all("owner"@) && teams::sees_all("admin"@),
        !teams::sees_all("operator"@) && !teams::sees_all("viewer"@),
        teams::acts("owner"@) && teams::acts("admin"@) && teams::acts("operator"@),
        !teams::acts("viewer"@),
{
    reveal_strlit("owner");
    reveal_strlit("admin");
    reveal_strlit("operator");
    reveal_strlit("viewer");
    assert("owner"@.len() == 5 && "owner"@[0] == 'o');
    assert("admin"@.len() == 5 && "admin"@[0] == 'a');
    assert("operator"@.len() == 8);
    assert("viewer"@.len() == 6);
}

/// A user reaches a site exactly with a role that sees all sites, or with a grant.
pub proof fn law_sites_are_reached_by_role_or_grant(role: Seq<char>, grants: i64)
    ensures
        teams::reaches(role, grants) <==> role == "owner"@ || role == "admin"@ || grants > 0,
{
}

/// The cookie of a session is kept from scripts and from other sites, and goes out over
/// TLS alone exactly where it is to. It lasts 14 days, as the session does.
pub proof fn law_session_cookie_is_guarded(token: Seq<char>, secure: bool)
    ensures
        ({
            let c = auth::signed_in(token, secure);
            &&& text::has(c, "; HttpOnly; SameSite=Lax; "@)
            &&& text::has(c, "; Max-Age=1209600"@)
            &&& secure ==> text::has(c, "; Secure"@)
            &&& auth::signed_in(token, true) == auth::signed_in(token, false) + "; Secure"@
        }),
        auth::SESSION_TTL_DAYS * 24 * 60 * 60 == 1209600,
{
    reveal_strlit("; Path=/; HttpOnly; SameSite=Lax; Max-Age=");
    reveal_strlit("; HttpOnly; SameSite=Lax; ");
    reveal_strlit("; Max-Age=");
    reveal_strlit("; Max-Age=1209600");
    reveal_strlit("1209600");
    let mid = "; Path=/; HttpOnly; SameSite=Lax; Max-Age="@;
    let a = auth::COOKIE_NAME@ + "="@ + token;
    let age = digits::dec_int(auth::SESSION_TTL_DAYS * 24 * 3600);
    lemma_fortnight();
    let mark = auth::secure_mark(secure);
    let c = auth::signed_in(token, secure);
    let none = Seq::<char>::empty();
    let n = mid.len() as int;
    let one = "; HttpOnly; SameSite=Lax; "@;
    assert(mid.subrange(8, 8int + one.len()) =~= one);
    let front = a + mid.take(8);
    let back = mid.skip(8 + one.len() as int) + age + mark;
    assert(c =~= front + one + back);
    crate::agent::ops::effects::lemma_has_middle(front, one, back);
    let two = "; Max-Age=1209600"@;
    assert(mid.skip(n - 10) + age =~= two);
    let front = a + mid.take(n - 10);
    assert(c =~= front + two + mark);
    crate::agent::ops::effects::lemma_has_middle(front, two, mark);
    let plain = auth::signed_in(token, false);
    assert(auth::secure_mark(false) =~= none);
    assert(plain + "; Secure"@ =~= auth::signed_in(token, true));
    crate::agent::ops::effects::lemma_has_middle(plain, "; Secure"@, none);
    assert(plain + "; Secure"@ + none =~= auth::signed_in(token, true));
}

/// The seconds of fourteen days, in decimal.
proof fn lemma_fortnight()
    ensures
        digits::dec_int(auth::SESSION_TTL_DAYS * 24 * 3600) == seq![
            '1',
            '2',
            '0',
            '9',
            '6',
            '0',
            '0',
        ],
{
    reveal_with_fuel(digits::dec, 8);
    assert(digits::dec(1209600) =~= seq!['1', '2', '0', '9', '6', '0', '0']);
}

/// An account is locked at six failures within a quarter of an hour.
pub proof fn law_logins_are_throttled()
    ensures
        auth::THROTTLE_MAX_FAILURES == 6,
        auth::THROTTLE_WINDOW_MINUTES == 15,
        auth::ATTEMPT_HOURS == 24,
{
}

/// What waits for a user waits for a quarter of an hour, and then no longer.
pub proof fn law_values_wait_for_a_quarter_of_an_hour(
    m: Map<Seq<char>, StashedView>,
    user_id: i64,
    value: Seq<char>,
    handle: Seq<char>,
    put: u64,
    asked: u64,
)
    requires
        put <= asked,
    ensures
        credentials::found(
            credentials::stored(m, user_id, value, handle, put),
            user_id,
            handle,
            asked,
        ) == if asked - put < 15 * 60 * 1_000_000_000int {
            Some(value)
        } else {
            None
        },
{
}

/// A code of six digits is accepted for the half minute that it is shown in, and for the
/// half minutes before and after that one.
pub proof fn law_codes_are_accepted_for_a_minute_and_a_half(
    secret: Seq<u8>,
    shown: u64,
    now: u64,
)
    requires
        shown / 30 <= now / 30 + 1,
        now / 30 <= shown / 30 + 1,
    ensures
        totp::accepts(
            secret,
            digits::padded(totp::code_of(secret, (shown / 30) as u64) as nat, 6),
            now,
        ),
        0 <= totp::code_of(secret, (shown / 30) as u64) < 1_000_000,
{
    totp::law_current_code_is_accepted(secret, now, (shown / 30) as u64);
}

/// A day of the tokens against forged requests has 24 hours, counted from 1970.
pub proof fn law_days_are_counted_from_1970(t: UtcTime)
    requires
        t.secs >= 0,
    ensures
        csrf::spec_day_bucket(t) == t.secs as int / 86_400,
{
}

// ---------------------------------------------------------------------------
// Mail
// ---------------------------------------------------------------------------

/// A message is sent from the panel's address to the one that it is for, and to no other,
/// after signing in exactly where there is a user to sign in as; its headers name both
/// addresses and its subject, its text follows, and a line with a dot ends it.
pub proof fn law_mail_goes_to_its_recipient(config: Config, msg: EmailMessage, now: UtcTime)
    ensures
        ({
            let v = email::conversation(config, msg, now);
            let n = v.len() as int;
            let from = match config.smtp_from {
                Some(s) => s@,
                None => "noreply@localhost"@,
            };
            &&& n >= 6
            &&& v[n - 4].sending == SendingView::Line("MAIL FROM:<"@ + from + ">"@)
            &&& v[n - 3].sending == SendingView::Line("RCPT TO:<"@ + msg.to@ + ">"@)
            &&& v[n - 2].sending == SendingView::Line("DATA"@)
            &&& v[n - 1].sending matches SendingView::Message(whole) && text::starts_with(
                whole,
                "From: "@ + from + "\r\nTo: "@ + msg.to@ + "\r\n"@,
            ) && text::has(whole, "\r\nSubject: "@ + msg.subject@ + "\r\n"@)
                && crate::agent::ops::effects::ends_with(
                whole,
                "\r\n\r\n"@ + msg.body_text@ + "\r\n.\r\n"@,
            )
            &&& match (config.smtp_user, config.smtp_password) {
                (Some(user), Some(password)) if user@.len() > 0 => n == 9 && v[2].sending
                    == SendingView::Line("AUTH LOGIN"@) && v[3].sending == SendingView::Line(
                    crypto::base64_of(utf8::encode_utf8(user@)),
                ) && v[4].sending == SendingView::Line(
                    crypto::base64_of(utf8::encode_utf8(password@)),
                ) && v[4].code == 235,
                _ => n == 6,
            }
            &&& v[n - 4].code == 250 && v[n - 3].code == 250 && v[n - 2].code == 354 && v[n
                - 1].code == 250
        }),
{
    reveal_strlit("\r\nDate: ");
    reveal_strlit("\r\n");
    reveal_strlit("\r\n\r\n");
    reveal_strlit("\r\nContent-Type: text/plain; charset=utf-8\r\n\r\n");
    let v = email::conversation(config, msg, now);
    let n = v.len() as int;
    let from = email::sender(config);
    let date = clock::rfc2822_of(now.secs, now.nanos);
    let whole = email::wire_message(config, msg, date);
    let kind = "\r\nContent-Type: text/plain; charset=utf-8\r\n\r\n"@;
    let k = kind.len() as int;
    assert("\r\nDate: "@.take(2) =~= "\r\n"@);
    assert(kind.take(2) =~= "\r\n"@);
    assert(kind.skip(k - 4) =~= "\r\n\r\n"@);
    let head = "From: "@ + from + "\r\nTo: "@ + msg.to@ + "\r\n"@;
    assert(whole.subrange(0, head.len() as int) =~= head);
    let subject = "\r\nSubject: "@ + msg.subject@ + "\r\n"@;
    let before = "From: "@ + from + "\r\nTo: "@ + msg.to@ + "\r\nDate: "@ + date;
    let after = kind.skip(2) + msg.body_text@ + "\r\n.\r\n"@;
    assert(whole =~= before + subject + after);
    crate::agent::ops::effects::lemma_has_middle(before, subject, after);
    let end = "\r\n\r\n"@ + msg.body_text@ + "\r\n.\r\n"@;
    assert(whole.subrange(whole.len() - end.len(), whole.len() as int) =~= end);
}

// ---------------------------------------------------------------------------
// Destinations
// ---------------------------------------------------------------------------

/// A destination is reached with its own keys, password and region, in its own bucket;
/// without a password of the repository it is refused.
pub proof fn law_destinations_are_reached_with_their_own_keys(
    dest: Destination,
    c: CredentialsView,
)
    ensures
        destinations::target_with(dest, c) is Ok <==> c.restic_password.len() > 0,
        destinations::target_with(dest, c) matches Ok(t) ==> {
            &&& t.password == c.restic_password
            &&& t.env.contains(("AWS_ACCESS_KEY_ID"@, c.access_key_id))
            &&& t.env.contains(("AWS_SECRET_ACCESS_KEY"@, c.secret))
            &&& (dest.region matches Some(r) && r@.len() > 0) ==> t.env.contains(
                ("AWS_DEFAULT_REGION"@, (dest.region->0)@),
            )
            &&& text::starts_with(t.repo, "s3:"@)
            &&& text::has(t.repo, "/"@ + dest.bucket@)
        },
{
    if let Ok(t) = destinations::target_with(dest, c) {
        assert(t.env[0] == ("AWS_ACCESS_KEY_ID"@, c.access_key_id));
        assert(t.env[1] == ("AWS_SECRET_ACCESS_KEY"@, c.secret));
        if dest.region matches Some(r) && r@.len() > 0 {
            assert(t.env[2] == ("AWS_DEFAULT_REGION"@, (dest.region->0)@));
        }
        let host = destinations::host_of(
            text::text_opt(dest.endpoint),
            text::text_opt(dest.region),
        );
        let p = text::trim(dest.repo_prefix@, text::Class::Is('/'));
        assert(t.repo.subrange(0, "s3:"@.len() as int) =~= "s3:"@);
        let mid = "/"@ + dest.bucket@;
        let front = "s3:"@ + host;
        if p.len() == 0 {
            assert(t.repo =~= front + mid + Seq::<char>::empty());
            crate::agent::ops::effects::lemma_has_middle(front, mid, Seq::empty());
        } else {
            assert(t.repo =~= front + mid + ("/"@ + p));
            crate::agent::ops::effects::lemma_has_middle(front, mid, "/"@ + p);
        }
    }
}

/// A code is accepted only where it is the code of the half minute of now, or of the one
/// before or after.
pub proof fn law_other_codes_are_refused(secret: Seq<u8>, code: Seq<char>, now: u64)
    requires
        totp::accepts(secret, code, now),
    ensures
        exists|step: u64|
            now / 30 - 1 <= step <= now / 30 + 1 && digits::parse(code, u32::MAX as nat) == Some(
                (#[trigger] totp::code_of(secret, step)) as nat,
            ),
{
    let n = digits::parse(code, u32::MAX as nat)->0;
    let step = choose|step: u64| totp::near(step, now) && #[trigger] totp::code_of(secret, step) == n;
    assert(now / 30 - 1 <= step <= now / 30 + 1 && totp::code_of(secret, step) == n);
}

// ---------------------------------------------------------------------------
// What is shown
// ---------------------------------------------------------------------------

/// A user is shown exactly the servers, among those that there are, that the user's role
/// sees or that hold one of the user's sites; nothing is added, and nothing is left out.
pub proof fn law_servers_are_shown_to_those_who_see_them(
    rows: Seq<ServerRow>,
    role: Seq<char>,
    sites: Seq<SiteRow>,
    row: ServerRow,
)
    ensures
        api::seen_servers(rows, role, sites).contains(row) <==> rows.contains(row) && (
        teams::sees_all(role) || exists|i: int|
            0 <= i < sites.len() && (#[trigger] sites[i]).site.server_id == row.server.id),
        teams::sees_all(role) ==> api::seen_servers(rows, role, sites) == rows,
    decreases rows.len(),
{
    if rows.len() > 0 {
        let front = rows.drop_last();
        let last = rows.last();
        law_servers_are_shown_to_those_who_see_them(front, role, sites, row);
        let seen = api::seen_servers(front, role, sites);
        assert(rows =~= front.push(last));
        lemma_push_contains(front, last, row);
        lemma_push_contains(seen, last, row);
    }
}

/// A user is shown exactly the jobs, among those that there are, that the user's role sees
/// or that are about one of the user's sites.
pub proof fn law_jobs_are_shown_to_those_who_see_them(
    rows: Seq<JobRow>,
    role: Seq<char>,
    sites: Seq<SiteRow>,
    row: JobRow,
)
    ensures
        api::seen_jobs(rows, role, sites).contains(row) <==> rows.contains(row) && (teams::sees_all(
            role,
        ) || (row.job.site_id matches Some(id) && exists|i: int|
            0 <= i < sites.len() && (#[trigger] sites[i]).site.id == id)),
        teams::sees_all(role) ==> api::seen_jobs(rows, role, sites) == rows,
    decreases rows.len(),
{
    if rows.len() > 0 {
        let front = rows.drop_last();
        let last = rows.last();
        law_jobs_are_shown_to_those_who_see_them(front, role, sites, row);
        let seen = api::seen_jobs(front, role, sites);
        assert(rows =~= front.push(last));
        lemma_push_contains(front, last, row);
        lemma_push_contains(seen, last, row);
    }
}

/// A longer list holds what the shorter one does, and its last item.
proof fn lemma_push_contains<T>(v: Seq<T>, last: T, item: T)
    ensures
        v.push(last).contains(item) <==> v.contains(item) || item == last,
{
    let w = v.push(last);
    if v.contains(item) {
        let i = choose|i: int| 0 <= i < v.len() && v[i] == item;
        assert(w[i] == item);
    }
    if item == last {
        assert(w[v.len() as int] == item);
    }
    if w.contains(item) && item != last {
        let i = choose|i: int| 0 <= i < w.len() && w[i] == item;
        assert(v[i] == item);
    }
}

/// What runs is shown as good, what has failed as bad, and nothing else as either.
pub proof fn law_colours_tell_good_from_bad(
    server: ServerStatus,
    site: SiteStatus,
    job: JobStatus,
)
    ensures
        server.spec_tone() == "ok"@ <==> server == ServerStatus::Online,
        server.spec_tone() == "bad"@ <==> server == ServerStatus::Offline,
        site.spec_tone() == "ok"@ <==> site == SiteStatus::Online,
        site.spec_tone() == "bad"@ <==> site == SiteStatus::Failed,
        job.spec_tone() == "ok"@ <==> job == JobStatus::Succeeded,
        job.spec_tone() == "bad"@ <==> job == JobStatus::Failed,
        job.spec_terminal() <==> job != JobStatus::Queued && job != JobStatus::Running,
{
    reveal_strlit("ok");
    reveal_strlit("bad");
    reveal_strlit("info");
    reveal_strlit("warn");
    reveal_strlit("muted");
    assert("ok"@.len() == 2 && "bad"@.len() == 3 && "info"@.len() == 4);
    assert("warn"@.len() == 4 && "muted"@.len() == 5);
}

/// A site is read from its columns, each into the place that it is meant for.
pub proof fn law_columns_keep_their_meaning(c: SiteColumns, now: UtcTime)
    ensures
        ({
            let s = sites::site_of(c, now);
            &&& s.id == c.id && s.server_id == c.server_id && s.domain == c.domain
            &&& s.title == c.title && s.wp_version == c.wp_version && s.parent_site_id
                == c.parent_site_id
            &&& s.limits.cpu_hundredths == c.cpu_hundredths
            &&& 0 <= c.memory_mb <= u32::MAX ==> s.limits.memory_mb == c.memory_mb
            &&& 0 <= c.php_workers <= u16::MAX ==> s.limits.php_workers == c.php_workers
            &&& 0 <= c.cache_ttl_seconds <= u32::MAX ==> s.cache.ttl_seconds == c.cache_ttl_seconds
            &&& 0 <= c.uid <= u32::MAX ==> s.uid == c.uid
            &&& 0 <= c.disk_usage_mb ==> s.disk_usage_mb == c.disk_usage_mb
            &&& s.cache.fastcgi_cache <==> c.cache_fastcgi != 0
            &&& s.cache.redis_object_cache <==> c.cache_redis != 0
            &&& s.cache.opcache <==> c.cache_opcache != 0
            &&& s.cache.brotli <==> c.cache_brotli != 0
            &&& s.ssl.enabled <==> c.ssl_enabled != 0
            &&& s.ssl.auto_renew <==> c.ssl_auto_renew != 0
            &&& s.ssl.expires_at is Some <==> c.ssl_expires_at is Some
        }),
{
}

/// A certificate that is in use is shown as good from its last fourteen days on no longer,
/// and as bad once a day has passed since it expired; where none is in use, it is muted.
pub proof fn law_certificates_are_shown_by_what_is_left(s: models::Site, now: UtcTime)
    ensures
        !s.ssl.enabled <==> s.spec_ssl_tone(now) == "muted"@,
        s.ssl.enabled ==> (s.ssl.expires_at matches Some(t) ==> (s.spec_ssl_tone(now) == "bad"@
            <==> t.spec_days_since(now) < 0) && (s.spec_ssl_tone(now) == "ok"@
            <==> t.spec_days_since(now) >= 14)),
        s.ssl.enabled && s.ssl.expires_at is None ==> s.spec_ssl_tone(now) == "ok"@,
{
    reveal_strlit("ok");
    reveal_strlit("bad");
    reveal_strlit("warn");
    reveal_strlit("muted");
    assert("ok"@.len() == 2 && "bad"@.len() == 3 && "warn"@.len() == 4 && "muted"@.len() == 5);
}

} // verus!
