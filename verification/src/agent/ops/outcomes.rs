//! What operations come to in the end, and what they promise of sites elsewhere.

use vstd::prelude::*;
use crate::agent::exec;
use crate::agent::exec::OutputView;
use crate::agent::ops::backup;
use crate::agent::ops::dispatch::{begins, carried, concludes, Begun, Conclusion};
use crate::agent::ops::docker;
use crate::agent::ops::docker::has_pair;
use crate::agent::ops::effects;
use crate::agent::ops::effects::{
    args_of, below, copies, docker_does, every, first_then, from_end, is_name, loads, runs,
    script_of, some, writes,
};
use crate::agent::ops::filesystem;
use crate::agent::ops::flow::{ChangeView, FlowView, Fresh, RunView};
use crate::agent::ops::import;
use crate::agent::ops::lifecycle;
use crate::agent::ops::lifecycle::{configures, puts, reloads, starts_as};
use crate::agent::ops::nginx;
use crate::agent::ops::nginx::NginxServer;
use crate::agent::ops::promises;
use crate::agent::ops::promises::{flow_of, makes_database, plan_of};
use crate::agent::ops::site;
use crate::agent::plan;
use crate::agent::plan::ActionView;
use crate::agent::state::AgentState;
use crate::agent::store::RecordView;
use crate::clock::UtcTime;
use crate::common::error::ErrorView;
use crate::common::models;
use crate::common::models::{BackupScope, PhpVersion, RetentionPolicy, SiteStatus};
use crate::common::protocol::{
    ImportRequest, ImportSource, LogStream, Operation, OperationData, ResticTarget,
    ResticTargetView, SshAuth,
};
use crate::digits;
use crate::text;

verus! {

// ---------------------------------------------------------------------------
// Refusals and failures
// ---------------------------------------------------------------------------

/// The site that an operation needs to know.
pub open spec fn needed_site(operation: Operation) -> Option<i64> {
    match operation {
        Operation::DeleteSite { site_id, .. } => Some(site_id),
        Operation::StartSite { site_id } => Some(site_id),
        Operation::StopSite { site_id } => Some(site_id),
        Operation::RestartSite { site_id } => Some(site_id),
        Operation::GetSiteStatus { site_id } => Some(site_id),
        Operation::CloneSite(request) => Some(request.source_site_id),
        Operation::SwitchPhp { site_id, .. } => Some(site_id),
        Operation::SetLimits { site_id, .. } => Some(site_id),
        Operation::AddDomain { site_id, .. } => Some(site_id),
        Operation::RemoveDomain { site_id, .. } => Some(site_id),
        Operation::IssueCertificate { site_id, .. } => Some(site_id),
        Operation::RenewCertificate { site_id } => Some(site_id),
        Operation::SetCache { site_id, .. } => Some(site_id),
        Operation::ClearCache { site_id } => Some(site_id),
        Operation::WpCli { site_id, .. } => Some(site_id),
        Operation::InstallWordpress(request) => Some(request.site_id),
        Operation::UpdateWordpress { site_id } => Some(site_id),
        Operation::ListPlugins { site_id } => Some(site_id),
        Operation::ListThemes { site_id } => Some(site_id),
        Operation::ListWpUsers { site_id } => Some(site_id),
        Operation::ListCronEvents { site_id } => Some(site_id),
        Operation::CoreCheckUpdate { site_id } => Some(site_id),
        Operation::PluginAction { site_id, .. } => Some(site_id),
        Operation::ThemeAction { site_id, .. } => Some(site_id),
        Operation::UpdateAllPlugins { site_id } => Some(site_id),
        Operation::ResetWpPassword { site_id, .. } => Some(site_id),
        Operation::RunCronEvent { site_id, .. } => Some(site_id),
        Operation::SetWpCron { site_id, .. } => Some(site_id),
        Operation::PurgeUrls { site_id, .. } => Some(site_id),
        Operation::CreateBackup { site_id, .. } => Some(site_id),
        Operation::RestoreBackup { site_id, .. } => Some(site_id),
        Operation::TailLogs { site_id, .. } => Some(site_id),
        _ => None,
    }
}

/// An operation on a site that the agent does not manage is refused, and nothing is asked
/// of the host.
#[verifier::rlimit(40)]
pub proof fn law_unknown_sites_are_refused(
    state: AgentState,
    operation: Operation,
    fresh: Fresh,
    b: Begun,
)
    requires
        begins(state, operation, fresh, b),
        needed_site(operation) matches Some(id) && !state.store@.contains_key(id),
    ensures
        b matches Begun::Answer(a) && !a.success && (a.error matches Some(e) && e@
            == ErrorView::NotFound(
            "site "@ + digits::dec_int(needed_site(operation)->0 as int)
                + " is not managed by this agent"@,
        )),
{
}

/// A plan that ended in an error is answered with that error, and nothing is remembered
/// of it.
#[verifier::rlimit(40)]
pub proof fn law_failures_are_reported(
    state: AgentState,
    end: RunView,
    now: UtcTime,
    c: Conclusion,
)
    requires
        concludes(state, end, now, c),
        end.runner.error is Some,
    ensures
        c matches Conclusion::Answer { result, change } && !result.success && (
        result.error matches Some(e) && e@ == end.runner.error->0) && change@ is Keep,
{
}

// ---------------------------------------------------------------------------
// The state of sites
// ---------------------------------------------------------------------------

/// The last stage of a plan printed `true`, or was left out in dry-run.
pub open spec fn ran(end: RunView) -> bool {
    let n = end.runner.plan.len() as int;
    0 < n <= end.runner.outputs.len() && (end.runner.outputs[n - 1] matches Some(out) && (
    out.skipped || out.trimmed() == "true"@))
}

/// Who prints nothing does not say yes.
proof fn lemma_silence_is_no_yes()
    ensures
        !plan::says_yes(OutputView::silent()),
{
    reveal_strlit("true");
    reveal_strlit("");
    let s = OutputView::silent().stdout;
    assert(s.len() == 0);
    assert(text::trim_start(s, text::Class::White).len() == 0);
    assert(text::trim(s, text::Class::White).len() == 0);
}

/// Once its container was started, a site is remembered as online exactly where the
/// container was seen to run, and as failed otherwise, together with the container that
/// docker named; nothing else of it changes.
#[verifier::rlimit(40)]
pub proof fn law_site_is_online_where_its_container_runs(
    state: AgentState,
    record: RecordView,
    end: RunView,
    now: UtcTime,
    c: Conclusion,
)
    requires
        concludes(state, end, now, c),
        end.runner.error is None,
        end.runner.wf(),
        end.flow == (FlowView::Started { record }) || exists|stage: int|
            end.flow == (FlowView::Imported { record, container_stage: stage }) || end.flow == (
            FlowView::Created { record, container_stage: stage, remember: true }),
    ensures
        c matches Conclusion::Answer { result, change } && result.success && (
        change@ matches ChangeView::Put(next) && next == (RecordView {
            status: if ran(end) {
                SiteStatus::Online
            } else {
                SiteStatus::Failed
            },
            container_id: next.container_id,
            ..record
        }) && next.container_id is Some),
{
    lemma_silence_is_no_yes();
}

/// A site tells its state: it is online exactly where its container was seen to run.
#[verifier::rlimit(40)]
pub proof fn law_status_tells_whether_the_site_runs(
    state: AgentState,
    record: RecordView,
    end: RunView,
    now: UtcTime,
    c: Conclusion,
)
    requires
        concludes(state, end, now, c),
        end.runner.error is None,
        end.flow == (FlowView::Status { record }),
        end.runner.outputs.len() == 3,
    ensures
        c matches Conclusion::Answer { result, change } && result.success && change@ is Keep,
        carried(c) matches OperationData::SiteStatus { site_id, status, php_version, .. } && site_id
            == record.site_id && php_version == record.php_version && (status
            == SiteStatus::Online <==> (end.runner.outputs[0] matches Some(out) && (out.skipped
            || out.trimmed() == "true"@))) && (status == SiteStatus::Online || status
            == SiteStatus::Stopped),
{
    lemma_silence_is_no_yes();
}

/// Once the new container of a switch was seen to run, the site is remembered with the
/// version asked for; its vhost is written and applied, and only then the container with
/// the old version is removed. Where it was not, the new container is removed and the old
/// one is not.
#[verifier::rlimit(40)]
pub proof fn law_switch_ends_with_the_version_asked_for(
    state: AgentState,
    record: RecordView,
    version: PhpVersion,
    end: RunView,
    now: UtcTime,
    c: Conclusion,
)
    requires
        concludes(state, end, now, c),
        end.runner.error is None,
        end.flow == (FlowView::SwitchCheck { record, version }),
        end.runner.outputs.len() == 3,
        record.php_version != version,
    ensures
        c is Continue,
        ({
            let server = state.web->Nginx_0;
            let list = c->Continue_0@.runner.plan;
            let old = docker::spec_container_name(record.domain, record.php_version);
            let new = docker::spec_container_name(record.domain, version);
            if end.runner.outputs[2] matches Some(out) && (out.skipped || out.trimmed()
                == "true"@) {
                c->Continue_0@.flow matches FlowView::Steps(ChangeView::Put(next)) && {
                    &&& next == (RecordView {
                        php_version: version,
                        container_id: next.container_id,
                        ..record
                    })
                    &&& list.len() == 3
                    &&& puts(
                        list[0].tasks.last().action,
                        server.config.spec_vhost_path(record.domain),
                        nginx::spec_render_vhost(server.config, server.caps, next, true),
                    )
                    &&& reloads(list[1].tasks)
                    &&& docker_does(list[2].tasks[0].action, "rm"@, old)
                }
            } else {
                &&& c->Continue_0@.flow is Undone
                &&& some(list, |a: ActionView| docker_does(a, "rm"@, new))
                &&& every(list, |a: ActionView| !docker_does(a, "rm"@, old))
            }
        }),
{
    reveal_strlit("true");
    let list = c->Continue_0@.runner.plan;
    let new = docker::spec_container_name(record.domain, version);
    site::lemma_versions_are_apart(record.domain, record.php_version, version);
    if end.runner.outputs[2] matches Some(out) && (out.skipped || out.trimmed() == "true"@) {
        let next = c->Continue_0@.flow->Steps_0->Put_0;
        lifecycle::lemma_vhost_is_last(state.web->Nginx_0, next, true);
        let reload = NginxServer::spec_reload();
        assert(args_of(reload[0].action) =~= seq!["-t"@]);
        assert(args_of(reload[1].action) =~= seq!["reload"@, "nginx"@]);
        assert(list[1].tasks[0] == reload[0] && list[1].tasks[1] == reload[1]);
    } else {
        let gone = |a: ActionView| docker_does(a, "rm"@, new);
        assert(gone(list[0].tasks[0].action));
        effects::show(list, gone, 0, 0);
    }
}

// ---------------------------------------------------------------------------
// Backups
// ---------------------------------------------------------------------------

/// Restic forgets the snapshots with a tag that are not kept.
pub open spec fn forgets(
    a: ActionView,
    target: ResticTargetView,
    tag: Seq<char>,
    policy: RetentionPolicy,
) -> bool {
    &&& runs(a, "restic"@)
    &&& has_pair(args_of(a), "--repo"@, target.repo)
    &&& has_pair(args_of(a), "forget"@, "--prune"@)
    &&& has_pair(args_of(a), "--tag"@, tag)
    &&& has_pair(args_of(a), "--keep-hourly"@, digits::dec(policy.hourly as nat))
    &&& has_pair(args_of(a), "--keep-daily"@, digits::dec(policy.daily as nat))
    &&& has_pair(args_of(a), "--keep-weekly"@, digits::dec(policy.weekly as nat))
    &&& has_pair(args_of(a), "--keep-monthly"@, digits::dec(policy.monthly as nat))
}

/// Old snapshots of a site are forgotten by their tag, as the policy says.
pub proof fn law_pruning_follows_the_policy(
    site: RecordView,
    policy: RetentionPolicy,
    target: ResticTargetView,
)
    ensures
        backup::spec_prune(site, policy, target).len() == 1,
        forgets(
            backup::spec_prune(site, policy, target)[0].action,
            target,
            "site="@ + site.domain,
            policy,
        ),
{
    let args = args_of(backup::spec_prune(site, policy, target)[0].action);
    assert(args[0] == "--repo"@ && args[1] == target.repo);
    assert(args[4] == "forget"@ && args[5] == "--prune"@);
    assert(args[6] == "--tag"@ && args[7] == "site="@ + site.domain);
    assert(args[8] == "--keep-hourly"@ && args[9] == digits::dec(policy.hourly as nat));
    assert(args[10] == "--keep-daily"@ && args[11] == digits::dec(policy.daily as nat));
    assert(args[12] == "--keep-weekly"@ && args[13] == digits::dec(policy.weekly as nat));
    assert(args[14] == "--keep-monthly"@ && args[15] == digits::dec(policy.monthly as nat));
}

/// A backup snapshots what its scope covers into the repository asked for, and only then
/// forgets old snapshots of that site in that repository: of the hours of a day, 14 days,
/// 8 weeks and 12 months, one is kept of each.
#[verifier::rlimit(40)]
pub proof fn law_backup_goes_where_it_was_asked(
    state: AgentState,
    site_id: i64,
    scope: BackupScope,
    target: ResticTarget,
    retention: RetentionPolicy,
    fresh: Fresh,
    b: Begun,
)
    requires
        state.store@.contains_key(site_id),
        begins(
            state,
            Operation::CreateBackup { site_id, scope, target, retention },
            fresh,
            b,
        ),
        is_name(state.store@[site_id].domain),
    ensures
        b is Run,
        ({
            let site = state.store@[site_id];
            let root = state.config.spec_site_root(site.domain);
            let name = models::identifier_of(site.domain);
            let list = plan_of(b);
            let n = list[0].tasks.len() as int;
            &&& list.len() == 2
            &&& n > 0
            &&& exists|what: Seq<char>|
                #![trigger promises::snapshots(list[0].tasks[n - 1].action, target@, what)]
                promises::snapshots(list[0].tasks[n - 1].action, target@, what) && (what == root
                    <==> !(scope is DatabaseOnly)) && below(root + "/backups/database.sql"@, what)
            &&& some(
                promises::as_plan(list[0].tasks),
                |a: ActionView| effects::dumps(a, name, root + "/backups/database.sql"@),
            ) <==> !(scope is FilesOnly)
            &&& list[0].on_error is Abort
            &&& list[1].tasks.len() == 1
            &&& forgets(
                list[1].tasks[0].action,
                target@,
                "site="@ + site.domain,
                RetentionPolicy { hourly: 24, daily: 14, weekly: 8, monthly: 12 },
            )
            &&& flow_of(b) == (FlowView::Snapshot { scope })
        }),
{
    let site = state.store@[site_id];
    promises::law_backup_covers_its_scope(state.config, site, scope, target@);
    law_pruning_follows_the_policy(site, RetentionPolicy::standard(), target@);
}

/// The snapshots of a site are asked for by the site's tag, in the repository asked for.
#[verifier::rlimit(40)]
pub proof fn law_only_the_sites_snapshots_are_listed(
    state: AgentState,
    site_id: i64,
    target: ResticTarget,
    fresh: Fresh,
    b: Begun,
)
    requires
        state.store@.contains_key(site_id),
        begins(state, Operation::ListBackups { site_id, target }, fresh, b),
    ensures
        b is Run,
        ({
            let site = state.store@[site_id];
            let a = plan_of(b)[0].tasks[0].action;
            &&& runs(a, "restic"@)
            &&& has_pair(args_of(a), "--repo"@, target@.repo)
            &&& args_of(a).contains("snapshots"@)
            &&& has_pair(args_of(a), "--tag"@, "site="@ + site.domain)
            &&& flow_of(b) == (FlowView::Backups { record: site, repo: target@.repo })
        }),
{
    let args = args_of(plan_of(b)[0].tasks[0].action);
    assert(args[0] == "--repo"@);
    assert(args[4] == "snapshots"@);
    assert(args[6] == "--tag"@);
}

/// A backup is listed with the scope that it was made with: the tag that a backup is
/// given is read back as its scope.
pub proof fn law_scope_is_read_back(
    config: crate::agent::config::Config,
    site: RecordView,
    scope: BackupScope,
    target: ResticTargetView,
)
    ensures
        ({
            let list = backup::spec_create(config, site, scope, target);
            let args = args_of(list.last().action);
            exists|tag: Seq<char>|
                has_pair(args, "--tag"@, tag) && backup::scope_of(seq!["site="@ + site.domain, tag])
                    == scope
        }),
{
    reveal_strlit("scope=");
    reveal_strlit("site=");
    reveal_strlit("full");
    reveal_strlit("files");
    reveal_strlit("database");
    reveal_with_fuel(backup::scope_of, 3);
    let list = backup::spec_create(config, site, scope, target);
    let args = args_of(list.last().action);
    let tag = "scope="@ + scope.spec_str();
    assert(args[7] == "--tag"@ && args[8] == tag);
    let one = "site="@ + site.domain;
    let tags = seq![one, tag];
    if text::starts_with(one, "scope="@) {
        assert(one.subrange(0, 6)[1] == one[1]);
        assert(one[1] == 'i');
        assert("scope="@[1] == 'c');
    }
    assert(tags.drop_first() =~= seq![tag]);
    assert(tag.subrange(0, 6) =~= "scope="@);
    assert(tag.skip(6) =~= scope.spec_str());
    assert("full"@.len() == 4 && "files"@.len() == 5 && "database"@.len() == 8);
    assert(backup::scope_of(tags) == scope);
    assert(has_pair(args, "--tag"@, tag));
}

/// A backup is told with the sizes that restic counted: all of them together, as files
/// where only files were backed up, as database where only the database was, and in
/// equal parts for both.
pub proof fn law_sizes_follow_the_scope(summary: Option<Seq<char>>, scope: BackupScope)
    ensures
        ({
            let s = backup::snapshot_of(summary, scope);
            &&& s.files_bytes + s.db_bytes <= s.size_bytes
            &&& s.size_bytes - (s.files_bytes + s.db_bytes) <= 1
            &&& scope is FilesOnly ==> s.db_bytes == 0
            &&& scope is DatabaseOnly ==> s.files_bytes == 0
            &&& scope is Full ==> s.files_bytes == s.db_bytes
        }),
{
}

// ---------------------------------------------------------------------------
// Logs
// ---------------------------------------------------------------------------

/// The file of a log.
pub open spec fn log_file(root: Seq<char>, stream: LogStream) -> Seq<char> {
    match stream {
        LogStream::NginxAccess => root + "/logs/nginx-access.log"@,
        LogStream::NginxError => root + "/logs/nginx-error.log"@,
        LogStream::PhpError => root + "/logs/php-error.log"@,
        LogStream::PhpSlow => root + "/logs/php-slow.log"@,
        LogStream::WpDebug => root + "/logs/wp-debug.log"@,
        LogStream::Agent => "/var/log/wp-agent.log"@,
    }
}

/// A pattern without its metacharacters has none of them left, and is the pattern where it
/// had none.
proof fn lemma_without_meta(s: Seq<char>)
    ensures
        forall|i: int|
            0 <= i < site::without_meta(s).len() ==> !site::is_pattern_meta(
                #[trigger] site::without_meta(s)[i],
            ),
        (forall|i: int| 0 <= i < s.len() ==> !site::is_pattern_meta(#[trigger] s[i]))
            ==> site::without_meta(s) == s,
    decreases s.len(),
{
    if s.len() > 0 {
        let front = s.drop_last();
        lemma_without_meta(front);
        let out = site::without_meta(s);
        assert forall|i: int| 0 <= i < out.len() implies !site::is_pattern_meta(
            #[trigger] out[i],
        ) by {
            if i < site::without_meta(front).len() {
                assert(out[i] == site::without_meta(front)[i]);
            }
        }
        if forall|i: int| 0 <= i < s.len() ==> !site::is_pattern_meta(#[trigger] s[i]) {
            assert forall|i: int| 0 <= i < front.len() implies !site::is_pattern_meta(
                #[trigger] front[i],
            ) by {
                assert(front[i] == s[i]);
            }
            assert(!site::is_pattern_meta(s[s.len() - 1]));
            assert(front.push(s.last()) =~= s);
        }
    }
}

/// A text holds no metacharacter of grep or of a shell.
pub open spec fn is_plain(s: Seq<char>) -> bool {
    forall|i: int|
        0 <= i < s.len() ==> {
            let c = #[trigger] s[i];
            c != '\\' && c != '[' && c != ']' && c != '(' && c != ')' && c != '+' && c != '?' && c
                != '{' && c != '}' && c != '^' && c != '$' && c != '.' && c != '*' && c != '|' && c
                != '&' && c != ';'
        }
}

/// The last lines of a file are read, and with a pattern only those that hold it. Path
/// and pattern reach the shell as single words.
pub open spec fn reads_log(a: ActionView, file: Seq<char>, count: nat, grep: Option<Seq<char>>) -> bool {
    let n = digits::dec(count);
    if grep matches Some(p) && 0 < text::byte_len(p) <= 64 {
        exists|word: Seq<char>| #[trigger]
            is_plain(word) && (is_plain(grep->0) ==> word == grep->0) && script_of(a) == Some(
                "tail -n "@ + n + " "@ + exec::quoted(file) + " | grep -F "@ + exec::quoted(word),
            )
    } else {
        runs(a, "tail"@) && args_of(a) == seq!["-n"@, n, file]
    }
}

/// As many lines as asked for, from 1 to 5000.
pub open spec fn lines_read(lines: u32) -> nat {
    if lines == 0 {
        1
    } else if lines <= 5000 {
        lines as nat
    } else {
        5000
    }
}

/// The end of a log is read from the log asked for, in the site's own directory, without
/// changing anything: as many lines as asked for, from 1 to 5000, and with a pattern only
/// those that hold it.
#[verifier::rlimit(40)]
pub proof fn law_logs_are_read_as_asked(
    state: AgentState,
    site_id: i64,
    stream: LogStream,
    lines: u32,
    grep: Option<String>,
    fresh: Fresh,
    b: Begun,
)
    requires
        state.store@.contains_key(site_id),
        begins(state, Operation::TailLogs { site_id, stream, lines, grep }, fresh, b),
        is_name(state.store@[site_id].domain),
    ensures
        b is Run,
        ({
            let site = state.store@[site_id];
            let list = plan_of(b);
            let a = list[0].tasks[0].action;
            &&& list.len() == 1 && list[0].tasks.len() == 1
            &&& a matches ActionView::Run(command) && command.probe
            &&& reads_log(
                a,
                log_file(state.config.spec_site_root(site.domain), stream),
                lines_read(lines),
                text::text_opt(grep),
            )
        }),
{
    let site = state.store@[site_id];
    lemma_reads_log(state, site, stream, lines, text::text_opt(grep));
}

/// The plan that reads a log.
proof fn lemma_reads_log(
    state: AgentState,
    site: RecordView,
    stream: LogStream,
    lines: u32,
    grep: Option<Seq<char>>,
)
    requires
        is_name(site.domain),
    ensures
        reads_log(
            site::tail_plan(state.config, site, stream, lines, grep)[0].tasks[0].action,
            log_file(state.config.spec_site_root(site.domain), stream),
            lines_read(lines),
            grep,
        ),
{
    lemma_log_file(state, site, stream);
    let a = site::tail_plan(state.config, site, stream, lines, grep)[0].tasks[0].action;
    let file = log_file(state.config.spec_site_root(site.domain), stream);
    let n = digits::dec(lines_read(lines));
    if grep matches Some(p) && 0 < text::byte_len(p) <= 64 {
        let word = site::without_meta(grep->0);
        lemma_without_meta(grep->0);
        assert(is_plain(word));
        assert(script_of(a) == Some(
            "tail -n "@ + n + " "@ + exec::quoted(file) + " | grep -F "@ + exec::quoted(word),
        ));
    } else {
        assert(args_of(a) =~= seq!["-n"@, n, file]);
    }
}

/// The file of a log lies in the site's logs.
proof fn lemma_log_file(state: AgentState, site: RecordView, stream: LogStream)
    requires
        is_name(site.domain),
    ensures
        site::log_path(state.config, site, stream) == log_file(
            state.config.spec_site_root(site.domain),
            stream,
        ),
{
    reveal_strlit("logs/");
    reveal_strlit(".log");
    reveal_strlit("/");
    reveal_strlit("nginx-access");
    reveal_strlit("nginx-error");
    reveal_strlit("php-error");
    reveal_strlit("php-slow");
    reveal_strlit("wp-debug");
    reveal_strlit("/logs/nginx-access.log");
    reveal_strlit("/logs/nginx-error.log");
    reveal_strlit("/logs/php-error.log");
    reveal_strlit("/logs/php-slow.log");
    reveal_strlit("/logs/wp-debug.log");
    if !(stream is Agent) {
        let part = "logs/"@ + stream.spec_str() + ".log"@;
        effects::lemma_in_site(state.config, site.domain, part);
        let root = state.config.spec_site_root(site.domain);
        assert(site::log_path(state.config, site, stream) =~= log_file(root, stream));
    }
}

// ---------------------------------------------------------------------------
// Sites elsewhere
// ---------------------------------------------------------------------------

/// A command runs on the host of a source, as its user and at its port.
pub open spec fn reaches(a: ActionView, source: ImportSource) -> bool {
    &&& runs(a, "ssh"@)
    &&& has_pair(args_of(a), "-p"@, digits::dec(source.port as nat))
    &&& args_of(a).len() >= 2
    &&& from_end(a, 1) == source.user@ + "@"@ + source.host@
}

/// Every command for the host of a source reaches it.
proof fn lemma_reaches(source: ImportSource, key: Option<Seq<char>>, script: Seq<char>)
    ensures
        reaches(import::ssh(source, key, script).action, source),
        from_end(import::ssh(source, key, script).action, 0) == script,
{
    let args = args_of(import::ssh(source, key, script).action);
    assert(args[0] == "-p"@ && args[1] == digits::dec(source.port as nat));
}

/// A private key is written for the agent alone, into a file that is removed when the
/// operation is over, whatever comes of it; every file of an import that holds a secret
/// or data of the source is.
#[verifier::rlimit(40)]
pub proof fn law_secrets_of_a_source_do_not_stay(
    state: AgentState,
    request: ImportRequest,
    fresh: Fresh,
    b: Begun,
)
    requires
        begins(state, Operation::ImportSite(request), fresh, b),
        b is Run,
    ensures
        ({
            let list = plan_of(b);
            let gone = b->Run_0@.temp_files;
            &&& request.source.auth matches SshAuth::PrivateKey(secret) ==> {
                &&& list[0].tasks.len() == 2
                &&& list[0].tasks[0].action matches ActionView::WriteFile { path, contents, .. }
                    && contents == secret@ && gone.contains(path) && list[0].tasks[1].action
                    == ActionView::Restrict(path)
            }
            &&& flow_of(b) matches FlowView::Dumped { dump_path, .. } && gone.contains(dump_path)
        }),
{
    let key = import::key_path(request.source, fresh);
    let gone = b->Run_0@.temp_files;
    assert(gone[gone.len() - 1] == import::dump_file(fresh));
    if key is Some {
        assert(gone[0] == key->0);
    }
}

/// An import copies the files of the site asked for, over the connection given, into the
/// directory of its own site, leaving the configuration out; it dumps the database asked
/// for there, and writes nowhere else than into that directory and the file of its key.
#[verifier::rlimit(40)]
pub proof fn law_import_fetches_what_was_asked(
    state: AgentState,
    request: ImportRequest,
    fresh: Fresh,
    b: Begun,
)
    requires
        begins(state, Operation::ImportSite(request), fresh, b),
        b is Run,
        is_name((flow_of(b)->Dumped_record).domain),
    ensures
        ({
            let source = request.source;
            let list = plan_of(b);
            let target = flow_of(b)->Dumped_record;
            let root = state.config.spec_site_root(target.domain);
            let from = source.user@ + "@"@ + source.host@ + ":"@ + source.remote_path@ + "/"@;
            let key = import::key_path(source, fresh);
            &&& target == if request.resync {
                state.store@[request.site_id]
            } else {
                RecordView {
                    site_id: request.site_id,
                    domain: request.domain@,
                    php_version: request.php_version,
                    database_mode: request.database_mode,
                    limits: request.limits,
                    cache: request.cache,
                    domains: seq![request.domain@],
                    ..target
                }
            }
            &&& some(list, |a: ActionView| copies(a, from, root + "/public_html/"@))
            &&& every(
                list,
                |a: ActionView|
                    (runs(a, "rsync"@) ==> copies(a, from, root + "/public_html/"@) && has_pair(
                        args_of(a),
                        "--exclude"@,
                        "wp-config.php"@,
                    )) && (runs(a, "ssh"@) ==> reaches(a, source)) && (writes(a) matches Some(p)
                        ==> below(p, root) || Some(p) == key),
            )
            &&& source.db matches Some(db) ==> some(
                list,
                |a: ActionView| reaches(a, source) && from_end(a, 0) == import::dump_script(db),
            )
        }),
{
    let source = request.source;
    let key = import::key_path(source, fresh);
    let target = flow_of(b)->Dumped_record;
    lemma_fetches(state, source, key, target, request.resync);
    if !request.resync {
        assert(target.domains =~= seq![request.domain@]);
    }
}

/// What the plan of an import fetches.
#[verifier::rlimit(40)]
proof fn lemma_fetches(
    state: AgentState,
    source: ImportSource,
    key: Option<Seq<char>>,
    target: RecordView,
    resync: bool,
)
    requires
        is_name(target.domain),
        key is Some <==> source.auth is PrivateKey,
    ensures
        ({
            let list = import::fetch_plan(state.config, source, key, target, resync);
            let root = state.config.spec_site_root(target.domain);
            let from = source.user@ + "@"@ + source.host@ + ":"@ + source.remote_path@ + "/"@;
            &&& some(list, |a: ActionView| copies(a, from, root + "/public_html/"@))
            &&& every(
                list,
                |a: ActionView|
                    (runs(a, "rsync"@) ==> copies(a, from, root + "/public_html/"@) && has_pair(
                        args_of(a),
                        "--exclude"@,
                        "wp-config.php"@,
                    )) && (runs(a, "ssh"@) ==> reaches(a, source)) && (writes(a) matches Some(p)
                        ==> below(p, root) || Some(p) == key),
            )
            &&& source.db matches Some(db) ==> some(
                list,
                |a: ActionView| reaches(a, source) && from_end(a, 0) == import::dump_script(db),
            )
        }),
{
    effects::lemma_programs();
    reveal_strlit("public_html");
    reveal_strlit("/");
    reveal_strlit("/public_html/");
    let config = state.config;
    let list = import::fetch_plan(config, source, key, target, resync);
    let n = list.len() as int;
    let root = config.spec_site_root(target.domain);
    let from = source.user@ + "@"@ + source.host@ + ":"@ + source.remote_path@ + "/"@;
    let to = root + "/public_html/"@;
    effects::lemma_in_site(config, target.domain, "public_html"@);
    assert(to =~= config.spec_in_site(target.domain, "public_html"@) + "/"@);
    let copied = |a: ActionView| copies(a, from, to);
    assert(list[n - 2].tasks[0] == import::fetch_files(config, source, key, target));
    assert(copied(list[n - 2].tasks[0].action));
    effects::show(list, copied, n - 2, 0);
    let args = args_of(list[n - 2].tasks[0].action);
    assert(args[2] == "--exclude"@ && args[3] == "wp-config.php"@);
    lemma_reaches(source, key, "echo ok"@);
    if let Some(db) = source.db {
        let dumped = |a: ActionView|
            reaches(a, source) && from_end(a, 0) == import::dump_script(db);
        lemma_reaches(source, key, import::dump_script(db));
        assert(dumped(list[n - 1].tasks[0].action));
        effects::show(list, dumped, n - 1, 0);
    }
    let p = |a: ActionView|
        (runs(a, "rsync"@) ==> copies(a, from, to) && has_pair(
            args_of(a),
            "--exclude"@,
            "wp-config.php"@,
        )) && (runs(a, "ssh"@) ==> reaches(a, source)) && (writes(a) matches Some(p) ==> below(
            p,
            root,
        ) || Some(p) == key);
    let k = if key is Some {
        1int
    } else {
        0int
    };
    assert forall|i: int, j: int|
        0 <= i < n && 0 <= j < list[i].tasks.len() implies p(
        (#[trigger] list[i].tasks[j]).action,
    ) by {
        let a = list[i].tasks[j].action;
        if i == n - 2 {
            let front = root + "/"@;
            assert(to.subrange(0, front.len() as int) =~= front);
        } else if !resync && i == k + 2 {
            assert(list[i].tasks == filesystem::spec_create_tree(config, target.domain, target.uid));
            promises::lemma_tree_writes(config, target.domain, target.uid, j);
            assert(!runs(a, "ssh"@));
        }
    }
}

/// Once the source's database was dumped, the dump is loaded into the database of the
/// site. A site that is new gets a database of its own first, and WordPress is told that
/// database's password. The site runs its own PHP version, and is served under its vhost.
#[verifier::rlimit(40)]
pub proof fn law_import_settles_the_site(
    state: AgentState,
    end: RunView,
    now: UtcTime,
    c: Conclusion,
)
    requires
        concludes(state, end, now, c),
        end.runner.error is None,
        end.flow is Dumped,
    ensures
        c is Continue,
        ({
            let server = state.web->Nginx_0;
            let site = end.flow->Dumped_record;
            let resync = end.flow->resync;
            let password = end.flow->Dumped_password;
            let file = end.flow->dump_path;
            let stage = end.flow->dump_stage;
            let name = models::identifier_of(site.domain);
            let list = c->Continue_0@.runner.plan;
            let dump = match end.runner.output(stage) {
                Some(out) => out.stdout,
                None => ""@,
            };
            &&& first_then(
                list,
                |a: ActionView| puts(a, file, dump),
                |a: ActionView| loads(a, name, file),
            )
            &&& first_then(
                list,
                |a: ActionView| loads(a, name, file),
                |a: ActionView| starts_as(a, site.domain, site.php_version, site.uid),
            )
            &&& !resync ==> first_then(
                list,
                |a: ActionView| makes_database(a, name, name, password),
                |a: ActionView| loads(a, name, file),
            )
            &&& !resync ==> first_then(
                list,
                |a: ActionView| starts_as(a, site.domain, site.php_version, site.uid),
                |a: ActionView| configures(a, site.container(), site.db_name, name, password),
            )
            &&& some(
                list,
                |a: ActionView|
                    puts(
                        a,
                        server.config.spec_vhost_path(site.domain),
                        nginx::spec_render_vhost(server.config, server.caps, site, false),
                    ),
            )
            &&& docker_does(list.last().tasks[0].action, "inspect"@, site.container())
            &&& c->Continue_0@.flow matches FlowView::Imported { record, container_stage } && record
                == site && starts_as(
                list[container_stage].tasks[0].action,
                site.domain,
                site.php_version,
                site.uid,
            )
            &&& c->Continue_0@.temp_files == end.temp_files
        }),
{
    let site = end.flow->Dumped_record;
    let stage = end.flow->dump_stage;
    lemma_settles(
        state,
        site,
        end.flow->remote_db,
        end.flow->resync,
        end.flow->Dumped_password,
        end.flow->dump_path,
        import::stdout_of(end.runner.output(stage)),
    );
}

/// What the plan of an import settles.
proof fn lemma_settles(
    state: AgentState,
    site: RecordView,
    remote_db: Seq<char>,
    resync: bool,
    password: Seq<char>,
    file: Seq<char>,
    dump: Seq<char>,
)
    ensures
        ({
            let server = state.web->Nginx_0;
            let name = models::identifier_of(site.domain);
            let list = import::settle_plan(
                state.config,
                state.web,
                site,
                remote_db,
                resync,
                password,
                file,
                dump,
            );
            let begun = |a: ActionView| starts_as(a, site.domain, site.php_version, site.uid);
            &&& first_then(
                list,
                |a: ActionView| puts(a, file, dump),
                |a: ActionView| loads(a, name, file),
            )
            &&& first_then(
                list,
                |a: ActionView| loads(a, name, file),
                |a: ActionView| starts_as(a, site.domain, site.php_version, site.uid),
            )
            &&& !resync ==> first_then(
                list,
                |a: ActionView| makes_database(a, name, name, password),
                |a: ActionView| loads(a, name, file),
            )
            &&& !resync ==> first_then(
                list,
                |a: ActionView| starts_as(a, site.domain, site.php_version, site.uid),
                |a: ActionView| configures(a, site.container(), site.db_name, name, password),
            )
            &&& some(
                list,
                |a: ActionView|
                    puts(
                        a,
                        server.config.spec_vhost_path(site.domain),
                        nginx::spec_render_vhost(server.config, server.caps, site, false),
                    ),
            )
            &&& list.len() > 4
            &&& docker_does(list.last().tasks[0].action, "inspect"@, site.container())
            &&& starts_as(
                list[import::settle_start(resync)].tasks[0].action,
                site.domain,
                site.php_version,
                site.uid,
            )
        }),
{
    let server = state.web->Nginx_0;
    let name = models::identifier_of(site.domain);
    let list = import::settle_plan(
        state.config,
        state.web,
        site,
        remote_db,
        resync,
        password,
        file,
        dump,
    );
    let n = list.len() as int;
    let saved = |a: ActionView| puts(a, file, dump);
    let made = |a: ActionView| makes_database(a, name, name, password);
    let loaded = |a: ActionView| loads(a, name, file);
    let begun = |a: ActionView| starts_as(a, site.domain, site.php_version, site.uid);
    let told = |a: ActionView| configures(a, site.container(), site.db_name, name, password);
    let served = |a: ActionView|
        puts(
            a,
            server.config.spec_vhost_path(site.domain),
            nginx::spec_render_vhost(server.config, server.caps, site, false),
        );
    let k = if resync {
        1int
    } else {
        2int
    };
    promises::lemma_loads(site, file);
    lifecycle::lemma_starts_as(state.config, site, site.php_version);
    assert(saved(list[0].tasks[0].action));
    assert(loaded(list[k].tasks[0].action));
    assert(begun(list[k + 1].tasks[0].action));
    effects::show_order(list, saved, loaded, 0, 0, k, 0);
    effects::show_order(list, loaded, begun, k, 0, k + 1, 0);
    if !resync {
        promises::lemma_makes_database(state.config, site, password);
        assert(made(list[1].tasks[0].action));
        effects::show_order(list, made, loaded, 1, 0, 2, 0);
        let args = args_of(list[4].tasks[0].action);
        assert(args[8] == "--dbname="@ + site.db_name);
        assert(args[9] == "--dbuser="@ + name);
        assert(args[10] == "--dbpass="@ + password);
        assert(told(list[4].tasks[0].action));
        effects::show_order(list, begun, told, 3, 0, 4, 0);
    }
    lifecycle::lemma_vhost_is_last(server, site, false);
    assert(list[n - 3].tasks == server.spec_write_site(site, false));
    effects::show(list, served, n - 3, list[n - 3].tasks.len() - 1);
}

} // verus!
