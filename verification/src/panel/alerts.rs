//! Alert rules: what is raised, and what is resolved, given what the panel knows.

use vstd::prelude::*;
use crate::clock::UtcTime;
use crate::common::fmt;
use crate::common::models::{ServerStatus, SiteStatus};
use crate::digits;
use crate::panel::db::servers::ServerRow;
use crate::panel::db::sites::SiteRow;
use crate::panel::db::times;
use crate::text;

verus! {

/// The severity of a rule's notifications.
pub open spec fn severity_of(rule: Seq<char>) -> Seq<char> {
    if rule == "disk.high"@ {
        "critical"@
    } else if rule == "ssl.expiring"@ {
        "warning"@
    } else if rule == "site.offline"@ {
        "critical"@
    } else if rule == "backup.stale"@ {
        "warning"@
    } else {
        "info"@
    }
}

/// Executable form of [`severity_of`].
pub fn severity_for(rule: &str) -> (s: &'static str)
    ensures
        s@ == severity_of(rule@),
{
    if text::same(rule, "disk.high") {
        "critical"
    } else if text::same(rule, "ssl.expiring") {
        "warning"
    } else if text::same(rule, "site.offline") {
        "critical"
    } else if text::same(rule, "backup.stale") {
        "warning"
    } else {
        "info"
    }
}

/// What a rule comes to for one target.
#[derive(Debug)]
pub enum AlertAction {
    /// A notification is raised unless one is open.
    Raise { rule: &'static str, target: String, message: String },
    /// The open notification is resolved.
    Resolve { rule: &'static str, target: String },
}

/// [`AlertAction`] with its texts as sequences of characters.
pub enum ActionView {
    Raise { rule: Seq<char>, target: Seq<char>, message: Seq<char> },
    Resolve { rule: Seq<char>, target: Seq<char> },
}

impl View for AlertAction {
    type V = ActionView;

    open spec fn view(&self) -> ActionView {
        match self {
            AlertAction::Raise { rule, target, message } => ActionView::Raise {
                rule: rule@,
                target: target@,
                message: message@,
            },
            AlertAction::Resolve { rule, target } => ActionView::Resolve {
                rule: rule@,
                target: target@,
            },
        }
    }
}

/// The view of what a rule comes to.
pub open spec fn action_view(o: Option<AlertAction>) -> Option<ActionView> {
    match o {
        Some(a) => Some(a@),
        None => None,
    }
}

/// The bit pattern of 85 in single precision.
pub const HIGH_DISK_BITS: u32 = 0x42AA_0000;

/// A share of a disk, given as the bit pattern of a single-precision number, is above
/// 85: positive numbers stand in the order of their bit patterns.
pub open spec fn disk_is_high(bits: u32) -> bool {
    HIGH_DISK_BITS < bits <= fmt::INFINITY_BITS
}

/// The rule on full disks: nothing for a server that is offline.
pub open spec fn disk_alert(
    name: Seq<char>,
    status: ServerStatus,
    bits: u32,
    shown: Seq<char>,
) -> Option<ActionView> {
    if status == ServerStatus::Offline {
        None
    } else if disk_is_high(bits) {
        Some(
            ActionView::Raise {
                rule: "disk.high"@,
                target: name,
                message: "Disk usage on "@ + name + " is "@ + shown + "%"@,
            },
        )
    } else {
        Some(ActionView::Resolve { rule: "disk.high"@, target: name })
    }
}

/// Executable form of [`disk_alert`]; `shown` is the share without decimals.
pub fn check_disk(name: &str, status: ServerStatus, disk_percent_bits: u32, shown: &str) -> (r:
    Option<AlertAction>)
    ensures
        action_view(r) == disk_alert(name@, status, disk_percent_bits, shown@),
{
    match status {
        ServerStatus::Offline => None,
        _ => if HIGH_DISK_BITS < disk_percent_bits && disk_percent_bits <= fmt::INFINITY_BITS {
            Some(
                AlertAction::Raise {
                    rule: "disk.high",
                    target: name.to_owned(),
                    message: text::cat5("Disk usage on ", name, " is ", shown, "%"),
                },
            )
        } else {
            Some(AlertAction::Resolve { rule: "disk.high", target: name.to_owned() })
        },
    }
}

/// Nanoseconds in a day.
pub const DAY_NANOS: i128 = 86_400_000_000_000;

/// Nanoseconds in an hour.
pub const HOUR_NANOS: i128 = 3_600_000_000_000;

/// A certificate is within its last fourteen days.
pub open spec fn expires_soon(t: UtcTime, now: UtcTime) -> bool {
    0 < t.total() - now.total() < 14 * DAY_NANOS
}

/// The rule on certificates: raised within their last fourteen days.
pub open spec fn ssl_alert(domain: Seq<char>, expires: Option<UtcTime>, now: UtcTime) -> Option<
    ActionView,
> {
    match expires {
        None => None,
        Some(t) => {
            if expires_soon(t, now) {
                Some(
                    ActionView::Raise {
                        rule: "ssl.expiring"@,
                        target: domain,
                        message: "TLS certificate for "@ + domain + " expires in "@
                            + digits::dec_int(t.spec_days_since(now)) + " days"@,
                    },
                )
            } else {
                Some(ActionView::Resolve { rule: "ssl.expiring"@, target: domain })
            }
        },
    }
}

/// Nanoseconds from one time to another.
fn nanos_between(from: &UtcTime, to: &UtcTime) -> (n: i128)
    ensures
        n == to.total() - from.total(),
{
    let a: i128 = to.secs as i128 * 1_000_000_000 + to.nanos as i128;
    let b: i128 = from.secs as i128 * 1_000_000_000 + from.nanos as i128;
    a - b
}

/// Executable form of [`ssl_alert`].
pub fn check_ssl(domain: &str, expires: &Option<UtcTime>, now: &UtcTime) -> (r: Option<AlertAction>)
    ensures
        action_view(r) == ssl_alert(domain@, *expires, *now),
{
    match expires {
        None => None,
        Some(t) => {
            let remaining = nanos_between(now, t);
            if remaining < 14 * DAY_NANOS && remaining > 0 {
                let days = t.days_since(now);
                assert(0 <= days <= 14);
                let n = digits::dec_i64(days as i64);
                Some(
                    AlertAction::Raise {
                        rule: "ssl.expiring",
                        target: domain.to_owned(),
                        message: text::cat5(
                            "TLS certificate for ",
                            domain,
                            " expires in ",
                            n.as_str(),
                            " days",
                        ),
                    },
                )
            } else {
                Some(AlertAction::Resolve { rule: "ssl.expiring", target: domain.to_owned() })
            }
        },
    }
}

/// The rule on failed sites.
pub open spec fn offline_alert(domain: Seq<char>, status: SiteStatus) -> ActionView {
    if status == SiteStatus::Failed {
        ActionView::Raise {
            rule: "site.offline"@,
            target: domain,
            message: "Site "@ + domain + " is in failed state"@,
        }
    } else {
        ActionView::Resolve { rule: "site.offline"@, target: domain }
    }
}

/// Executable form of [`offline_alert`].
pub fn check_offline(domain: &str, status: SiteStatus) -> (a: AlertAction)
    ensures
        a@ == offline_alert(domain@, status),
{
    match status {
        SiteStatus::Failed => AlertAction::Raise {
            rule: "site.offline",
            target: domain.to_owned(),
            message: text::cat3("Site ", domain, " is in failed state"),
        },
        _ => AlertAction::Resolve { rule: "site.offline", target: domain.to_owned() },
    }
}

/// The last backup is more than 48 hours ago, or there is none. A time that cannot be
/// read counts as `now`.
pub open spec fn is_stale(last_backup: Option<Seq<char>>, now: UtcTime) -> bool {
    match last_backup {
        None => true,
        Some(raw) => now.total() - times::stored_or(raw, now).total() > 48 * HOUR_NANOS,
    }
}

/// The rule on backups of a site with a schedule.
pub open spec fn backup_alert(domain: Seq<char>, last_backup: Option<Seq<char>>, now: UtcTime) -> ActionView {
    if is_stale(last_backup, now) {
        ActionView::Raise {
            rule: "backup.stale"@,
            target: domain,
            message: "No backup for "@ + domain + " in over 48 hours"@,
        }
    } else {
        ActionView::Resolve { rule: "backup.stale"@, target: domain }
    }
}

/// Executable form of [`backup_alert`].
pub fn check_backup(domain: &str, last_backup: &Option<String>, now: &UtcTime) -> (a: AlertAction)
    ensures
        a@ == backup_alert(domain@, text::text_opt(*last_backup), *now),
{
    let stale = match last_backup {
        None => true,
        Some(raw) => {
            let t = times::parse_ts_or(raw.as_str(), now);
            nanos_between(&t, now) > 48 * HOUR_NANOS
        },
    };
    if stale {
        AlertAction::Raise {
            rule: "backup.stale",
            target: domain.to_owned(),
            message: text::cat3("No backup for ", domain, " in over 48 hours"),
        }
    } else {
        AlertAction::Resolve { rule: "backup.stale", target: domain.to_owned() }
    }
}

/// A server, with the share of its disk written without decimals.
pub struct DiskReading {
    pub server: ServerRow,
    pub shown: String,
}

/// A site with an active schedule, with the time of its last backup as it is stored.
pub struct BackupReading {
    pub domain: String,
    pub last_backup: Option<String>,
}

/// What an optional action adds to a list.
pub open spec fn with_action(list: Seq<ActionView>, o: Option<ActionView>) -> Seq<ActionView> {
    match o {
        Some(a) => list.push(a),
        None => list,
    }
}

/// What the rule on full disks comes to for some servers, in order.
pub open spec fn disk_alerts(readings: Seq<DiskReading>) -> Seq<ActionView>
    decreases readings.len(),
{
    if readings.len() == 0 {
        Seq::empty()
    } else {
        let last = readings.last();
        with_action(
            disk_alerts(readings.drop_last()),
            disk_alert(
                last.server.server.name@,
                last.server.server.status,
                last.server.metrics.disk_percent_bits,
                last.shown@,
            ),
        )
    }
}

/// What the rule on certificates comes to for some sites, in order.
pub open spec fn ssl_alerts(sites: Seq<SiteRow>, now: UtcTime) -> Seq<ActionView>
    decreases sites.len(),
{
    if sites.len() == 0 {
        Seq::empty()
    } else {
        let last = sites.last().site;
        with_action(
            ssl_alerts(sites.drop_last(), now),
            ssl_alert(last.domain@, last.ssl.expires_at, now),
        )
    }
}

/// What all rules come to: first the disks, then the certificates, then the failed
/// sites, then the backups.
pub open spec fn alerts(
    readings: Seq<DiskReading>,
    sites: Seq<SiteRow>,
    backups: Seq<BackupReading>,
    now: UtcTime,
) -> Seq<ActionView> {
    disk_alerts(readings) + ssl_alerts(sites, now) + sites.map_values(
        |row: SiteRow| offline_alert(row.site.domain@, row.site.status),
    ) + backups.map_values(
        |b: BackupReading| backup_alert(b.domain@, text::text_opt(b.last_backup), now),
    )
}

/// The views of some actions.
pub open spec fn action_views(v: Seq<AlertAction>) -> Seq<ActionView> {
    v.map_values(|a: AlertAction| a@)
}

/// Adds an action to a list.
fn add_action(list: &mut Vec<AlertAction>, a: AlertAction)
    ensures
        action_views(final(list)@) == action_views(old(list)@).push(a@),
{
    list.push(a);
    assert(action_views(list@) =~= action_views(old(list)@).push(a@));
}

/// Applies all rules, in the order of [`alerts`].
pub fn evaluate(
    readings: &Vec<DiskReading>,
    sites: &Vec<SiteRow>,
    backups: &Vec<BackupReading>,
    now: &UtcTime,
) -> (v: Vec<AlertAction>)
    ensures
        action_views(v@) == alerts(readings@, sites@, backups@, *now),
{
    let mut v: Vec<AlertAction> = Vec::new();
    assert(action_views(v@) =~= disk_alerts(readings@.take(0)));
    let mut i: usize = 0;
    while i < readings.len()
        invariant
            i <= readings@.len(),
            action_views(v@) == disk_alerts(readings@.take(i as int)),
        decreases readings@.len() - i,
    {
        let r = &readings[i];
        let found = check_disk(
            r.server.server.name.as_str(),
            r.server.server.status,
            r.server.metrics.disk_percent_bits,
            r.shown.as_str(),
        );
        assert(readings@.take(i + 1).drop_last() =~= readings@.take(i as int));
        match found {
            Some(a) => add_action(&mut v, a),
            None => {},
        }
        i += 1;
    }
    assert(readings@.take(i as int) =~= readings@);
    let ghost disks = disk_alerts(readings@);
    assert(action_views(v@) =~= disks + ssl_alerts(sites@.take(0), *now));
    let mut i: usize = 0;
    while i < sites.len()
        invariant
            i <= sites@.len(),
            action_views(v@) == disks + ssl_alerts(sites@.take(i as int), *now),
        decreases sites@.len() - i,
    {
        let site = &sites[i].site;
        let found = check_ssl(site.domain.as_str(), &site.ssl.expires_at, now);
        assert(sites@.take(i + 1).drop_last() =~= sites@.take(i as int));
        let ghost before = action_views(v@);
        match found {
            Some(a) => {
                add_action(&mut v, a);
                assert(before.push(a@) =~= disks + ssl_alerts(sites@.take(i as int), *now).push(a@));
            },
            None => {},
        }
        i += 1;
    }
    assert(sites@.take(i as int) =~= sites@);
    let ghost front = disks + ssl_alerts(sites@, *now);
    let ghost failed = sites@.map_values(
        |row: SiteRow| offline_alert(row.site.domain@, row.site.status),
    );
    assert(action_views(v@) =~= front + failed.take(0));
    let mut i: usize = 0;
    while i < sites.len()
        invariant
            i <= sites@.len(),
            failed == sites@.map_values(
                |row: SiteRow| offline_alert(row.site.domain@, row.site.status),
            ),
            action_views(v@) == front + failed.take(i as int),
        decreases sites@.len() - i,
    {
        let site = &sites[i].site;
        let a = check_offline(site.domain.as_str(), site.status);
        assert((front + failed.take(i as int)).push(a@) =~= front + failed.take(i + 1));
        add_action(&mut v, a);
        i += 1;
    }
    assert(failed.take(i as int) =~= failed);
    let ghost front = front + failed;
    let ghost stale = backups@.map_values(
        |b: BackupReading| backup_alert(b.domain@, text::text_opt(b.last_backup), *now),
    );
    assert(action_views(v@) =~= front + stale.take(0));
    let mut i: usize = 0;
    while i < backups.len()
        invariant
            i <= backups@.len(),
            stale == backups@.map_values(
                |b: BackupReading| backup_alert(b.domain@, text::text_opt(b.last_backup), *now),
            ),
            action_views(v@) == front + stale.take(i as int),
        decreases backups@.len() - i,
    {
        let a = check_backup(backups[i].domain.as_str(), &backups[i].last_backup, now);
        assert((front + stale.take(i as int)).push(a@) =~= front + stale.take(i + 1));
        add_action(&mut v, a);
        i += 1;
    }
    assert(stale.take(i as int) =~= stale);
    v
}

/// The open notifications, by rule and target, after an action.
pub open spec fn open_after(
    open: Set<(Seq<char>, Seq<char>)>,
    action: ActionView,
) -> Set<(Seq<char>, Seq<char>)> {
    match action {
        ActionView::Raise { rule, target, .. } => open.insert((rule, target)),
        ActionView::Resolve { rule, target } => open.remove((rule, target)),
    }
}

/// The open notifications after some actions, in order.
pub open spec fn settled(
    open: Set<(Seq<char>, Seq<char>)>,
    actions: Seq<ActionView>,
) -> Set<(Seq<char>, Seq<char>)>
    decreases actions.len(),
{
    if actions.len() == 0 {
        open
    } else {
        open_after(settled(open, actions.drop_last()), actions.last())
    }
}

/// The rule and the target of an action.
pub open spec fn subject(a: ActionView) -> (Seq<char>, Seq<char>) {
    match a {
        ActionView::Raise { rule, target, .. } => (rule, target),
        ActionView::Resolve { rule, target } => (rule, target),
    }
}

/// Some action is about a rule and a target.
pub open spec fn concerned(actions: Seq<ActionView>, key: (Seq<char>, Seq<char>)) -> bool {
    exists|i: int| 0 <= i < actions.len() && subject(#[trigger] actions[i]) == key
}

/// What some action is about does not depend on what was open before; the rest stays.
proof fn lemma_settled(
    open: Set<(Seq<char>, Seq<char>)>,
    other: Set<(Seq<char>, Seq<char>)>,
    actions: Seq<ActionView>,
    key: (Seq<char>, Seq<char>),
)
    ensures
        concerned(actions, key) ==> settled(open, actions).contains(key) == settled(
            other,
            actions,
        ).contains(key),
        !concerned(actions, key) ==> settled(open, actions).contains(key) == open.contains(key),
    decreases actions.len(),
{
    if actions.len() > 0 {
        let front = actions.drop_last();
        lemma_settled(open, other, front, key);
        assert(subject(actions.last()) == subject(actions[actions.len() - 1]));
        if subject(actions.last()) != key {
            if concerned(front, key) {
                let i = choose|i: int| 0 <= i < front.len() && subject(#[trigger] front[i]) == key;
                assert(front[i] == actions[i]);
            } else if concerned(actions, key) {
                let i = choose|i: int|
                    0 <= i < actions.len() && subject(#[trigger] actions[i]) == key;
                assert(front[i] == actions[i]);
            }
        }
    }
}

/// Applying the same actions again changes nothing.
pub proof fn law_a_second_pass_changes_nothing(
    open: Set<(Seq<char>, Seq<char>)>,
    actions: Seq<ActionView>,
)
    ensures
        settled(settled(open, actions), actions) == settled(open, actions),
{
    let once = settled(open, actions);
    assert forall|key: (Seq<char>, Seq<char>)| settled(once, actions).contains(key)
        == once.contains(key) by {
        lemma_settled(once, open, actions, key);
    }
    assert(settled(once, actions) =~= once);
}

/// The last action on a rule and a target decides.
proof fn lemma_last_decides(
    open: Set<(Seq<char>, Seq<char>)>,
    actions: Seq<ActionView>,
    at: int,
)
    requires
        0 <= at < actions.len(),
        forall|j: int|
            at < j < actions.len() ==> subject(#[trigger] actions[j]) != subject(actions[at]),
    ensures
        settled(open, actions).contains(subject(actions[at])) == (actions[at] is Raise),
    decreases actions.len(),
{
    if at < actions.len() - 1 {
        let front = actions.drop_last();
        assert forall|j: int| at < j < front.len() implies subject(#[trigger] front[j])
            != subject(front[at]) by {
            assert(front[j] == actions[j]);
        }
        lemma_last_decides(open, front, at);
        assert(subject(actions[actions.len() - 1]) != subject(actions[at]));
    }
}

/// After a pass of all rules the notification on a failed site is open exactly for the
/// sites that have failed, whatever was open before. No two sites have one domain.
pub proof fn law_failed_sites_are_notified(
    open: Set<(Seq<char>, Seq<char>)>,
    readings: Seq<DiskReading>,
    sites: Seq<SiteRow>,
    backups: Seq<BackupReading>,
    now: UtcTime,
    i: int,
)
    requires
        0 <= i < sites.len(),
        forall|j: int|
            0 <= j < sites.len() && j != i ==> (#[trigger] sites[j]).site.domain@
                != sites[i].site.domain@,
    ensures
        settled(open, alerts(readings, sites, backups, now)).contains(
            ("site.offline"@, sites[i].site.domain@),
        ) == (sites[i].site.status == SiteStatus::Failed),
{
    let front = disk_alerts(readings) + ssl_alerts(sites, now);
    let failed = sites.map_values(
        |row: SiteRow| offline_alert(row.site.domain@, row.site.status),
    );
    let stale = backups.map_values(
        |b: BackupReading| backup_alert(b.domain@, text::text_opt(b.last_backup), now),
    );
    let all = alerts(readings, sites, backups, now);
    assert(all =~= front + failed + stale);
    let at = front.len() + i;
    assert(all[at] == failed[i]);
    assert("site.offline"@ != "backup.stale"@) by {
        reveal_strlit("site.offline");
        reveal_strlit("backup.stale");
        assert("site.offline"@[0] == 's');
        assert("backup.stale"@[0] == 'b');
    }
    assert forall|j: int| at < j < all.len() implies subject(#[trigger] all[j]) != subject(
        all[at],
    ) by {
        if j < front.len() + failed.len() {
            let k = j - front.len();
            assert(all[j] == failed[k]);
            assert(sites[k].site.domain@ != sites[i].site.domain@);
        } else {
            assert(all[j] == stale[j - front.len() - failed.len()]);
        }
    }
    lemma_last_decides(open, all, at);
}

/// After a pass of all rules the notification on a stale backup is open exactly for the
/// scheduled sites whose last backup is stale, whatever was open before. No two
/// schedules are of one site.
pub proof fn law_stale_backups_are_notified(
    open: Set<(Seq<char>, Seq<char>)>,
    readings: Seq<DiskReading>,
    sites: Seq<SiteRow>,
    backups: Seq<BackupReading>,
    now: UtcTime,
    i: int,
)
    requires
        0 <= i < backups.len(),
        forall|j: int|
            0 <= j < backups.len() && j != i ==> (#[trigger] backups[j]).domain@
                != backups[i].domain@,
    ensures
        settled(open, alerts(readings, sites, backups, now)).contains(
            ("backup.stale"@, backups[i].domain@),
        ) == is_stale(text::text_opt(backups[i].last_backup), now),
{
    let all = alerts(readings, sites, backups, now);
    let stale = backups.map_values(
        |b: BackupReading| backup_alert(b.domain@, text::text_opt(b.last_backup), now),
    );
    let start = all.len() - stale.len();
    let at = start + i;
    assert(all[at] == stale[i]);
    assert forall|j: int| at < j < all.len() implies subject(#[trigger] all[j]) != subject(
        all[at],
    ) by {
        assert(all[j] == stale[j - start]);
        assert(backups[j - start].domain@ != backups[i].domain@);
    }
    lemma_last_decides(open, all, at);
}

/// Actions one after another.
proof fn lemma_settled_in_turn(
    open: Set<(Seq<char>, Seq<char>)>,
    first: Seq<ActionView>,
    second: Seq<ActionView>,
)
    ensures
        settled(open, first + second) == settled(settled(open, first), second),
    decreases second.len(),
{
    if second.len() == 0 {
        assert(first + second =~= first);
    } else {
        assert((first + second).drop_last() =~= first + second.drop_last());
        lemma_settled_in_turn(open, first, second.drop_last());
    }
}

/// The actions on certificates are of their rule.
proof fn lemma_ssl_rule(sites: Seq<SiteRow>, now: UtcTime)
    ensures
        forall|j: int|
            0 <= j < ssl_alerts(sites, now).len() ==> subject(
                #[trigger] ssl_alerts(sites, now)[j],
            ).0 == "ssl.expiring"@,
    decreases sites.len(),
{
    if sites.len() > 0 {
        let front = ssl_alerts(sites.drop_last(), now);
        let list = ssl_alerts(sites, now);
        lemma_ssl_rule(sites.drop_last(), now);
        assert forall|j: int| 0 <= j < list.len() implies subject(#[trigger] list[j]).0
            == "ssl.expiring"@ by {
            if j < front.len() {
                assert(list[j] == front[j]);
            }
        }
    }
}

/// No two rules have one name.
proof fn lemma_rules_differ()
    ensures
        "disk.high"@ != "ssl.expiring"@,
        "disk.high"@ != "site.offline"@,
        "disk.high"@ != "backup.stale"@,
        "ssl.expiring"@ != "site.offline"@,
        "ssl.expiring"@ != "backup.stale"@,
{
    reveal_strlit("disk.high");
    reveal_strlit("ssl.expiring");
    reveal_strlit("site.offline");
    reveal_strlit("backup.stale");
    assert("disk.high"@.len() == 9);
    assert("ssl.expiring"@[1] == 's');
    assert("site.offline"@[1] == 'i');
    assert("backup.stale"@[0] == 'b');
    assert("ssl.expiring"@[0] == 's');
}

/// What the rule on disks leaves open for one server.
proof fn lemma_disk_settled(
    open: Set<(Seq<char>, Seq<char>)>,
    readings: Seq<DiskReading>,
    i: int,
)
    requires
        0 <= i < readings.len(),
        readings[i].server.server.status != ServerStatus::Offline,
        forall|j: int|
            0 <= j < readings.len() && j != i ==> (#[trigger] readings[j]).server.server.name@
                != readings[i].server.server.name@,
    ensures
        settled(open, disk_alerts(readings)).contains(
            ("disk.high"@, readings[i].server.server.name@),
        ) == disk_is_high(readings[i].server.metrics.disk_percent_bits),
    decreases readings.len(),
{
    let front = readings.drop_last();
    let last = readings.last();
    let action = disk_alert(
        last.server.server.name@,
        last.server.server.status,
        last.server.metrics.disk_percent_bits,
        last.shown@,
    );
    if action is Some {
        assert(disk_alerts(readings).drop_last() =~= disk_alerts(front));
    }
    if i < readings.len() - 1 {
        assert forall|j: int| 0 <= j < front.len() && j != i implies (
        #[trigger] front[j]).server.server.name@ != front[i].server.server.name@ by {
            assert(front[j] == readings[j]);
        }
        lemma_disk_settled(open, front, i);
        assert(readings[readings.len() - 1].server.server.name@
            != readings[i].server.server.name@);
    }
}

/// After a pass of all rules the notification on a full disk is open exactly for the
/// servers whose disk is high, whatever was open before, but for the servers that are
/// offline. No two servers have one name.
pub proof fn law_full_disks_are_notified(
    open: Set<(Seq<char>, Seq<char>)>,
    readings: Seq<DiskReading>,
    sites: Seq<SiteRow>,
    backups: Seq<BackupReading>,
    now: UtcTime,
    i: int,
)
    requires
        0 <= i < readings.len(),
        readings[i].server.server.status != ServerStatus::Offline,
        forall|j: int|
            0 <= j < readings.len() && j != i ==> (#[trigger] readings[j]).server.server.name@
                != readings[i].server.server.name@,
    ensures
        settled(open, alerts(readings, sites, backups, now)).contains(
            ("disk.high"@, readings[i].server.server.name@),
        ) == disk_is_high(readings[i].server.metrics.disk_percent_bits),
{
    let key = ("disk.high"@, readings[i].server.server.name@);
    let disks = disk_alerts(readings);
    let all = alerts(readings, sites, backups, now);
    let rest = all.skip(disks.len() as int);
    assert(all =~= disks + rest);
    lemma_settled_in_turn(open, disks, rest);
    lemma_disk_settled(open, readings, i);
    lemma_rules_differ();
    lemma_ssl_rule(sites, now);
    let ssl = ssl_alerts(sites, now);
    assert forall|j: int| 0 <= j < rest.len() implies subject(#[trigger] rest[j]).0
        != "disk.high"@ by {
        if j < ssl.len() {
            assert(rest[j] == ssl[j]);
        }
    }
    lemma_settled(settled(open, disks), open, rest, key);
}

/// What the rule on certificates leaves open for one site.
proof fn lemma_ssl_settled(
    open: Set<(Seq<char>, Seq<char>)>,
    sites: Seq<SiteRow>,
    now: UtcTime,
    i: int,
)
    requires
        0 <= i < sites.len(),
        sites[i].site.ssl.expires_at is Some,
        forall|j: int|
            0 <= j < sites.len() && j != i ==> (#[trigger] sites[j]).site.domain@
                != sites[i].site.domain@,
    ensures
        settled(open, ssl_alerts(sites, now)).contains(("ssl.expiring"@, sites[i].site.domain@))
            == expires_soon(sites[i].site.ssl.expires_at->0, now),
    decreases sites.len(),
{
    let front = sites.drop_last();
    let last = sites.last().site;
    if ssl_alert(last.domain@, last.ssl.expires_at, now) is Some {
        assert(ssl_alerts(sites, now).drop_last() =~= ssl_alerts(front, now));
    }
    if i < sites.len() - 1 {
        assert forall|j: int| 0 <= j < front.len() && j != i implies (
        #[trigger] front[j]).site.domain@ != front[i].site.domain@ by {
            assert(front[j] == sites[j]);
        }
        lemma_ssl_settled(open, front, now, i);
        assert(sites[sites.len() - 1].site.domain@ != sites[i].site.domain@);
    }
}

/// After a pass of all rules the notification on a certificate is open exactly for the
/// sites whose certificate is within its last fourteen days, whatever was open before,
/// but for the sites without one. No two sites have one domain.
pub proof fn law_expiring_certificates_are_notified(
    open: Set<(Seq<char>, Seq<char>)>,
    readings: Seq<DiskReading>,
    sites: Seq<SiteRow>,
    backups: Seq<BackupReading>,
    now: UtcTime,
    i: int,
)
    requires
        0 <= i < sites.len(),
        sites[i].site.ssl.expires_at is Some,
        forall|j: int|
            0 <= j < sites.len() && j != i ==> (#[trigger] sites[j]).site.domain@
                != sites[i].site.domain@,
    ensures
        settled(open, alerts(readings, sites, backups, now)).contains(
            ("ssl.expiring"@, sites[i].site.domain@),
        ) == expires_soon(sites[i].site.ssl.expires_at->0, now),
{
    let key = ("ssl.expiring"@, sites[i].site.domain@);
    let disks = disk_alerts(readings);
    let ssl = ssl_alerts(sites, now);
    let all = alerts(readings, sites, backups, now);
    let failed = sites.map_values(
        |row: SiteRow| offline_alert(row.site.domain@, row.site.status),
    );
    let stale = backups.map_values(
        |b: BackupReading| backup_alert(b.domain@, text::text_opt(b.last_backup), now),
    );
    let rest = failed + stale;
    assert(all =~= (disks + ssl) + rest);
    lemma_settled_in_turn(open, disks + ssl, rest);
    lemma_settled_in_turn(open, disks, ssl);
    lemma_ssl_settled(settled(open, disks), sites, now, i);
    lemma_rules_differ();
    assert forall|j: int| 0 <= j < rest.len() implies subject(#[trigger] rest[j]).0
        != "ssl.expiring"@ by {
        if j < failed.len() {
            assert(rest[j] == failed[j]);
        } else {
            assert(rest[j] == stale[j - failed.len()]);
        }
    }
    lemma_settled(settled(open, disks + ssl), open, rest, key);
}

/// Whether a notification is stored: only where none of its rule and target is open.
pub fn raises(is_open: bool) -> (r: bool)
    ensures
        r == !is_open,
{
    !is_open
}

} // verus!
