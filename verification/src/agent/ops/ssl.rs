//! Let's Encrypt via certbot's webroot challenge. DNS is checked first so a
//! misconfigured domain fails fast instead of burning ACME rate limits.

use vstd::prelude::*;
use crate::agent::config::Config;
use crate::agent::plan;
use crate::agent::plan::{Action, ActionView, Task, TaskView, Verdict, VerdictView};
use crate::clock::{UtcTime, MAX_SECS, MIN_SECS};
use crate::common::error::{Error, ErrorView};
use crate::text;

verus! {

/// Resolves the domain and compares it with the server's public address, as far as that
/// is known.
pub open spec fn spec_verify_dns(config: Config, domain: Seq<char>) -> TaskView {
    TaskView {
        action: plan::command("getent"@, seq!["hosts"@, domain]),
        verdict: VerdictView::Resolves { domain, address: text::text_opt(config.public_ip) },
    }
}

/// Executable form of [`spec_verify_dns`].
pub fn verify_dns(config: &Config, domain: &str) -> (t: Task)
    ensures
        t@ == spec_verify_dns(*config, domain@),
{
    let address = match &config.public_ip {
        Some(ip) => Some(ip.clone()),
        None => None,
    };
    Task {
        action: plan::run("getent", text::list2("hosts", domain)),
        verdict: Verdict::Resolves { domain: domain.to_owned(), address },
    }
}

/// `-d` in front of each domain.
pub open spec fn domain_args(domains: Seq<Seq<char>>) -> Seq<Seq<char>>
    decreases domains.len(),
{
    if domains.len() == 0 {
        Seq::empty()
    } else {
        domain_args(domains.drop_last()).push("-d"@).push(domains.last())
    }
}

/// The arguments that request one certificate for all of the domains, under the
/// name of the first.
pub open spec fn certonly_args(config: Config, domains: Seq<Seq<char>>) -> Seq<Seq<char>> {
    let common = seq![
        "certonly"@,
        "--webroot"@,
        "--webroot-path"@,
        "/var/www/acme"@,
        "--non-interactive"@,
        "--agree-tos"@,
        "--keep-until-expiring"@,
        "--cert-name"@,
        domains[0],
    ];
    (match config.acme_email {
        Some(email) => common.push("--email"@).push(email@),
        None => common.push("--register-unsafely-without-email"@),
    }) + domain_args(domains)
}

/// Requests a certificate, once every domain is known to resolve.
pub open spec fn spec_issue(config: Config, domains: Seq<Seq<char>>) -> Seq<TaskView> {
    if domains.len() == 0 {
        seq![plan::plain(ActionView::Refuse(ErrorView::Invalid("no domains supplied"@)))]
    } else {
        domains.map_values(|d: Seq<char>| spec_verify_dns(config, d)).push(
            plan::plain(plan::command("certbot"@, certonly_args(config, domains))),
        )
    }
}

/// Requests a certificate, once every domain is known to resolve.
pub fn issue(config: &Config, domains: &Vec<String>) -> (v: Vec<Task>)
    ensures
        plan::tasks(v@) == spec_issue(*config, text::texts(domains@)),
{
    if domains.len() == 0 {
        return plan::only(Action::Refuse(Error::invalid("no domains supplied")));
    }
    let ghost names = text::texts(domains@);
    let ghost checks = names.map_values(|d: Seq<char>| spec_verify_dns(*config, d));
    let mut v = plan::no_tasks();
    let mut i: usize = 0;
    while i < domains.len()
        invariant
            i <= domains@.len(),
            names == text::texts(domains@),
            checks == names.map_values(|d: Seq<char>| spec_verify_dns(*config, d)),
            plan::tasks(v@) =~= checks.take(i as int),
        decreases domains@.len() - i,
    {
        plan::push_task(&mut v, verify_dns(config, domains[i].as_str()));
        i += 1;
    }
    assert(plan::tasks(v@) =~= checks);
    let mut args = text::list9(
        "certonly",
        "--webroot",
        "--webroot-path",
        "/var/www/acme",
        "--non-interactive",
        "--agree-tos",
        "--keep-until-expiring",
        "--cert-name",
        domains[0].as_str(),
    );
    match &config.acme_email {
        Some(email) => text::more2(&mut args, "--email", email.as_str()),
        None => text::more1(&mut args, "--register-unsafely-without-email"),
    }
    let ghost front = text::texts(args@);
    assert(front + domain_args(names.take(0)) =~= front);
    let mut i: usize = 0;
    while i < domains.len()
        invariant
            i <= domains@.len(),
            names == text::texts(domains@),
            text::texts(args@) == front + domain_args(names.take(i as int)),
        decreases domains@.len() - i,
    {
        text::more2(&mut args, "-d", domains[i].as_str());
        assert(names.take(i + 1).drop_last() =~= names.take(i as int));
        assert(text::texts(args@) =~= front + domain_args(names.take(i + 1)));
        i += 1;
    }
    assert(names.take(i as int) =~= names);
    plan::push_action(&mut v, plan::run("certbot", args));
    v
}

/// Renews the certificate of a site.
pub open spec fn spec_renew(domain: Seq<char>) -> Seq<TaskView> {
    seq![
        plan::plain(
            plan::command(
                "certbot"@,
                seq!["renew"@, "--cert-name"@, domain, "--non-interactive"@],
            ),
        ),
    ]
}

pub fn renew(domain: &str) -> (v: Vec<Task>)
    ensures
        plan::tasks(v@) == spec_renew(domain@),
{
    plan::only(
        plan::run("certbot", text::list4("renew", "--cert-name", domain, "--non-interactive")),
    )
}

/// How long a certificate is valid, in seconds: 90 days.
pub const VALIDITY_SECS: i64 = 7_776_000;

/// A time from which on a certificate can still be issued.
pub open spec fn issuable(now: UtcTime) -> bool {
    now.wf() && now.secs + VALIDITY_SECS <= MAX_SECS
}

/// Executable form of [`issuable`].
pub fn can_issue(now: &UtcTime) -> (r: bool)
    ensures
        r == issuable(*now),
{
    MIN_SECS <= now.secs && now.secs <= MAX_SECS - VALIDITY_SECS && now.nanos < 1_000_000_000
}

/// When a certificate that is issued at `now` expires.
pub fn expiry(now: &UtcTime) -> (t: UtcTime)
    requires
        issuable(*now),
    ensures
        t.secs == now.secs + VALIDITY_SECS,
        t.nanos == now.nanos,
        t.wf(),
{
    now.plus_seconds(VALIDITY_SECS)
}

} // verus!
