//! Host metrics for the panel dashboard: what the files under /proc and the
//! tools already installed say.

use vstd::prelude::*;
use vstd::slice::slice_subrange;
use crate::agent::config::Config;
use crate::agent::exec::{CommandOutput, OutputView};
use crate::agent::ops::webserver::WebServer;
use crate::agent::plan;
use crate::agent::plan::Action;
use crate::agent::store::SiteRecord;
use crate::common::models::{PhpUsage, PhpVersion, ServiceHealth, SiteMetricSample};
use crate::digits;
use crate::text;
use crate::text::Class;

verus! {

/// Version of the agent, reported to the panel.
pub const AGENT_VERSION: &'static str = "0.1.0";

// ---------------------------------------------------------------------------
// PHP versions in use
// ---------------------------------------------------------------------------

/// How many of the sites run a version.
pub open spec fn sites_on(sites: Seq<SiteRecord>, version: PhpVersion) -> nat
    decreases sites.len(),
{
    if sites.len() == 0 {
        0
    } else {
        sites_on(sites.drop_last(), version) + (if sites.last().php_version == version {
            1nat
        } else {
            0nat
        })
    }
}

/// The versions that sites run, oldest first, with the number of sites on each.
pub open spec fn usage(sites: Seq<SiteRecord>, versions: Seq<PhpVersion>) -> Seq<PhpUsage>
    decreases versions.len(),
{
    if versions.len() == 0 {
        Seq::empty()
    } else {
        let front = usage(sites, versions.drop_last());
        let n = sites_on(sites, versions.last());
        if n > 0 {
            front.push(PhpUsage { version: versions.last(), sites: n as u32 })
        } else {
            front
        }
    }
}

/// Counts the sites of [`sites_on`].
fn count_sites(sites: &Vec<SiteRecord>, version: PhpVersion) -> (n: u32)
    requires
        sites@.len() <= u32::MAX,
    ensures
        n == sites_on(sites@, version),
{
    let mut n: u32 = 0;
    let mut i: usize = 0;
    while i < sites.len()
        invariant
            i <= sites@.len() <= u32::MAX,
            n == sites_on(sites@.take(i as int), version),
            n <= i,
        decreases sites@.len() - i,
    {
        assert(sites@.take(i + 1).drop_last() =~= sites@.take(i as int));
        if sites[i].php_version == version {
            n += 1;
        }
        i += 1;
    }
    assert(sites@.take(i as int) =~= sites@);
    n
}

/// The versions that sites run, oldest first, with the number of sites on each.
pub fn php_usage(sites: &Vec<SiteRecord>) -> (v: Vec<PhpUsage>)
    requires
        sites@.len() <= u32::MAX,
    ensures
        v@ == usage(sites@, PhpVersion::spec_all()),
{
    let all = PhpVersion::all();
    let mut v: Vec<PhpUsage> = Vec::new();
    let mut i: usize = 0;
    while i < all.len()
        invariant
            i <= all@.len(),
            sites@.len() <= u32::MAX,
            all@ == PhpVersion::spec_all(),
            v@ == usage(sites@, all@.take(i as int)),
        decreases all@.len() - i,
    {
        assert(all@.take(i + 1).drop_last() =~= all@.take(i as int));
        let n = count_sites(sites, all[i]);
        if n > 0 {
            v.push(PhpUsage { version: all[i], sites: n });
        }
        i += 1;
    }
    assert(all@.take(i as int) =~= all@);
    v
}

// ---------------------------------------------------------------------------
// Memory and disk
// ---------------------------------------------------------------------------

/// The number that a line of /proc/meminfo gives for a key.
pub open spec fn value_on(line: Seq<char>, key: Seq<char>) -> Option<nat> {
    match text::split_once(line, ':') {
        Some((name, rest)) => {
            let words = text::words(rest);
            if name == key && words.len() > 0 {
                digits::parse(words[0], u64::MAX as nat)
            } else {
                None
            }
        },
        None => None,
    }
}

/// The number that the last line for a key gives, or zero.
pub open spec fn value_of(lines: Seq<Seq<char>>, key: Seq<char>) -> nat
    decreases lines.len(),
{
    if lines.len() == 0 {
        0
    } else {
        match value_on(lines.last(), key) {
            Some(n) => n,
            None => value_of(lines.drop_last(), key),
        }
    }
}

/// What a key is given fits into 64 bits.
pub proof fn lemma_value_fits(lines: Seq<Seq<char>>, key: Seq<char>)
    ensures
        value_of(lines, key) <= u64::MAX,
    decreases lines.len(),
{
    if lines.len() > 0 {
        lemma_value_fits(lines.drop_last(), key);
    }
}

/// Executable form of [`value_on`].
fn read_value(line: &[char], key: &str) -> (r: Option<u64>)
    ensures
        match r {
            Some(n) => value_on(line@, key@) == Some(n as nat),
            None => value_on(line@, key@) is None,
        },
{
    match text::cut(line, ':') {
        Some((name, rest)) => {
            let k = text::chars_of(key);
            let words = text::words_of(rest);
            if text::same_chars(name, k.as_slice()) && words.len() > 0 {
                assert(text::rows(words@)[0] == words@[0]@);
                digits::parse_max(words[0].as_slice(), u64::MAX)
            } else {
                None
            }
        },
        None => None,
    }
}

/// Executable form of [`value_of`].
fn find_value(lines: &Vec<Vec<char>>, key: &str) -> (n: u64)
    ensures
        n == value_of(text::rows(lines@), key@),
{
    let ghost all = text::rows(lines@);
    let mut i: usize = lines.len();
    assert(all.take(i as int) =~= all);
    while i > 0
        invariant
            i <= lines@.len(),
            all == text::rows(lines@),
            value_of(all, key@) == value_of(all.take(i as int), key@),
        decreases i,
    {
        assert(all.take(i as int).drop_last() =~= all.take(i - 1));
        assert(all.take(i as int).last() == lines@[i - 1]@);
        if let Some(n) = read_value(lines[i - 1].as_slice(), key) {
            return n;
        }
        i -= 1;
    }
    0
}

/// Memory of the host in kilobytes.
#[derive(Debug, Clone, Copy, PartialEq, Eq, Structural)]
pub struct Memory {
    pub total_kb: u64,
    pub used_kb: u64,
}

/// What /proc/meminfo says: without a total, nothing.
pub open spec fn spec_memory(raw: Seq<char>) -> Memory {
    let lines = text::lines(raw);
    let total = value_of(lines, "MemTotal"@);
    let available = value_of(lines, "MemAvailable"@);
    Memory {
        total_kb: total as u64,
        used_kb: if total > available {
            (total - available) as u64
        } else {
            0
        },
    }
}

/// What /proc/meminfo says.
pub fn memory(raw: &str) -> (m: Memory)
    ensures
        m == spec_memory(raw@),
{
    let cs = text::chars_of(raw);
    let lines = text::lines_of(cs.as_slice());
    let total = find_value(&lines, "MemTotal");
    let available = find_value(&lines, "MemAvailable");
    Memory {
        total_kb: total,
        used_kb: if total > available {
            total - available
        } else {
            0
        },
    }
}

impl Memory {
    /// The total in megabytes.
    pub fn total_mb(&self) -> (n: u64)
        ensures
            n == self.total_kb / 1024,
    {
        self.total_kb / 1024
    }
}

/// Asks for the size and the use of the disk that sites are on.
pub fn disk_action(config: &Config) -> (a: Action)
    ensures
        a@ == plan::probe(
            "df"@,
            seq!["-BG"@, "--output=size,pcent"@, config.sites_root@],
        ),
{
    plan::run_probe(
        "df",
        text::list3("-BG", "--output=size,pcent", config.sites_root.as_str()),
    )
}

/// Size of a disk in gigabytes, and the share in use as it was written.
#[derive(Debug)]
pub struct Disk {
    pub total_gb: u64,
    pub used_percent: Option<String>,
}

/// Word `n` of a text, without `end` at its end.
pub open spec fn word_without(s: Seq<char>, n: int, end: char) -> Option<Seq<char>> {
    let words = text::words(s);
    if 0 <= n < words.len() {
        Some(text::trim_end(words[n], Class::Is(end)))
    } else {
        None
    }
}

/// Executable form of [`word_without`].
fn read_word(s: &[char], n: usize, end: char) -> (r: Option<String>)
    ensures
        text::text_opt(r) == word_without(s@, n as int, end),
{
    let words = text::words_of(s);
    if n < words.len() {
        assert(text::rows(words@)[n as int] == words@[n as int]@);
        Some(text::string_of(text::trimmed_end(words[n].as_slice(), Class::Is(end))))
    } else {
        None
    }
}

/// The line of the answer to [`disk_action`] that holds the figures.
pub open spec fn figures(out: Option<OutputView>) -> Option<Seq<char>> {
    match out {
        Some(o) => {
            let lines = text::lines(o.stdout);
            if lines.len() > 1 {
                Some(lines[1])
            } else {
                None
            }
        },
        None => None,
    }
}

/// The size in the answer to [`disk_action`].
pub open spec fn disk_size(out: Option<OutputView>) -> nat {
    match figures(out) {
        Some(line) => match word_without(line, 0, 'G') {
            Some(word) => match digits::parse(word, u64::MAX as nat) {
                Some(n) => n,
                None => 0,
            },
            None => 0,
        },
        None => 0,
    }
}

/// The share in use in the answer to [`disk_action`].
pub open spec fn disk_share(out: Option<OutputView>) -> Option<Seq<char>> {
    match figures(out) {
        Some(line) => word_without(line, 1, '%'),
        None => None,
    }
}

/// What the answer to [`disk_action`] says.
pub fn disk(out: Option<&CommandOutput>) -> (d: Disk)
    ensures
        ({
            let view = match out {
                Some(o) => Some(o@),
                None => None,
            };
            d.total_gb == disk_size(view) && text::text_opt(d.used_percent) == disk_share(view)
        }),
{
    let o = match out {
        Some(o) => o,
        None => return Disk { total_gb: 0, used_percent: None },
    };
    let cs = text::chars_of(o.stdout.as_str());
    let lines = text::lines_of(cs.as_slice());
    if lines.len() < 2 {
        return Disk { total_gb: 0, used_percent: None };
    }
    assert(text::rows(lines@)[1] == lines@[1]@);
    let line = lines[1].as_slice();
    let total_gb = match read_word(line, 0, 'G') {
        Some(word) => {
            let w = text::chars_of(word.as_str());
            match digits::parse_max(w.as_slice(), u64::MAX) {
                Some(n) => n,
                None => 0,
            }
        },
        None => 0,
    };
    Disk { total_gb, used_percent: read_word(line, 1, '%') }
}

// ---------------------------------------------------------------------------
// Services
// ---------------------------------------------------------------------------

/// Asks whether a unit is running. Read-only, so it runs in dry-run too: the
/// panel sees the real service state.
pub fn unit_action(unit: &str) -> (a: Action)
    ensures
        a@ == plan::probe("systemctl"@, seq!["is-active"@, "--quiet"@, unit@]),
{
    plan::run_probe("systemctl", text::list3("is-active", "--quiet", unit))
}

/// [`ServiceHealth`] with its texts as sequences of characters.
pub struct ServiceView {
    pub name: Seq<char>,
    pub healthy: bool,
    pub detail: Option<Seq<char>>,
}

impl View for ServiceHealth {
    type V = ServiceView;

    open spec fn view(&self) -> ServiceView {
        ServiceView {
            name: self.name@,
            healthy: self.healthy,
            detail: text::text_opt(self.detail),
        }
    }
}

/// The health of the host's services. The web server reports its detected
/// version so the panel can warn about hosts too old for HTTP/3 or brotli; the
/// agent is there to answer.
pub fn services(web: &WebServer, web_ok: bool, docker_ok: bool, mariadb_ok: bool) -> (v: Vec<
    ServiceHealth,
>)
    ensures
        v@.map_values(|s: ServiceHealth| s@) == seq![
            ServiceView {
                name: "nginx"@,
                healthy: web_ok,
                detail: Some(web.spec_version_label()),
            },
            ServiceView { name: "docker"@, healthy: docker_ok, detail: None },
            ServiceView { name: "mariadb"@, healthy: mariadb_ok, detail: None },
            ServiceView { name: "agent"@, healthy: true, detail: Some(AGENT_VERSION@) },
        ],
{
    let mut v: Vec<ServiceHealth> = Vec::new();
    v.push(
        ServiceHealth {
            name: web.kind().to_owned(),
            healthy: web_ok,
            detail: Some(web.version_label()),
        },
    );
    v.push(ServiceHealth { name: "docker".to_owned(), healthy: docker_ok, detail: None });
    v.push(ServiceHealth { name: "mariadb".to_owned(), healthy: mariadb_ok, detail: None });
    v.push(
        ServiceHealth {
            name: "agent".to_owned(),
            healthy: true,
            detail: Some(AGENT_VERSION.to_owned()),
        },
    );
    v
}

// ---------------------------------------------------------------------------
// Containers
// ---------------------------------------------------------------------------

/// Asks docker for the load of every container.
pub fn stats_action() -> (a: Action)
    ensures
        a@ == plan::probe(
            "docker"@,
            seq![
                "stats"@,
                "--no-stream"@,
                "--format"@,
                "{{.Name}}\t{{.CPUPerc}}\t{{.MemUsage}}"@,
            ],
        ),
{
    plan::run_probe(
        "docker",
        text::list4(
            "stats",
            "--no-stream",
            "--format",
            "{{.Name}}\t{{.CPUPerc}}\t{{.MemUsage}}",
        ),
    )
}

/// The load of a container, with its figures as docker writes them.
#[derive(Debug)]
pub struct ContainerStats {
    pub cpu: String,
    pub memory: String,
}

/// [`ContainerStats`] with its texts as sequences of characters.
pub struct StatsView {
    pub cpu: Seq<char>,
    pub memory: Seq<char>,
}

impl View for ContainerStats {
    type V = StatsView;

    open spec fn view(&self) -> StatsView {
        StatsView { cpu: self.cpu@, memory: self.memory@ }
    }
}

/// The load that a line gives for a container: name, share of the processor
/// without its percent sign, and memory, with tabs between them.
pub open spec fn stats_on(line: Seq<char>, name: Seq<char>) -> Option<StatsView> {
    let parts = text::split(line, '\t');
    if parts.len() >= 3 && text::trim(parts[0], Class::White) == name {
        Some(
            StatsView {
                cpu: text::trim_end(text::trim(parts[1], Class::White), Class::Is('%')),
                memory: text::trim(parts[2], Class::White),
            },
        )
    } else {
        None
    }
}

/// The load that the last line for a container gives.
pub open spec fn stats_in(lines: Seq<Seq<char>>, name: Seq<char>) -> Option<StatsView>
    decreases lines.len(),
{
    if lines.len() == 0 {
        None
    } else {
        match stats_on(lines.last(), name) {
            Some(s) => Some(s),
            None => stats_in(lines.drop_last(), name),
        }
    }
}

/// The load of a container in the answer to [`stats_action`].
pub fn container_stats(stdout: &str, name: &str) -> (r: Option<ContainerStats>)
    ensures
        match r {
            Some(s) => stats_in(text::lines(stdout@), name@) == Some(s@),
            None => stats_in(text::lines(stdout@), name@) is None,
        },
{
    let cs = text::chars_of(stdout);
    let lines = text::lines_of(cs.as_slice());
    let wanted = text::chars_of(name);
    let ghost all = text::rows(lines@);
    let mut i: usize = lines.len();
    assert(all.take(i as int) =~= all);
    while i > 0
        invariant
            i <= lines@.len(),
            all == text::rows(lines@),
            all == text::lines(stdout@),
            wanted@ == name@,
            stats_in(all, name@) == stats_in(all.take(i as int), name@),
        decreases i,
    {
        assert(all.take(i as int).drop_last() =~= all.take(i - 1));
        assert(all.take(i as int).last() == lines@[i - 1]@);
        let parts = text::pieces(lines[i - 1].as_slice(), '\t');
        if parts.len() >= 3 {
            let ghost rows = text::rows(parts@);
            assert(rows[0] == parts@[0]@ && rows[1] == parts@[1]@ && rows[2] == parts@[2]@);
            if text::same_chars(
                text::trimmed(parts[0].as_slice(), Class::White),
                wanted.as_slice(),
            ) {
                let cpu = text::trimmed_end(
                    text::trimmed(parts[1].as_slice(), Class::White),
                    Class::Is('%'),
                );
                let memory = text::trimmed(parts[2].as_slice(), Class::White);
                return Some(
                    ContainerStats {
                        cpu: text::string_of(cpu),
                        memory: text::string_of(memory),
                    },
                );
            }
        }
        i -= 1;
    }
    None
}

/// An amount of memory as docker writes it: a number, and how many bytes its unit has.
#[derive(Debug)]
pub struct Amount {
    pub number: String,
    pub unit_bytes: u64,
}

/// How many bytes a unit has; one that is not known counts as one byte.
pub open spec fn bytes_of_unit(unit: Seq<char>) -> u64 {
    if unit == "kb"@ || unit == "kib"@ {
        1024
    } else if unit == "mb"@ || unit == "mib"@ {
        1_048_576
    } else if unit == "gb"@ || unit == "gib"@ {
        1_073_741_824
    } else if unit == "tb"@ || unit == "tib"@ {
        1_099_511_627_776
    } else {
        1
    }
}

/// What stands before the slash in `used / limit`, or all of it.
pub open spec fn used_part(memory: Seq<char>) -> Seq<char> {
    let shown = text::trim(memory, Class::White);
    match text::split_once(shown, '/') {
        Some((used, _)) => text::trim(used, Class::White),
        None => shown,
    }
}

/// The amount in use: digits with a full stop among them, then a unit in letters of
/// either case.
pub open spec fn is_used(a: Amount, memory: Seq<char>) -> bool {
    let used = used_part(memory);
    let n = text::prefix_len(used, Class::DigitOrDot);
    &&& a.number@ == used.take(n)
    &&& a.unit_bytes == bytes_of_unit(text::lowered(text::trim(used.skip(n), Class::White)))
}

/// Executable form of [`bytes_of_unit`].
fn unit_size(unit: &str) -> (n: u64)
    ensures
        n == bytes_of_unit(unit@),
{
    if text::same(unit, "kb") || text::same(unit, "kib") {
        1024
    } else if text::same(unit, "mb") || text::same(unit, "mib") {
        1_048_576
    } else if text::same(unit, "gb") || text::same(unit, "gib") {
        1_073_741_824
    } else if text::same(unit, "tb") || text::same(unit, "tib") {
        1_099_511_627_776
    } else {
        1
    }
}

/// The memory that a container uses, out of what docker shows of it.
pub fn used_memory(memory: &str) -> (a: Amount)
    ensures
        is_used(a, memory@),
{
    let cs = text::chars_of(memory);
    let shown = text::trimmed(cs.as_slice(), Class::White);
    let used = match text::cut(shown, '/') {
        Some((used, _)) => text::trimmed(used, Class::White),
        None => shown,
    };
    let n = text::prefix(used, Class::DigitOrDot);
    proof {
        text::lemma_prefix_len(used@, Class::DigitOrDot);
    }
    let number = slice_subrange(used, 0, n);
    let rest = slice_subrange(used, n, used.len());
    assert(number@ =~= used@.take(n as int));
    assert(rest@ =~= used@.skip(n as int));
    let unit = text::lowered_chars(text::trimmed(rest, Class::White));
    Amount { number: text::string_of(number), unit_bytes: unit_size(unit.as_str()) }
}

/// The sample of a site, given the bytes of memory that it uses.
pub fn site_sample(site_id: i64, cpu_percent_bits: u32, bytes: u64, busy: u32) -> (s:
    SiteMetricSample)
    ensures
        s == (SiteMetricSample {
            site_id,
            cpu_percent_bits,
            memory_mb: bytes / 1_048_576,
            php_busy_workers: busy,
            cache_hit_ratio_bits: None,
        }),
{
    SiteMetricSample {
        site_id,
        cpu_percent_bits,
        memory_mb: bytes / 1_048_576,
        php_busy_workers: busy,
        cache_hit_ratio_bits: None,
    }
}

/// Asks PHP-FPM how many of its workers are busy.
pub fn busy_action(site: &SiteRecord) -> (a: Action)
    ensures
        a@ == plan::command(
            "sh"@,
            seq![
                "-c"@,
                "docker exec "@ + site@.container()
                    + " curl -s http://127.0.0.1:9000/status 2>/dev/null | grep 'active processes:' | awk '{print $3}'"@,
            ],
        ),
{
    let container = site.container_name();
    let script = text::cat3(
        "docker exec ",
        container.as_str(),
        " curl -s http://127.0.0.1:9000/status 2>/dev/null | grep 'active processes:' | awk '{print $3}'",
    );
    plan::run("sh", text::list2("-c", script.as_str()))
}

/// The number in the answer to [`busy_action`], or zero.
pub open spec fn spec_busy_workers(out: Option<OutputView>) -> nat {
    match out {
        Some(o) => match digits::parse(o.trimmed(), u32::MAX as nat) {
            Some(n) => n,
            None => 0,
        },
        None => 0,
    }
}

/// Executable form of [`spec_busy_workers`].
pub fn busy_workers(out: Option<&CommandOutput>) -> (n: u32)
    ensures
        n == spec_busy_workers(
            match out {
                Some(o) => Some(o@),
                None => None,
            },
        ),
{
    match out {
        Some(o) => {
            let shown = o.trimmed_stdout();
            let cs = text::chars_of(shown.as_str());
            match digits::parse_max(cs.as_slice(), u32::MAX as u64) {
                Some(n) => n as u32,
                None => 0,
            }
        },
        None => 0,
    }
}

} // verus!
