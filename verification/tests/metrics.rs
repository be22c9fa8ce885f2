use wpressforge::agent::capabilities::NginxCapabilities;
use wpressforge::agent::config::Config;
use wpressforge::agent::exec::CommandOutput;
use wpressforge::agent::ops::metrics::{
    busy_workers, container_stats, disk, memory, php_usage, services, site_sample, used_memory,
};
use wpressforge::agent::ops::site::make_record;
use wpressforge::agent::ops::webserver::WebServer;
use wpressforge::common::models::{
    CacheSettings, DatabaseMode, PhpUsage, PhpVersion, ResourceLimits, SiteMetricSample,
};

fn out(stdout: &str) -> CommandOutput {
    CommandOutput { stdout: stdout.to_string(), ..Default::default() }
}

#[test]
fn memory_is_read_from_meminfo() {
    let m = memory("MemTotal:       16384000 kB\nMemFree:  1 kB\nMemAvailable:    6384000 kB\n");
    assert_eq!(m.total_kb, 16_384_000);
    assert_eq!(m.used_kb, 10_000_000);
    assert_eq!(m.total_mb(), 16_000);
    assert_eq!(memory("nothing").total_kb, 0);
}

#[test]
fn disk_is_read_from_df() {
    let d = disk(Some(&out(" Size Use%\n 320G  58%\n")));
    assert_eq!(d.total_gb, 320);
    assert_eq!(d.used_percent.as_deref(), Some("58"));
    let d = disk(Some(&out("Size Use%\n")));
    assert_eq!(d.total_gb, 0);
    assert_eq!(d.used_percent, None);
    assert_eq!(disk(None).total_gb, 0);
}

#[test]
fn containers_are_found_by_name() {
    let stats = "wp-a\t1.50%\t12.5MiB / 1GiB\nwp-b\t0.10%\t1GiB / 2GiB\n";
    let s = container_stats(stats, "wp-a").expect("stats");
    assert_eq!(s.cpu, "1.50");
    assert_eq!(s.memory, "12.5MiB / 1GiB");
    assert!(container_stats(stats, "wp-c").is_none());
}

#[test]
fn used_memory_stands_before_the_slash() {
    let cases = [
        ("12.5MiB / 1GiB", "12.5", 1_048_576),
        ("1GiB / 2GiB", "1", 1_073_741_824),
        ("340KiB", "340", 1024),
        ("2TB", "2", 1_099_511_627_776),
        ("17B / 1GiB", "17", 1),
        ("", "", 1),
    ];
    for (shown, number, unit) in cases {
        let a = used_memory(shown);
        assert_eq!(a.number, number, "{shown}");
        assert_eq!(a.unit_bytes, unit, "{shown}");
    }
}

#[test]
fn samples_count_whole_megabytes() {
    assert_eq!(
        site_sample(3, 1.5f32.to_bits(), 13 * 1_048_576 - 1, 2),
        SiteMetricSample {
            site_id: 3,
            cpu_percent_bits: 1.5f32.to_bits(),
            memory_mb: 12,
            php_busy_workers: 2,
            cache_hit_ratio_bits: None,
        }
    );
}

#[test]
fn busy_workers_are_a_number_or_none() {
    assert_eq!(busy_workers(Some(&out(" 3\n"))), 3);
    assert_eq!(busy_workers(Some(&out("none"))), 0);
    assert_eq!(busy_workers(None), 0);
}

#[test]
fn versions_are_counted_in_order() {
    let site = |id, version| {
        make_record(
            id,
            "a.example",
            10001,
            version,
            DatabaseMode::Shared,
            ResourceLimits::default(),
            CacheSettings::default(),
        )
    };
    let sites = vec![
        site(1, PhpVersion::Php84),
        site(2, PhpVersion::Php83),
        site(3, PhpVersion::Php84),
    ];
    assert_eq!(
        php_usage(&sites),
        vec![
            PhpUsage { version: PhpVersion::Php83, sites: 1 },
            PhpUsage { version: PhpVersion::Php84, sites: 2 },
        ]
    );
}

#[test]
fn four_services_are_watched() {
    let web = WebServer::detect(Config::default(), NginxCapabilities::conservative());
    let list = services(&web, true, false, true);
    let seen: Vec<(&str, bool)> = list.iter().map(|s| (s.name.as_str(), s.healthy)).collect();
    assert_eq!(
        seen,
        vec![("nginx", true), ("docker", false), ("mariadb", true), ("agent", true)]
    );
    assert_eq!(list[0].detail.as_deref(), Some(web.version_label().as_str()));
    assert_eq!(list[3].detail.as_deref(), Some("0.1.0"));
}
