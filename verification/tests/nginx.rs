use wpressforge::agent::capabilities::NginxCapabilities;
use wpressforge::agent::config::Config;
use wpressforge::agent::ops::nginx::{render_cache_zone, render_vhost, NginxServer};
use wpressforge::agent::plan::Action;
use wpressforge::agent::store::SiteRecord;
use wpressforge::common::models::{
    CacheSettings, DatabaseMode, PhpVersion, ResourceLimits, SiteStatus,
};

fn config() -> Config {
    Config {
        bind: "127.0.0.1:8443".into(),
        token: "t".repeat(24),
        sites_root: "/var/www".into(),
        cache_root: "/var/cache/nginx".into(),
        state_file: "/var/lib/wp-agent/state.json".into(),
        nginx_dir: "/etc/nginx/sites-enabled".into(),
        uid_base: 10001,
        dry_run: true,
        restic_repo: None,
        acme_email: None,
        public_ip: None,
        tls_cert: None,
        tls_key: None,
        tls_self_signed: false,
    }
}

fn site() -> SiteRecord {
    SiteRecord {
        site_id: 1,
        domain: "example.com".into(),
        uid: 10001,
        php_version: PhpVersion::Php84,
        database_mode: DatabaseMode::Shared,
        limits: ResourceLimits::default(),
        cache: CacheSettings::default(),
        status: SiteStatus::Online,
        container_id: None,
        db_name: "wp_example_com".into(),
        domains: vec!["example.com".into(), "www.example.com".into()],
    }
}

/// Debian 12 / Ubuntu 24.04: no `http2 on;`, no brotli.
#[test]
fn legacy_nginx_uses_listen_parameter_and_no_brotli() {
    let caps = NginxCapabilities::parse("nginx version: nginx/1.24.0 (Ubuntu)");
    let vhost = render_vhost(&config(), &caps, &site(), true);

    assert!(vhost.contains("listen 443 ssl http2;"));
    assert!(!vhost.contains("http2 on;"));
    assert!(!vhost.contains("brotli"));
    assert!(vhost.contains("gzip_static on;"));
    assert!(!vhost.contains("quic"));
}

/// Mainline with the extra modules: modern directives appear.
#[test]
fn modern_nginx_uses_http2_directive_and_brotli() {
    let caps = NginxCapabilities::parse(
        "nginx version: nginx/1.29.1\nconfigure arguments: --with-http_v3_module \
         --add-module=/build/ngx_brotli",
    );
    let vhost = render_vhost(&config(), &caps, &site(), true);

    assert!(vhost.contains("http2 on;"));
    assert!(!vhost.contains("listen 443 ssl http2;"));
    assert!(vhost.contains("brotli on;"));
    assert!(vhost.contains("listen 443 quic;"));
    assert!(vhost.contains("http3 on;"));
    assert!(vhost.contains("Alt-Svc"));
}

/// `reuseport` must never be emitted: one per address:port, many vhosts.
#[test]
fn quic_listener_never_claims_reuseport() {
    let caps = NginxCapabilities::parse(
        "nginx version: nginx/1.29.1\nconfigure arguments: --with-http_v3_module",
    );
    let vhost = render_vhost(&config(), &caps, &site(), true);
    assert!(!vhost.contains("reuseport"));
}

#[test]
fn plain_http_vhost_has_no_tls_or_redirect() {
    let caps = NginxCapabilities::conservative();
    let vhost = render_vhost(&config(), &caps, &site(), false);

    assert!(vhost.contains("listen 80;"));
    assert!(!vhost.contains("ssl_certificate"));
    assert!(!vhost.contains("return 301 https://"));
}

#[test]
fn tls_vhost_redirects_http_and_keeps_acme_reachable() {
    let vhost = render_vhost(&config(), &NginxCapabilities::conservative(), &site(), true);

    assert!(vhost.contains("return 301 https://$host$request_uri;"));
    assert!(vhost.contains("/.well-known/acme-challenge/"));
    assert!(vhost.contains("server_name example.com www.example.com;"));
}

#[test]
fn caching_can_be_disabled_per_site() {
    let mut record = site();
    record.cache.fastcgi_cache = false;
    let vhost = render_vhost(&config(), &NginxCapabilities::conservative(), &record, true);

    assert!(vhost.contains("set $skip_cache 1;"));
    assert!(!vhost.contains("fastcgi_cache example_com;"));
}

#[test]
fn cache_zone_matches_the_zone_the_vhost_references() {
    let record = site();
    let vhost = render_vhost(&config(), &NginxCapabilities::conservative(), &record, true);
    let zone = render_cache_zone(&config(), &record);

    assert!(vhost.contains("fastcgi_cache example_com;"));
    assert!(zone.contains("keys_zone=example_com:32m"));
}

/// Config we generate must never contain a directive that only exists in a
/// newer Nginx than the host reports.
#[test]
fn conservative_output_avoids_every_optional_directive() {
    let vhost = render_vhost(&config(), &NginxCapabilities::conservative(), &site(), true);

    for forbidden in ["http2 on;", "http3 on;", "brotli", "quic", "reuseport", "fastcgi_cache_purge"] {
        assert!(
            !vhost.contains(forbidden),
            "conservative vhost must not contain `{forbidden}`"
        );
    }
}

/// When cache_purge is available and caching enabled, the purge location appears.
#[test]
fn purge_location_rendered_when_cache_purge_available() {
    let caps = NginxCapabilities {
        cache_purge: true,
        ..NginxCapabilities::conservative()
    };
    let vhost = render_vhost(&config(), &caps, &site(), true);

    assert!(vhost.contains("fastcgi_cache_purge example_com"));
    assert!(vhost.contains("/wp-panel-purge"));
    assert!(vhost.contains("allow 127.0.0.1;"));
    assert!(vhost.contains("deny all;"));
}

/// When cache_purge is absent, no purge directive appears.
#[test]
fn no_purge_location_without_cache_purge_module() {
    let caps = NginxCapabilities {
        cache_purge: false,
        ..NginxCapabilities::conservative()
    };
    let vhost = render_vhost(&config(), &caps, &site(), true);

    assert!(!vhost.contains("fastcgi_cache_purge"));
    assert!(!vhost.contains("/wp-panel-purge"));
}

/// When cache_purge is available but caching disabled, no purge location.
#[test]
fn no_purge_location_when_caching_disabled() {
    let mut record = site();
    record.cache.fastcgi_cache = false;
    let caps = NginxCapabilities {
        cache_purge: true,
        ..NginxCapabilities::conservative()
    };
    let vhost = render_vhost(&config(), &caps, &record, true);

    assert!(!vhost.contains("fastcgi_cache_purge"));
}

/// A configuration is tested before it is applied.
#[test]
fn a_reload_tests_first() {
    let server = NginxServer::new(config(), NginxCapabilities::conservative());
    let tasks = server.reload();
    let lines: Vec<String> = tasks
        .iter()
        .map(|t| match &t.action {
            Action::Run(line) => format!("{} {}", line.program, line.args.join(" ")),
            other => panic!("unexpected action: {other:?}"),
        })
        .collect();
    assert_eq!(lines, vec!["nginx -t".to_string(), "systemctl reload nginx".to_string()]);
}

/// A site has a vhost and a cache zone, each in a file of its own.
#[test]
fn site_files_go_where_the_host_looks_for_them() {
    let server = NginxServer::new(config(), NginxCapabilities::conservative());
    let written: Vec<String> = server
        .write_site(&site(), false)
        .into_iter()
        .filter_map(|t| match t.action {
            Action::WriteFile { path, .. } => Some(path),
            _ => None,
        })
        .collect();
    assert!(written.contains(&config().vhost_path("example.com")), "{written:?}");
    assert!(written.contains(&server.cache_zone_path("example.com")), "{written:?}");
}
