use wpressforge::agent::capabilities::{parse_version, NginxCapabilities};
use wpressforge::agent::exec::CommandOutput;
use wpressforge::agent::plan::Action;

const DEBIAN_12: &str = "nginx version: nginx/1.22.1\nbuilt with OpenSSL 3.0.11\n\
    configure arguments: --with-http_ssl_module --with-http_v2_module";

const UBUNTU_24_04: &str = "nginx version: nginx/1.24.0 (Ubuntu)\n\
    configure arguments: --with-http_ssl_module --with-http_v2_module \
    --with-http_realip_module";

const MAINLINE_FULL: &str = "nginx version: nginx/1.29.1\nbuilt with OpenSSL 3.5.0\n\
    configure arguments: --with-http_ssl_module --with-http_v2_module \
    --with-http_v3_module --add-module=/build/ngx_brotli \
    --add-dynamic-module=/build/ngx_cache_purge";

#[test]
fn debian_12_has_no_http2_directive() {
    let caps = NginxCapabilities::parse(DEBIAN_12);
    assert_eq!(caps.version, (1, 22, 1));
    assert!(!caps.http2_directive);
    assert!(!caps.brotli);
    assert!(!caps.http3);
    assert!(caps.detected);
}

#[test]
fn ubuntu_24_04_has_no_http2_directive() {
    let caps = NginxCapabilities::parse(UBUNTU_24_04);
    assert_eq!(caps.version, (1, 24, 0));
    assert!(!caps.http2_directive);
    assert!(!caps.brotli);
}

#[test]
fn mainline_supports_everything() {
    let caps = NginxCapabilities::parse(MAINLINE_FULL);
    assert_eq!(caps.version, (1, 29, 1));
    assert!(caps.http2_directive);
    assert!(caps.http3);
    assert!(caps.brotli);
    assert!(caps.cache_purge);
}

#[test]
fn http2_directive_boundary_is_1_25_1() {
    assert!(!NginxCapabilities::parse("nginx version: nginx/1.25.0").http2_directive);
    assert!(NginxCapabilities::parse("nginx version: nginx/1.25.1").http2_directive);
    assert!(NginxCapabilities::parse("nginx version: nginx/1.26.2").http2_directive);
}

#[test]
fn unparsable_output_falls_back_to_the_conservative_version() {
    let caps = NginxCapabilities::parse("something else entirely");
    assert_eq!(caps.version, NginxCapabilities::conservative().version);
    assert!(!caps.http2_directive);
}

#[test]
fn versions_are_read_with_what_follows_them() {
    assert_eq!(parse_version("nginx version: nginx/1.24.0 (Ubuntu)"), Some((1, 24, 0)));
    assert_eq!(parse_version("no server here"), None);
}

#[test]
fn the_probe_asks_for_the_build_options() {
    match NginxCapabilities::probe() {
        Action::Run(line) => {
            assert_eq!(line.program, "nginx");
            assert_eq!(line.args, vec!["-V".to_string()]);
            assert!(line.probe);
        }
        other => panic!("unexpected action: {other:?}"),
    }
}

#[test]
fn a_failed_probe_leaves_the_conservative_capabilities() {
    let caps = NginxCapabilities::from_probe(None);
    assert!(!caps.detected);
    assert_eq!(caps.version, NginxCapabilities::conservative().version);

    let out = CommandOutput {
        stdout: String::new(),
        stderr: MAINLINE_FULL.to_string(),
        exit_code: 0,
        skipped: false,
    };
    let caps = NginxCapabilities::from_probe(Some(&out));
    assert!(caps.detected);
    assert!(caps.brotli);
    assert_eq!(caps.version_label(), "1.29.1");
}

#[test]
fn version_labels_are_read_back() {
    for version in [(0, 0, 0), (1, 24, 0), (1, 29, 1), (10, 0, 205), (u32::MAX, u32::MAX, u32::MAX)] {
        let mut caps = NginxCapabilities::conservative();
        caps.version = version;
        let line = format!("nginx version: nginx/{}", caps.version_label());
        assert_eq!(NginxCapabilities::parse(&line).version, version);
    }
}
