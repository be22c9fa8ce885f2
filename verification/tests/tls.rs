use wpressforge::agent::tls::{
    bundle, certificate_request, choose_source, deliver, fingerprint_from_pem, first_fingerprint, generate_self_signed,
    write_colons, CertificateSource, SignFault, TlsError,
};
use wpressforge::panel::agent::check_pin;

#[test]
fn digests_are_shown_with_colons() {
    assert_eq!(write_colons(&[0, 171, 16]), "00:AB:10");
    assert_eq!(write_colons(&[]), "");
}

#[test]
fn a_made_certificate_has_a_fingerprint() {
    let made = generate_self_signed("node", "127.0.0.1").ok().expect("certificate");
    assert_eq!(
        fingerprint_from_pem(&made.cert_pem).ok().expect("fingerprint"),
        made.fingerprint
    );
    let again = bundle(made.cert_pem.clone(), made.key_pem.clone()).ok().expect("bundle");
    assert_eq!(again.fingerprint, made.fingerprint);
    let other = generate_self_signed("node", "127.0.0.1").ok().expect("certificate");
    assert_ne!(made.fingerprint, other.fingerprint);
    assert!(check_pin(&made.fingerprint, b"not the certificate").is_some());
}

#[test]
fn files_without_a_certificate_are_refused() {
    assert!(matches!(fingerprint_from_pem(b""), Err(TlsError::Empty)));
    assert!(matches!(first_fingerprint(Err("bad".into())), Err(TlsError::Parse(_))));
    assert!(matches!(first_fingerprint(Ok(vec![])), Err(TlsError::Empty)));
    let shown = first_fingerprint(Ok(vec![vec![], vec![1]])).ok().expect("fingerprint");
    assert!(shown.starts_with("sha256:E3:B0:"));
}

#[test]
fn configured_files_come_first() {
    let given = choose_source(&Some("/c".into()), &Some("/k".into()), "/s", false);
    assert!(matches!(given, CertificateSource::Read { cert, key } if cert == "/c" && key == "/k"));
    let kept = choose_source(&None, &None, "/s", true);
    assert!(matches!(kept, CertificateSource::Read { .. }));
    let made = choose_source(&None, &None, "/s", false);
    assert!(matches!(made, CertificateSource::Make { .. }));
}

#[test]
fn names_that_are_no_ascii_are_refused() {
    assert!(matches!(generate_self_signed("nöde", "127.0.0.1"), Err(TlsError::Generate(_))));
}

#[test]
fn a_certificate_is_asked_for_the_host_and_its_address() {
    let request = certificate_request("node", "203.0.113.9");
    assert_eq!(request.names, vec!["node", "203.0.113.9"]);
    assert_eq!(request.common_name, "node");
    for (fault, shown) in [
        (SignFault::Request("no".into()), "creating certificate params: no"),
        (SignFault::Key("no".into()), "generating key pair: no"),
        (SignFault::Sign("no".into()), "self-signing certificate: no"),
    ] {
        match deliver(Err(fault)) {
            Err(TlsError::Generate(reason)) => assert_eq!(reason, shown),
            _ => panic!("unexpected result"),
        }
    }
    match generate_self_signed("n\u{f6}de", "127.0.0.1") {
        Err(TlsError::Generate(reason)) => {
            assert!(reason.starts_with("creating certificate params: "), "{reason}")
        }
        _ => panic!("unexpected result"),
    }
}
