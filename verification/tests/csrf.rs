use wpressforge::clock::UtcTime;
use wpressforge::panel::csrf::{check_token, day_bucket, CsrfKey};

fn key() -> CsrfKey {
    CsrfKey([7u8; 32])
}

#[test]
fn a_freshly_issued_token_verifies() {
    let key = key();
    let token = key.token("session-abc");
    assert!(
        key.verify("session-abc", &token),
        "token issued for a session must verify for that session"
    );
}

#[test]
fn a_token_is_bound_to_its_session() {
    let key = key();
    let token = key.token("session-abc");
    assert!(!key.verify("session-xyz", &token));
}

#[test]
fn a_token_is_bound_to_the_key() {
    let token = key().token("session-abc");
    let other = CsrfKey([9u8; 32]);
    assert!(!other.verify("session-abc", &token));
}

#[test]
fn rejects_empty_tampered_and_short_tokens() {
    let key = key();
    let token = key.token("session-abc");

    assert!(!key.verify("session-abc", ""));
    assert!(!key.verify("session-abc", "not-base64!!"));
    assert!(!key.verify("session-abc", &token[..token.len() - 2]));

    let mut tampered = token.clone().into_bytes();
    tampered[0] = if tampered[0] == b'A' { b'B' } else { b'A' };
    assert!(!key.verify("session-abc", &String::from_utf8(tampered).unwrap()));
}

#[test]
fn yesterdays_token_still_verifies_but_older_does_not() {
    let key = key();
    let now = day_bucket(&UtcTime {
        secs: chrono::Utc::now().timestamp(),
        nanos: 0,
    });

    assert!(key.verify("s", &key.make_token("s", now - 1)));
    assert!(!key.verify("s", &key.make_token("s", now - 2)));
}

#[test]
fn check_token_requires_both_session_and_token() {
    let key = key();
    let token = key.token("s");

    assert!(check_token(&key, Some("s"), Some(&token)));
    assert!(!check_token(&key, None, Some(&token)));
    assert!(!check_token(&key, Some("s"), None));
}

#[test]
fn a_token_lives_for_its_day_and_the_next() {
    let key = key();
    let token = key.make_token("s", 20_000);
    assert!(key.verify_on("s", &token, 20_000));
    assert!(key.verify_on("s", &token, 20_001));
    assert!(!key.verify_on("s", &token, 20_002));
    assert!(!key.verify_on("s", &token, 19_999));
}

#[test]
fn days_begin_at_midnight_utc() {
    assert_eq!(day_bucket(&UtcTime { secs: 0, nanos: 0 }), 0);
    assert_eq!(day_bucket(&UtcTime { secs: 86_399, nanos: 999_999_999 }), 0);
    assert_eq!(day_bucket(&UtcTime { secs: 86_400, nanos: 0 }), 1);
}
