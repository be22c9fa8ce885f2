use wpressforge::clock::UtcTime;
use wpressforge::crypto::HashFault;
use wpressforge::panel::auth::{
    attempt_cutoff, clear_cookie, cookie_value, guard_api, guard_form, guard_session,
    hash_password, is_locked, random_password, random_token, session_cookie, session_expiry,
    signs_in, tell, throttle_window, token_verdict, verify_password, ApiGuard, Guard, Lookup,
    COOKIE_NAME,
};
use wpressforge::panel::csrf::CsrfKey;
use wpressforge::panel::db::tokens::{hash_token, new_token};

fn key() -> CsrfKey {
    CsrfKey([7u8; 32])
}

#[test]
fn passwords_are_verified_against_their_hash() {
    let hash = hash_password("correct horse").expect("hash");
    assert!(hash.starts_with("$argon2"));
    assert!(verify_password("correct horse", &hash));
    assert!(!verify_password("wrong", &hash));
    assert!(!verify_password("correct horse", "no hash"));
    assert_ne!(hash, hash_password("correct horse").expect("hash"));
    assert!(signs_in("correct horse", &Some(hash)));
    assert!(!signs_in("correct horse", &None));
}

#[test]
fn tokens_are_random() {
    assert_eq!(random_token().len(), 43);
    assert_ne!(random_token(), random_token());
    assert_eq!(random_password().len(), 20);
}

#[test]
fn api_tokens_are_stored_as_digests() {
    assert_eq!(
        hash_token(""),
        "e3b0c44298fc1c149afbf4c8996fb92427ae41e4649b934ca495991b7852b855"
    );
    let (plain, hash) = new_token();
    assert_eq!(hash, hash_token(&plain));
    assert_ne!(plain, hash);
}

#[test]
fn session_cookies_are_kept_from_scripts() {
    let cookie = session_cookie("tok", true);
    assert!(cookie.starts_with(&format!("{COOKIE_NAME}=tok;")), "{cookie}");
    assert!(cookie.contains("HttpOnly"));
    assert!(cookie.contains("Secure"));
    assert!(!session_cookie("tok", false).contains("Secure"));
    assert!(clear_cookie(false).contains("Max-Age=0"));
    assert_eq!(
        cookie_value("a=1; wp_panel_session=tok; b=2", COOKIE_NAME).as_deref(),
        Some("tok")
    );
    assert_eq!(cookie_value("a=1", COOKIE_NAME), None);
}

#[test]
fn session_cookies_are_read_back() {
    for secure in [true, false] {
        let token = random_token();
        let cookie = session_cookie(&token, secure);
        assert_eq!(cookie_value(&cookie, COOKIE_NAME), Some(token.clone()));
        let sent = format!("{COOKIE_NAME}={token}");
        assert_eq!(cookie_value(&sent, COOKIE_NAME), Some(token));
        assert_eq!(cookie_value(&clear_cookie(secure), COOKIE_NAME).as_deref(), Some(""));
    }
}

#[test]
fn a_failed_hash_says_which_step_failed() {
    assert_eq!(tell(Ok("hash".into())), Ok("hash".to_string()));
    assert_eq!(tell(Err(HashFault::Salt("no".into()))), Err("encoding salt: no".to_string()));
    assert_eq!(tell(Err(HashFault::Hash("no".into()))), Err("hashing password: no".to_string()));
}

#[test]
fn state_changes_need_a_token() {
    let key = key();
    let token = key.token("s");
    let guard = |known, htmx, safe, header| guard_session(&key, known, htmx, safe, Some("s"), header);
    assert!(matches!(guard(false, false, true, None), Guard::Redirect));
    assert!(matches!(guard(false, true, true, None), Guard::ClientRedirect));
    assert!(matches!(guard(true, false, true, None), Guard::Pass));
    assert!(matches!(guard(true, false, false, Some(token.as_str())), Guard::Pass));
    assert!(matches!(guard(true, false, false, Some("wrong")), Guard::Reject));
    assert!(matches!(guard(true, false, false, None), Guard::ReadForm));
}

#[test]
fn forms_carry_the_token_in_a_field() {
    let key = key();
    let token = key.token("s");
    let form = format!("name=a+b&csrf_token={token}&x=%26");
    assert!(guard_form(&key, Some("s"), form.as_bytes()));
    assert!(!guard_form(&key, Some("t"), form.as_bytes()));
    assert!(!guard_form(&key, None, form.as_bytes()));
    assert!(!guard_form(&key, Some("s"), b"name=a"));
}

#[test]
fn the_api_takes_a_session_or_a_token() {
    assert!(matches!(guard_api(true, &None), ApiGuard::Session));
    match guard_api(false, &Some("Bearer abc".into())) {
        ApiGuard::Token(t) => assert_eq!(t, "abc"),
        _ => panic!("a token is looked up"),
    }
    assert!(matches!(guard_api(false, &None), ApiGuard::Deny { status: 401, .. }));
    assert!(matches!(
        guard_api(false, &Some("Basic abc".into())),
        ApiGuard::Deny { status: 401, .. }
    ));
    assert_eq!(token_verdict(Lookup::Found), None);
    assert_eq!(token_verdict(Lookup::Unknown).expect("denied").0, 401);
    assert_eq!(token_verdict(Lookup::Failed).expect("denied").0, 500);
}

#[test]
fn too_many_failures_lock_an_account() {
    assert!(!is_locked(5));
    assert!(is_locked(6));
    let now = UtcTime { secs: 1_767_268_800, nanos: 0 };
    assert_eq!(throttle_window(&now).secs, now.secs - 15 * 60);
    assert_eq!(attempt_cutoff(&now).secs, now.secs - 24 * 3600);
    assert_eq!(session_expiry(&now).secs, now.secs + 14 * 86_400);
}

#[test]
fn tokens_are_cookie_values() {
    let token = random_token();
    assert!(token.chars().all(|c| c.is_ascii_alphanumeric() || c == '-' || c == '_'));
    assert_eq!(token.trim(), token);
}
