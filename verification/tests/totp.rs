use std::time::{SystemTime, UNIX_EPOCH};
use wpressforge::crypto::{key_of, random_key, whole_key};
use wpressforge::panel::totp::{
    base32_decode, base32_encode, generate_code, generate_secret, otpauth_uri, verify, verify_at,
    whole_secret,
};

#[test]
fn base32_roundtrip() {
    let raw = b"hello world 12345!";
    let encoded = base32_encode(raw);
    let decoded = base32_decode(&encoded).expect("valid base32");
    assert_eq!(raw.as_slice(), decoded.as_slice());
}

#[test]
fn totp_rfc6238_vector() {
    // RFC 6238 test vector for SHA1, secret = "12345678901234567890" (ASCII)
    let secret = b"12345678901234567890";
    // Time = 59s -> step = 1 -> code 287082
    assert_eq!(generate_code(secret, 59 / 30), 287082);
    // Time = 1111111109s -> step = 37037036 -> code 081804
    assert_eq!(generate_code(secret, 1111111109 / 30), 81804);
}

#[test]
fn totp_verify_current_step() {
    let secret = generate_secret();
    let now = SystemTime::now()
        .duration_since(UNIX_EPOCH)
        .unwrap()
        .as_secs();
    let current_code = format!("{:06}", generate_code(&secret, now / 30));
    assert!(verify(&secret, &current_code));
    assert!(!verify(&secret, "0000000"));
    assert!(!verify(&secret, "999999"));
}

#[test]
fn codes_of_the_neighbouring_steps_are_accepted() {
    let secret = b"12345678901234567890";
    let now: u64 = 1_111_111_109;
    for step in [now / 30 - 1, now / 30, now / 30 + 1] {
        assert!(verify_at(secret, &format!("{:06}", generate_code(secret, step)), now));
    }
    assert!(!verify_at(secret, &format!("{:06}", generate_code(secret, now / 30 + 2)), now));
    // Leading zeros are not asked for.
    assert!(verify_at(secret, "81804", now));
    assert!(!verify_at(secret, "abcdef", now));
}

#[test]
fn base32_has_the_alphabet_of_rfc_4648() {
    assert_eq!(base32_encode(b"f"), "MY");
    assert_eq!(base32_encode(b"foobar"), "MZXW6YTBOI");
    assert_eq!(base32_decode("mzxw6ytboi"), Some(b"foobar".to_vec()));
    assert_eq!(base32_decode("1"), None);
}

#[test]
fn authenticator_apps_get_a_link() {
    let uri = otpauth_uri("MZXW6YTBOI", "a b@example.com");
    assert!(uri.starts_with("otpauth://totp/"), "{uri}");
    assert!(uri.contains("secret=MZXW6YTBOI"), "{uri}");
    assert!(uri.contains("a%20b%40example.com"), "{uri}");
    let uri = otpauth_uri("MZXW6YTBOI", "A-z_0.9~/\u{e9}");
    assert!(uri.contains("A-z_0.9~%2F%C3%A9"), "{uri}");
}

#[test]
fn drawn_bytes_are_taken_over() {
    assert_eq!(&whole_secret(b"12345678901234567890"), b"12345678901234567890");
    let bytes: Vec<u8> = (1..=32).collect();
    assert_eq!(whole_key(&bytes).to_vec(), bytes);
    assert_eq!(key_of(&bytes).map(|key| key.to_vec()), Some(bytes));
    assert!(key_of(b"short").is_none());
    assert_ne!(random_key(), random_key());
    assert_ne!(generate_secret(), generate_secret());
}
