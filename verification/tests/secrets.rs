use wpressforge::common::error::Error;
use wpressforge::panel::secrets::{KeySource, SecretBox};

#[test]
fn seal_and_open_roundtrip() {
    let (sb, _) = SecretBox::generate();
    let plaintext = "my-secret-access-key-12345";
    let sealed = sb.seal(plaintext).unwrap();
    let opened = sb.open(&sealed).unwrap();
    assert_eq!(opened, plaintext);
}

#[test]
fn different_sealed_values_for_same_plaintext() {
    let (sb, _) = SecretBox::generate();
    let sealed1 = sb.seal("same").unwrap();
    let sealed2 = sb.seal("same").unwrap();
    // Different nonces produce different ciphertexts.
    assert_ne!(sealed1, sealed2);
}

#[test]
fn wrong_key_fails_to_open() {
    let (sb1, _) = SecretBox::generate();
    let (sb2, _) = SecretBox::generate();
    let sealed = sb1.seal("secret").unwrap();
    assert!(sb2.open(&sealed).is_err());
}

#[test]
fn a_kept_key_opens_what_was_sealed() {
    let (first, kept) = SecretBox::generate();
    let sealed = first.seal("secret").unwrap();
    let again = SecretBox::load(KeySource::File, &format!("{kept}\n")).ok().expect("key");
    assert_eq!(again.open(&sealed).unwrap(), "secret");
    let again = SecretBox::load(KeySource::Variable, &kept).ok().expect("key");
    assert_eq!(again.open(&sealed).unwrap(), "secret");
}

#[test]
fn keys_of_another_length_are_refused() {
    let short = SecretBox::load(KeySource::Variable, "c2hvcnQ=").err().expect("refused");
    assert_eq!(short.message(), Error::invalid("WP_PANEL_SECRET_KEY must be 32 bytes (base64)").message());
    let short = SecretBox::load(KeySource::File, "c2hvcnQ=").err().expect("refused");
    assert_eq!(short.message(), Error::invalid("secret.key must be 32 bytes").message());
    let wrong = SecretBox::load(KeySource::File, "!").err().expect("refused");
    assert!(wrong.message().contains("invalid secret.key: "));
}

#[test]
fn only_the_key_opens_a_sealed_text() {
    let (a, _) = SecretBox::generate();
    let (b, _) = SecretBox::generate();
    for plain in ["", "secret", "schl\u{fc}ssel"] {
        let sealed = a.seal(plain).unwrap();
        assert_eq!(a.open(&sealed).unwrap(), plain);
        assert!(matches!(b.open(&sealed), Err(Error::Invalid(_))));
        // A changed nonce or cipher text is refused too.
        let changed = if sealed.starts_with('A') { "B" } else { "A" };
        assert!(matches!(a.open(&format!("{changed}{}", &sealed[1..])), Err(Error::Invalid(_))));
    }
}

#[test]
fn sealed_texts_that_cannot_be_read_are_refused() {
    let (sb, _) = SecretBox::generate();
    let short = sb.open("c2hvcnQ=").err().expect("refused");
    assert!(short.message().contains("sealed data too short"));
    let wrong = sb.open("!").err().expect("refused");
    assert!(wrong.message().contains("invalid sealed data: "));
}
