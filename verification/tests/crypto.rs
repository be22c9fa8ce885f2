use wpressforge::crypto::{base64, url_base64};
use wpressforge::panel::secrets::{KeySource, SecretBox};

#[test]
fn bytes_are_written_in_base64() {
    for (data, plain, url) in [
        (&b""[..], "", ""),
        (b"f", "Zg==", "Zg"),
        (b"fo", "Zm8=", "Zm8"),
        (b"foo", "Zm9v", "Zm9v"),
        (b"foob", "Zm9vYg==", "Zm9vYg"),
        (b"fooba", "Zm9vYmE=", "Zm9vYmE"),
        (b"foobar", "Zm9vYmFy", "Zm9vYmFy"),
        (&[251, 255, 191, 0, 16, 131], "+/+/ABCD", "-_-_ABCD"),
    ] {
        assert_eq!(base64(data), plain);
        assert_eq!(url_base64(data), url);
    }
}

#[test]
fn only_the_text_of_the_bytes_is_read() {
    let key = base64(&[0u8; 32]);
    assert_eq!(key, format!("{}=", "A".repeat(43)));
    let read = |shown: &str| SecretBox::load(KeySource::Variable, shown).is_ok();
    assert!(read(&key));
    // Without padding, with bits past the end, in the other alphabet, with white space.
    assert!(!read(&"A".repeat(43)));
    assert!(!read(&format!("{}B=", "A".repeat(42))));
    assert!(!read(&format!("{}-{}=", "A".repeat(21), "A".repeat(21))));
    assert!(!read(&format!("{key}\n")));
    assert!(read(&format!("{}+{}=", "A".repeat(21), "A".repeat(21))));
}
