use wpressforge::panel::credentials::{CredentialStash, STASH_TTL};

#[test]
fn round_trips_a_value_for_its_owner() {
    let mut stash = CredentialStash::new();
    let handle = stash.put(7, "secret");

    assert_eq!(stash.peek(7, &handle).as_deref(), Some("secret"));
    assert_eq!(stash.take(7, &handle).as_deref(), Some("secret"));
    // Consumed.
    assert_eq!(stash.take(7, &handle), None);
}

#[test]
fn another_user_cannot_read_the_handle() {
    let mut stash = CredentialStash::new();
    let handle = stash.put(7, "secret");

    assert_eq!(stash.peek(8, &handle), None);
    assert_eq!(stash.take(8, &handle), None);
    // Still there for the owner.
    assert_eq!(stash.peek(7, &handle).as_deref(), Some("secret"));
}

#[test]
fn unknown_handles_are_rejected() {
    let mut stash = CredentialStash::new();
    assert_eq!(stash.peek(7, "nope"), None);
    assert!(stash.is_empty());
}

#[test]
fn handles_are_unguessable_and_unique() {
    let mut stash = CredentialStash::new();
    let first = stash.put(1, "a");
    let second = stash.put(1, "b");

    assert_ne!(first, second);
    assert!(first.len() >= 32, "handle should carry real entropy");
    assert_eq!(stash.len(), 2);
}

#[test]
fn values_are_forgotten_after_a_quarter_of_an_hour() {
    let mut stash = CredentialStash::new();
    stash.put_at(7, "secret".to_string(), "h".to_string(), 1_000);

    assert_eq!(stash.peek_at(7, "h", 1_000 + STASH_TTL - 1).as_deref(), Some("secret"));
    assert_eq!(stash.peek_at(7, "h", 1_000 + STASH_TTL), None);
    assert_eq!(stash.len_at(1_000 + STASH_TTL), 0);
}

#[test]
fn a_history_leaves_what_was_not_taken_in_time() {
    let mut stash = CredentialStash::new();
    stash.put_at(1, "a".into(), "ha".into(), 0);
    stash.put_at(2, "b".into(), "hb".into(), 5);
    stash.put_at(1, "c".into(), "hc".into(), 10);
    assert_eq!(stash.take_at(1, "hb", 11), None);
    assert_eq!(stash.peek_at(2, "hb", 12).as_deref(), Some("b"));
    assert_eq!(stash.take_at(1, "hc", 13).as_deref(), Some("c"));
    assert_eq!(stash.len_at(14), 2);
    assert_eq!(stash.len_at(STASH_TTL), 1);
    assert_eq!(stash.peek_at(1, "ha", STASH_TTL), None);
    assert_eq!(stash.take_at(2, "hb", STASH_TTL + 4).as_deref(), Some("b"));
    assert_eq!(stash.len_at(STASH_TTL + 4), 0);
}
