use arclightning_backend::session::{AccessKey, SessionStore};
use arclightning_backend::token::{new_session_token, token_text, TOKEN_BYTES, TOKEN_CHARS};

#[test]
fn test_hexdump() {
    let session_token = new_session_token();

    println!("{}", session_token);
    assert_eq!(hex::decode(session_token).unwrap().len(), 64);
}

#[test]
fn token_is_128_lowercase_hex_digits() {
    let token = new_session_token();
    assert_eq!(token.len(), 128);
    assert_eq!(TOKEN_BYTES, 64);
    assert_eq!(TOKEN_CHARS, 128);
    assert!(token.chars().all(|c| matches!(c, '0'..='9' | 'a'..='f')));
}

#[test]
fn tokens_differ_from_one_another() {
    assert_ne!(new_session_token(), new_session_token());
}

#[test]
fn token_text_is_the_hex_of_the_bytes() {
    assert_eq!(token_text(&[]), "");
    assert_eq!(token_text(&[0x00]), "00");
    assert_eq!(token_text(&[0x01, 0x02, 0x03, 0x0f, 0x10]), "0102030f10");
    assert_eq!(token_text(&[0xde, 0xad, 0xbe, 0xef, 0xff]), "deadbeefff");
    assert_eq!(token_text("Hello world!".as_bytes()), "48656c6c6f20776f726c6421");
    let all: Vec<u8> = (0u8..64).collect();
    let text = token_text(&all);
    assert_eq!(text.len(), 128);
    assert_eq!(&text[..8], "00010203");
    assert_eq!(&text[120..], "3c3d3e3f");
}

#[test]
fn access_key_new_keeps_its_parts() {
    let key = AccessKey::new("abc".to_owned(), 1_540_000_000);
    assert_eq!(key.access_key, "abc");
    assert_eq!(key.access_time, 1_540_000_000);
}

#[test]
fn access_key_dummy_is_the_failure_key() {
    let key = AccessKey::dummy();
    assert_eq!(key.access_key, "failure_key");
    assert_eq!(key.access_time, 0);
}

#[test]
fn a_new_store_has_no_session() {
    let store = SessionStore::new();
    assert!(store.current().is_none());
    assert!(!store.validate(""));
    assert!(!store.validate("failure_key"));
    assert!(!store.validate("anything"));
}

#[test]
fn issue_makes_a_session_that_validates() {
    let mut store = SessionStore::new();
    let key = store.issue(1_540_000_000);
    assert_eq!(key.access_key.len(), 128);
    assert_eq!(key.access_time, 1_540_000_000);
    assert!(store.validate(&key.access_key));
    let current = store.current().unwrap();
    assert_eq!(current.access_key, key.access_key);
    assert_eq!(current.access_time, 1_540_000_000);
}

#[test]
fn validate_compares_exactly() {
    let mut store = SessionStore::new();
    store.install("abcdef".to_owned(), 7);
    assert!(store.validate("abcdef"));
    assert!(!store.validate("abcde"));
    assert!(!store.validate("abcdefa"));
    assert!(!store.validate("ABCDEF"));
    assert!(!store.validate(" abcdef"));
    assert!(!store.validate(""));
}

#[test]
fn the_last_issue_wins() {
    let mut store = SessionStore::new();
    let first = store.issue(10);
    let second = store.issue(20);
    assert_ne!(first.access_key, second.access_key);
    assert!(!store.validate(&first.access_key));
    assert!(store.validate(&second.access_key));
    assert_eq!(store.current().unwrap().access_time, 20);
}

#[test]
fn install_replaces_the_session() {
    let mut store = SessionStore::new();
    let first = store.install("first".to_owned(), 1);
    assert_eq!(first.access_key, "first");
    assert_eq!(first.access_time, 1);
    let second = store.install("second".to_owned(), 2);
    assert_eq!(second.access_key, "second");
    assert!(!store.validate("first"));
    assert!(store.validate("second"));
    // The same token again is the same session, issued later.
    store.install("second".to_owned(), 3);
    assert!(store.validate("second"));
    assert_eq!(store.current().unwrap().access_time, 3);
}

#[test]
fn current_does_not_change_the_store() {
    let mut store = SessionStore::new();
    store.install("token".to_owned(), 5);
    let seen = store.current().unwrap().access_key.clone();
    let seen_again = store.current().unwrap().access_key.clone();
    assert_eq!(seen, "token");
    assert_eq!(seen_again, "token");
    assert!(store.validate("token"));
}
