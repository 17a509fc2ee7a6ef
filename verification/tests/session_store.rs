//! Session lifecycle over the key-value store: creation, sliding
//! expiration, idempotent deletion, logout-then-reuse.

use mixini::session::{
    create_session, create_verify_key, delete_session, resolve_session, take_verify_key,
    SESSION_DURATION_SECS,
};
use mixini::store::KvStore;
use mixini::role::UserRole;
use mixini::user::UserInfo;

fn some_user() -> UserInfo {
    UserInfo { id: 7, name: String::from("alice"), role: UserRole::Member, verified: true }
}

#[test]
fn create_then_resolve_returns_the_snapshot() {
    let mut store = KvStore::new();
    let token = create_session(&mut store, &some_user(), 1000);
    let got = resolve_session(&mut store, &token, 1000).unwrap();
    assert_eq!(got.id, 7);
    assert_eq!(got.name, "alice");
    assert!(matches!(got.role, UserRole::Member));
    assert!(got.verified);
}

#[test]
fn token_is_32_alphanumeric_chars() {
    let mut store = KvStore::new();
    let token = create_session(&mut store, &some_user(), 0);
    assert_eq!(token.len(), 32);
    assert!(token.chars().all(|c| c.is_ascii_alphanumeric()));
}

#[test]
fn unknown_token_does_not_resolve() {
    let mut store = KvStore::new();
    let missing = String::from("AAAAAAAAAAAAAAAAAAAAAAAAAAAAAAAA");
    assert!(resolve_session(&mut store, &missing, 0).is_none());
}

#[test]
fn session_expires_without_access() {
    let mut store = KvStore::new();
    let token = create_session(&mut store, &some_user(), 0);
    // still resolvable at the very end of the window
    assert!(resolve_session(&mut store, &token, SESSION_DURATION_SECS).is_some());
    // a fresh, untouched session is gone one second past its window
    let mut store2 = KvStore::new();
    let token2 = create_session(&mut store2, &some_user(), 0);
    assert!(resolve_session(&mut store2, &token2, SESSION_DURATION_SECS + 1).is_none());
}

#[test]
fn access_slides_the_expiration_window() {
    let mut store = KvStore::new();
    let token = create_session(&mut store, &some_user(), 0);
    // second access at 0.6 x TTL renews the window in full
    let mid = SESSION_DURATION_SECS * 6 / 10;
    assert!(resolve_session(&mut store, &token, mid).is_some());
    // so the session is still resolvable at 1.1 x TTL from the first access
    let late = SESSION_DURATION_SECS * 11 / 10;
    assert!(resolve_session(&mut store, &token, late).is_some());
    // while without the renewal it would have expired by then
    let mut unrenewed = KvStore::new();
    let token2 = create_session(&mut unrenewed, &some_user(), 0);
    assert!(resolve_session(&mut unrenewed, &token2, late).is_none());
}

#[test]
fn delete_is_idempotent() {
    let mut store = KvStore::new();
    let token = create_session(&mut store, &some_user(), 0);
    delete_session(&mut store, &token);
    // the second deletion is not an error and changes nothing
    delete_session(&mut store, &token);
    assert!(resolve_session(&mut store, &token, 0).is_none());
}

#[test]
fn logout_then_reuse_returns_none() {
    let mut store = KvStore::new();
    let token = create_session(&mut store, &some_user(), 0);
    delete_session(&mut store, &token);
    assert!(resolve_session(&mut store, &token, 0).is_none());
}

#[test]
fn expired_session_is_dropped_not_revived() {
    let mut store = KvStore::new();
    let token = create_session(&mut store, &some_user(), 0);
    assert!(resolve_session(&mut store, &token, SESSION_DURATION_SECS + 5).is_none());
    // the failed resolution did not renew anything
    assert!(resolve_session(&mut store, &token, 10).is_none());
}

#[test]
fn verify_key_is_consumed_on_use() {
    let mut store = KvStore::new();
    let key = create_verify_key(&mut store, 42, 100);
    assert_eq!(key.len(), 32);
    assert_eq!(take_verify_key(&mut store, &key, 200), Some(42));
    // a second presentation finds nothing
    assert_eq!(take_verify_key(&mut store, &key, 200), None);
}

#[test]
fn verify_key_expires() {
    let mut store = KvStore::new();
    let key = create_verify_key(&mut store, 42, 0);
    assert_eq!(take_verify_key(&mut store, &key, mixini::session::VERIFY_EXPIRY_SECONDS + 1), None);
}

#[test]
fn sessions_under_different_tokens_coexist() {
    let mut store = KvStore::new();
    let a = create_session(&mut store, &some_user(), 0);
    let b = create_session(
        &mut store,
        &UserInfo { id: 8, name: String::from("bob"), role: UserRole::Admin, verified: false },
        0,
    );
    assert_ne!(a, b);
    assert_eq!(resolve_session(&mut store, &a, 1).unwrap().id, 7);
    assert_eq!(resolve_session(&mut store, &b, 1).unwrap().id, 8);
    delete_session(&mut store, &a);
    assert!(resolve_session(&mut store, &a, 1).is_none());
    assert_eq!(resolve_session(&mut store, &b, 1).unwrap().id, 8);
}
