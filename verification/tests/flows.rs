//! End-to-end request flows: login with transparent rehash, authenticate,
//! logout, registration, email verification, and the cookie and mail
//! strings handed to the transport layer.

use mixini::actions::UpdateUser;
use mixini::credential::{hash_password, verify_password, Credential, PWD_SCHEME_VERSION};
use mixini::error::MixiniError;
use mixini::fields::FieldName;
use mixini::flow::{
    authenticate, login, logout, logout_cookie, mark_verified, read_user, register_then_login,
    register_user, request_verification, session_cookie, try_delete, try_update,
    verification_mail_body, verification_mail_subject, DeleteOutcome, LoginOutcome,
    RegisterOutcome, UpdateOutcome, VerifyRequestOutcome,
};
use mixini::policy::{ActionMatch, FieldMatch, Rule, RuleSet, SubjectMatch};
use mixini::role::UserRole;
use mixini::session::take_verify_key;
use mixini::store::KvStore;
use mixini::token::RKeys;
use mixini::user::{Subject, UserRecord};

fn account(id: u64, password: &str, version: u32) -> UserRecord {
    UserRecord {
        id,
        created_at: 1,
        updated_at: 1,
        name: String::from("alice"),
        email: String::from("alice@example.com"),
        role: UserRole::Member,
        password: hash_password(password, version).unwrap(),
        verified: false,
    }
}

#[test]
fn login_success_mints_a_resolvable_session() {
    let mut store = KvStore::new();
    let user = account(7, "sturdyhorse3", PWD_SCHEME_VERSION);
    match login(Some(&user), "sturdyhorse3", &mut store, 50).unwrap() {
        LoginOutcome::Success { token, rehashed } => {
            assert!(rehashed.is_none());
            let subject = authenticate(&mut store, Some(&token), 60);
            match subject {
                Subject::KnownUser(info) => {
                    assert_eq!(info.id, 7);
                    assert_eq!(info.name, "alice");
                }
                Subject::Guest => panic!("session did not resolve"),
            }
        }
        LoginOutcome::Denied => panic!("valid credentials were denied"),
    }
}

#[test]
fn login_wrong_password_is_denied() {
    let mut store = KvStore::new();
    let user = account(7, "sturdyhorse3", PWD_SCHEME_VERSION);
    assert!(matches!(
        login(Some(&user), "wronghorse44", &mut store, 50).unwrap(),
        LoginOutcome::Denied
    ));
}

#[test]
fn login_unknown_identity_is_denied_identically() {
    let mut store = KvStore::new();
    assert!(matches!(
        login(None, "sturdyhorse3", &mut store, 50).unwrap(),
        LoginOutcome::Denied
    ));
}

#[test]
fn login_corrupt_credential_is_an_error_not_a_denial() {
    let mut store = KvStore::new();
    let mut user = account(7, "sturdyhorse3", PWD_SCHEME_VERSION);
    // an unparsable hash: the checker fails cleanly before any hashing
    user.password = Credential { hash: String::from("garbage"), scheme_version: 1 };
    match login(Some(&user), "sturdyhorse3", &mut store, 50) {
        Err(MixiniError::CorruptCredential) => {}
        other => panic!("expected corruption error, got {:?}", other),
    }
}

#[test]
fn login_rehashes_stale_credentials_transparently() {
    let mut store = KvStore::new();
    let user = account(7, "sturdyhorse3", 0);
    match login(Some(&user), "sturdyhorse3", &mut store, 50).unwrap() {
        LoginOutcome::Success { rehashed, .. } => {
            let fresh = rehashed.expect("stale credential was not rehashed");
            assert_eq!(fresh.scheme_version, PWD_SCHEME_VERSION);
            assert_eq!(verify_password("sturdyhorse3", &fresh).unwrap(), true);
        }
        LoginOutcome::Denied => panic!("valid credentials were denied"),
    }
}

#[test]
fn no_rehash_on_failed_verification() {
    let mut store = KvStore::new();
    let user = account(7, "sturdyhorse3", 0);
    match login(Some(&user), "wronghorse44", &mut store, 50).unwrap() {
        LoginOutcome::Denied => {}
        LoginOutcome::Success { .. } => panic!("wrong password produced a session"),
    }
}

#[test]
fn logout_then_reuse_yields_guest() {
    let mut store = KvStore::new();
    let user = account(7, "sturdyhorse3", PWD_SCHEME_VERSION);
    let token = match login(Some(&user), "sturdyhorse3", &mut store, 0).unwrap() {
        LoginOutcome::Success { token, .. } => token,
        LoginOutcome::Denied => panic!("valid credentials were denied"),
    };
    logout(&mut store, Some(&token));
    assert!(matches!(authenticate(&mut store, Some(&token), 1), Subject::Guest));
    // logging out again, or with no token at all, is fine
    logout(&mut store, Some(&token));
    logout(&mut store, None);
}

#[test]
fn authenticate_without_a_token_is_guest() {
    let mut store = KvStore::new();
    assert!(matches!(authenticate(&mut store, None, 0), Subject::Guest));
}

#[test]
fn read_user_redacts_through_the_policy() {
    let rules = RuleSet::new(vec![
        Rule {
            subject: SubjectMatch::SelfUser,
            action: ActionMatch::ReadField(FieldMatch::Exactly(FieldName::Email)),
        },
        Rule {
            subject: SubjectMatch::Anyone,
            action: ActionMatch::ReadField(FieldMatch::Exactly(FieldName::Name)),
        },
    ]);
    let target = account(7, "sturdyhorse3", PWD_SCHEME_VERSION);
    let owner = Subject::KnownUser(target.snapshot());
    let own_view = read_user(&rules, &owner, &target);
    assert_eq!(own_view.email.as_deref(), Some("alice@example.com"));
    assert_eq!(own_view.name.as_deref(), Some("alice"));

    let guest_view = read_user(&rules, &Subject::Guest, &target);
    assert_eq!(guest_view.email, None);
    assert_eq!(guest_view.name.as_deref(), Some("alice"));
}

#[test]
fn update_applies_only_when_permitted() {
    let rules = RuleSet::new(vec![
        Rule {
            subject: SubjectMatch::AnyKnown,
            action: ActionMatch::UpdateField(FieldMatch::Exactly(FieldName::Name)),
        },
    ]);
    let target = account(7, "sturdyhorse3", PWD_SCHEME_VERSION);
    let editor = Subject::KnownUser(account(8, "sturdyhorse3", PWD_SCHEME_VERSION).snapshot());

    let rename = UpdateUser { name: Some(String::from("bob")), email: None, role: None };
    match try_update(&rules, &editor, &rename, &target) {
        UpdateOutcome::Updated(rec) => {
            assert_eq!(rec.name, "bob");
            assert_eq!(rec.email, "alice@example.com");
            assert!(matches!(rec.role, UserRole::Member));
        }
        other => panic!("permitted rename was refused: {:?}", other),
    }

    let escalate = UpdateUser { name: None, email: None, role: Some(UserRole::Admin) };
    assert!(matches!(
        try_update(&rules, &editor, &escalate, &target),
        UpdateOutcome::Forbidden
    ));

    assert!(matches!(
        try_update(&rules, &Subject::Guest, &rename, &target),
        UpdateOutcome::Unauthenticated
    ));
}

#[test]
fn empty_changeset_changes_nothing() {
    // an update that requests no change carries nothing to deny
    let rules = RuleSet::empty();
    let target = account(7, "sturdyhorse3", PWD_SCHEME_VERSION);
    let editor = Subject::KnownUser(target.snapshot());
    let noop = UpdateUser { name: None, email: None, role: None };
    match try_update(&rules, &editor, &noop, &target) {
        UpdateOutcome::Updated(rec) => {
            assert_eq!(rec.name, target.name);
            assert_eq!(rec.email, target.email);
            assert_eq!(rec.id, target.id);
        }
        other => panic!("no-op update was refused: {:?}", other),
    }
}

#[test]
fn delete_removes_the_callers_session() {
    let rules = RuleSet::new(vec![
        Rule { subject: SubjectMatch::SelfUser, action: ActionMatch::Delete },
    ]);
    let mut store = KvStore::new();
    let user = account(7, "sturdyhorse3", PWD_SCHEME_VERSION);
    let token = match login(Some(&user), "sturdyhorse3", &mut store, 0).unwrap() {
        LoginOutcome::Success { token, .. } => token,
        LoginOutcome::Denied => panic!("valid credentials were denied"),
    };
    let subject = Subject::KnownUser(user.snapshot());
    assert!(matches!(
        try_delete(&rules, &subject, &user, &mut store, &token),
        DeleteOutcome::Deleted
    ));
    assert!(matches!(authenticate(&mut store, Some(&token), 1), Subject::Guest));

    // a subject the policy does not cover is refused
    let other = account(8, "sturdyhorse3", PWD_SCHEME_VERSION);
    let stranger = Subject::KnownUser(other.snapshot());
    assert!(matches!(
        try_delete(&rules, &stranger, &user, &mut store, &token),
        DeleteOutcome::Forbidden
    ));
    assert!(matches!(
        try_delete(&rules, &Subject::Guest, &user, &mut store, &token),
        DeleteOutcome::Unauthenticated
    ));
}

#[test]
fn register_hashes_and_fills_the_record() {
    match register_user(
        String::from("carol"),
        String::from("carol@example.com"),
        "brandnewpass5",
        21,
        900,
        false,
    )
    .unwrap()
    {
        RegisterOutcome::Registered(rec) => {
            assert_eq!(rec.id, 21);
            assert_eq!(rec.name, "carol");
            assert_eq!(rec.email, "carol@example.com");
            assert!(matches!(rec.role, UserRole::Member));
            assert!(!rec.verified);
            assert_eq!(rec.created_at, 900);
            assert_eq!(rec.password.scheme_version, PWD_SCHEME_VERSION);
            assert_eq!(verify_password("brandnewpass5", &rec.password).unwrap(), true);
        }
        RegisterOutcome::Conflict => panic!("unexpected conflict"),
    }
}

#[test]
fn fresh_signup_can_log_in_at_once() {
    let mut store = KvStore::new();
    let (rec, token) = register_then_login(
        String::from("dave"),
        String::from("dave@example.com"),
        "signuppass7",
        31,
        &mut store,
        400,
        false,
    )
    .unwrap()
    .expect("fresh signup failed to log in");
    assert_eq!(rec.id, 31);
    match authenticate(&mut store, Some(&token), 401) {
        Subject::KnownUser(info) => assert_eq!(info.id, 31),
        Subject::Guest => panic!("signup session did not resolve"),
    }
    // a conflicting signup makes neither an account nor a session
    let none = register_then_login(
        String::from("dave"),
        String::from("dave@example.com"),
        "signuppass7",
        32,
        &mut store,
        400,
        true,
    )
    .unwrap();
    assert!(none.is_none());
}

#[test]
fn register_conflict_makes_nothing() {
    assert!(matches!(
        register_user(
            String::from("carol"),
            String::from("carol@example.com"),
            "brandnewpass5",
            21,
            900,
            true,
        )
        .unwrap(),
        RegisterOutcome::Conflict
    ));
}

#[test]
fn email_verification_round_trip() {
    let mut store = KvStore::new();
    let user = account(7, "sturdyhorse3", PWD_SCHEME_VERSION);
    let subject = Subject::KnownUser(user.snapshot());
    let key = match request_verification(&subject, &mut store, 100) {
        VerifyRequestOutcome::Requested(key) => key,
        other => panic!("verification request refused: {:?}", other),
    };
    assert_eq!(take_verify_key(&mut store, &key, 200), Some(7));
    let verified = mark_verified(&user);
    assert!(verified.verified);
    assert_eq!(verified.name, user.name);

    // an already verified user gets a conflict
    let done = Subject::KnownUser(verified.snapshot());
    assert!(matches!(
        request_verification(&done, &mut store, 300),
        VerifyRequestOutcome::AlreadyVerified
    ));
    // and a guest cannot ask at all
    assert!(matches!(
        request_verification(&Subject::Guest, &mut store, 300),
        VerifyRequestOutcome::Unauthenticated
    ));
}

#[test]
fn mail_strings_carry_the_key_and_expiry() {
    assert_eq!(
        verification_mail_body("k3y"),
        "Your Mixini verification key is k3y. Note that it will expire in 24 hours."
    );
    assert_eq!(verification_mail_subject(), "Your Mixini email verification");
}

#[test]
fn cookie_strings_match_the_carrier_contract() {
    assert_eq!(
        session_cookie("abc123", "example.com"),
        "msessid=abc123; Secure; HttpOnly; Domain=example.com; Max-Age=1209600"
    );
    assert_eq!(
        logout_cookie("example.com"),
        "msessid=expired; Secure; HttpOnly; Domain=example.com; Max-Age=-1"
    );
}

#[test]
fn generated_keys_carry_their_prefix() {
    let keys = RKeys::generate("verify:");
    assert_eq!(keys.base_key.len(), 32);
    assert!(keys.base_key.chars().all(|c| c.is_ascii_alphanumeric()));
    assert_eq!(keys.prefixed_key, format!("verify:{}", keys.base_key));
    let other = RKeys::generate("verify:");
    assert_ne!(keys.base_key, other.base_key);
}
