//! The session lifecycle orchestrator: the login, authenticate, logout,
//! registration, profile-access and email-verification flows that wire
//! the codec, the store and the policy engine together.
//!
//! Each flow takes the values its backing lookups produced (a stored user
//! record, a carried token) and returns plain outcomes; reading and
//! writing the relational store, and delivering email, happen in the
//! caller layer around these functions.

use crate::actions::{Action, UpdateUser};
use crate::credential::{
    hash_password, is_stale, needs_upgrade, phc_checkable, phc_matches, phc_well_formed,
    valid_password, verify_password, Credential, PWD_SCHEME_VERSION,
};
use crate::error::MixiniError;
use crate::fields::FieldSet;
use crate::policy::{
    authorized_fields_spec, rule_set_allows, update_permitted_spec, FieldAccess, RuleSet,
};
use crate::project::{project, project_spec};
use crate::session::{
    create_session, create_verify_key, delete_session, resolve_session, session_key, session_live,
    session_subject, SESSION_COOKIE_NAME, SESSION_DURATION_SECS, VERIFY_EXPIRY_SECONDS,
};
use crate::store::{live, KvEntry, KvStore, StoreValue};
use crate::token::is_token;
use crate::user::{Subject, UserRecord, UserView};
use vstd::prelude::*;

verus! {

/// What a login attempt produced.
#[derive(Debug)]
pub enum LoginOutcome {
    /// The credentials checked out and a session was minted. `token` is
    /// the unprefixed session token handed to the caller; `rehashed` is
    /// the freshly re-hashed credential to persist when the stored one
    /// was produced by a stale scheme version, and `None` otherwise.
    Success { token: String, rehashed: Option<Credential> },
    /// Unknown identity or wrong password. The two are deliberately
    /// indistinguishable: no session, no detail.
    Denied,
}

/// Log a user in.
///
/// `stored` is the record the identity lookup found, if any. On a
/// successful verification the stored credential is re-hashed at the
/// current scheme version when stale — and only after success, never for
/// a failed check — and a session holding the user's snapshot is created
/// with the full session TTL.
///
/// The stored hash must be checkable — true of every hash this codec
/// produces, at any version (see [`phc_checkable`]): the backing library
/// aborts on a foreign, parsable-but-inconsistent hash instead of
/// returning an error.
pub fn login(
    stored: Option<&UserRecord>,
    password: &str,
    store: &mut KvStore,
    now: u64,
) -> (r: Result<LoginOutcome, MixiniError>)
    requires
        old(store).wf(),
        valid_password(password@),
        stored matches Some(u) ==> phc_checkable(u.password.hash@),
        now + SESSION_DURATION_SECS <= u64::MAX,
    ensures
        final(store).wf(),
        stored is None ==> r == Ok::<LoginOutcome, MixiniError>(LoginOutcome::Denied)
            && final(store).as_map() == old(store).as_map(),
        stored matches Some(u) ==> {
            &&& !phc_well_formed(u.password.hash@) ==> r == Err::<
                LoginOutcome,
                MixiniError,
            >(MixiniError::CorruptCredential) && final(store).as_map() == old(store).as_map()
            &&& phc_well_formed(u.password.hash@) && !phc_matches(u.password.hash@, password@)
                ==> r == Ok::<LoginOutcome, MixiniError>(LoginOutcome::Denied)
                && final(store).as_map() == old(store).as_map()
            &&& phc_well_formed(u.password.hash@) && phc_matches(u.password.hash@, password@)
                ==> (r matches Ok(LoginOutcome::Success { token, rehashed }) && {
                &&& is_token(token@)
                &&& final(store).as_map() == old(store).as_map().insert(
                    session_key(token@),
                    (KvEntry {
                        key: final(store).as_map()[session_key(token@)].key,
                        value: StoreValue::Session(u.snapshot_spec()),
                        expires_at: (now + SESSION_DURATION_SECS) as u64,
                    }),
                )
                &&& session_live(final(store).as_map(), token@, now)
                &&& session_subject(final(store).as_map(), token@) == u.snapshot_spec()
                &&& is_stale(u.password, PWD_SCHEME_VERSION) ==> (rehashed matches Some(c) && {
                    &&& c.wf()
                    &&& phc_matches(c.hash@, password@)
                    &&& c.scheme_version == PWD_SCHEME_VERSION
                })
                &&& !is_stale(u.password, PWD_SCHEME_VERSION) ==> rehashed is None
            })
        },
{
    let user = match stored {
        Some(u) => u,
        None => {
            return Ok(LoginOutcome::Denied);
        },
    };
    let matched = match verify_password(password, &user.password) {
        Ok(b) => b,
        Err(e) => {
            return Err(e);
        },
    };
    if !matched {
        return Ok(LoginOutcome::Denied);
    }
    let rehashed = if needs_upgrade(&user.password, PWD_SCHEME_VERSION) {
        match hash_password(password, PWD_SCHEME_VERSION) {
            Ok(c) => Some(c),
            Err(e) => {
                return Err(e);
            },
        }
    } else {
        None
    };
    let snapshot = user.snapshot();
    let token = create_session(store, &snapshot, now);
    Ok(LoginOutcome::Success { token, rehashed })
}

/// Resolve the carried session token into the subject of the request.
///
/// A missing, expired or unknown token makes the caller a guest — never a
/// failure of the surrounding request; downstream authorization, not the
/// resolver, turns "no session" into a denial where one is required. On a
/// hit, resolution renews the session's expiry to the full duration.
pub fn authenticate(store: &mut KvStore, carried: Option<&String>, now: u64) -> (r: Subject)
    requires
        old(store).wf(),
        now + SESSION_DURATION_SECS <= u64::MAX,
    ensures
        final(store).wf(),
        carried is None ==> r is Guest && final(store).as_map() == old(store).as_map(),
        carried matches Some(t) ==> {
            &&& r == if session_live(old(store).as_map(), t@, now) {
                Subject::KnownUser(session_subject(old(store).as_map(), t@))
            } else {
                Subject::Guest
            }
            &&& session_live(old(store).as_map(), t@, now) ==> {
                &&& final(store).as_map() == old(store).as_map().insert(
                    session_key(t@),
                    (KvEntry {
                        key: old(store).as_map()[session_key(t@)].key,
                        value: old(store).as_map()[session_key(t@)].value,
                        expires_at: (now + SESSION_DURATION_SECS) as u64,
                    }),
                )
                &&& session_live(final(store).as_map(), t@, now)
            }
            &&& !live(old(store).as_map(), session_key(t@), now)
                ==> final(store).as_map() == old(store).as_map().remove(session_key(t@))
            &&& live(old(store).as_map(), session_key(t@), now) && !session_live(
                old(store).as_map(),
                t@,
                now,
            ) ==> final(store).as_map() == old(store).as_map().insert(
                session_key(t@),
                (KvEntry {
                    key: old(store).as_map()[session_key(t@)].key,
                    value: old(store).as_map()[session_key(t@)].value,
                    expires_at: (now + SESSION_DURATION_SECS) as u64,
                }),
            )
        },
{
    match carried {
        Some(token) => match resolve_session(store, token, now) {
            Some(user) => Subject::KnownUser(user),
            None => Subject::Guest,
        },
        None => Subject::Guest,
    }
}

/// Log out: delete the carried session token. Always succeeds from the
/// caller's point of view, a missing or unknown token included.
pub fn logout(store: &mut KvStore, carried: Option<&String>)
    requires
        old(store).wf(),
    ensures
        final(store).wf(),
        carried is None ==> final(store).as_map() == old(store).as_map(),
        carried matches Some(t) ==> final(store).as_map() == old(store).as_map().remove(
            session_key(t@),
        ),
{
    match carried {
        Some(token) => delete_session(store, token),
        None => {
        },
    }
}

/// Read a user profile on behalf of `subject`: compute the set of fields
/// the policy grants for reading, and project the record through it. A
/// guest gets exactly what rules grant the guest sentinel.
pub fn read_user(rules: &RuleSet, subject: &Subject, record: &UserRecord) -> (v: UserView)
    ensures
        v == project_spec(
            *record,
            authorized_fields_spec(rules.rules_seq(), *subject, FieldAccess::Read, *record),
        ),
{
    let visible: FieldSet = rules.authorized_fields(subject, FieldAccess::Read, record);
    project(record, &visible)
}

/// The record `changeset` turns `record` into: each carried field
/// replaces its counterpart, everything else is untouched.
pub open spec fn apply_update_spec(record: UserRecord, changeset: UpdateUser) -> UserRecord {
    UserRecord {
        name: match changeset.name {
            Some(n) => n,
            None => record.name,
        },
        email: match changeset.email {
            Some(e) => e,
            None => record.email,
        },
        role: match changeset.role {
            Some(r) => r,
            None => record.role,
        },
        ..record
    }
}

/// What an update or a delete attempt produced.
#[derive(Debug)]
pub enum UpdateOutcome {
    /// The update was permitted; carries the record to persist.
    Updated(UserRecord),
    /// The subject is authenticated but the policy denies the change.
    Forbidden,
    /// The caller is not authenticated.
    Unauthenticated,
}

/// Update a user profile on behalf of `subject`.
///
/// The update happens only when every change the changeset carries is
/// permitted individually — a role change only through the dedicated
/// role-assignment check. Nothing is applied on denial.
pub fn try_update(
    rules: &RuleSet,
    subject: &Subject,
    changeset: &UpdateUser,
    record: &UserRecord,
) -> (r: UpdateOutcome)
    ensures
        subject is Guest ==> r is Unauthenticated,
        subject is KnownUser && update_permitted_spec(
            rules.rules_seq(),
            *subject,
            *changeset,
            *record,
        ) ==> r == UpdateOutcome::Updated(apply_update_spec(*record, *changeset)),
        subject is KnownUser && !update_permitted_spec(
            rules.rules_seq(),
            *subject,
            *changeset,
            *record,
        ) ==> r is Forbidden,
{
    match subject {
        Subject::Guest => UpdateOutcome::Unauthenticated,
        Subject::KnownUser(_) => {
            if rules.update_permitted(subject, changeset, record) {
                let updated = UserRecord {
                    name: match &changeset.name {
                        Some(n) => n.clone(),
                        None => record.name.clone(),
                    },
                    email: match &changeset.email {
                        Some(e) => e.clone(),
                        None => record.email.clone(),
                    },
                    role: match changeset.role {
                        Some(r) => r,
                        None => record.role,
                    },
                    id: record.id,
                    created_at: record.created_at,
                    updated_at: record.updated_at,
                    password: record.password.clone(),
                    verified: record.verified,
                };
                UpdateOutcome::Updated(updated)
            } else {
                UpdateOutcome::Forbidden
            }
        },
    }
}

/// What a delete attempt produced.
#[derive(Debug, Clone, Copy, PartialEq, Eq, Structural)]
pub enum DeleteOutcome {
    /// The deletion is permitted; the caller's own session was deleted
    /// along with the record.
    Deleted,
    /// The subject is authenticated but the policy denies the deletion.
    Forbidden,
    /// The caller is not authenticated.
    Unauthenticated,
}

/// Delete a user record on behalf of `subject`.
///
/// When the policy permits it, the caller's own session is deleted too
/// (the record it was bound to is gone); the record deletion itself is
/// the backing store's, decided by the returned outcome.
pub fn try_delete(
    rules: &RuleSet,
    subject: &Subject,
    record: &UserRecord,
    store: &mut KvStore,
    session_token: &String,
) -> (r: DeleteOutcome)
    requires
        old(store).wf(),
    ensures
        final(store).wf(),
        subject is Guest ==> r == DeleteOutcome::Unauthenticated
            && final(store).as_map() == old(store).as_map(),
        subject is KnownUser && rule_set_allows(
            rules.rules_seq(),
            *subject,
            Action::Delete,
            *record,
        ) ==> r == DeleteOutcome::Deleted && final(store).as_map() == old(store).as_map().remove(
            session_key(session_token@),
        ),
        subject is KnownUser && !rule_set_allows(
            rules.rules_seq(),
            *subject,
            Action::Delete,
            *record,
        ) ==> r == DeleteOutcome::Forbidden && final(store).as_map() == old(store).as_map(),
{
    match subject {
        Subject::Guest => DeleteOutcome::Unauthenticated,
        Subject::KnownUser(_) => {
            if rules.is_allowed(subject, Action::Delete, record) {
                delete_session(store, session_token);
                DeleteOutcome::Deleted
            } else {
                DeleteOutcome::Forbidden
            }
        },
    }
}

/// What a registration attempt produced.
#[derive(Debug)]
pub enum RegisterOutcome {
    /// A user with this name or email already exists; nothing was made.
    Conflict,
    /// The record to insert, with the password hashed at the current
    /// scheme version. The plaintext is never stored.
    Registered(UserRecord),
}

/// Register a new user.
///
/// `conflict` is what the uniqueness lookup found: whether a record with
/// this name or email already exists. On no conflict, the produced record
/// carries the hashed credential, the given fresh id, the default role,
/// and is unverified until the email round-trip completes.
pub fn register_user(
    name: String,
    email: String,
    password: &str,
    id: u64,
    now: u64,
    conflict: bool,
) -> (r: Result<RegisterOutcome, MixiniError>)
    requires
        valid_password(password@),
    ensures
        conflict ==> r == Ok::<RegisterOutcome, MixiniError>(RegisterOutcome::Conflict),
        !conflict ==> (r matches Ok(RegisterOutcome::Registered(rec)) && {
            &&& rec.id == id
            &&& rec.name@ == name@
            &&& rec.email@ == email@
            &&& rec.role == crate::role::UserRole::Member
            &&& !rec.verified
            &&& rec.created_at == now
            &&& rec.updated_at == now
            &&& rec.password.wf()
            &&& phc_checkable(rec.password.hash@)
            &&& phc_matches(rec.password.hash@, password@)
            &&& rec.password.scheme_version == PWD_SCHEME_VERSION
        }),
{
    if conflict {
        return Ok(RegisterOutcome::Conflict);
    }
    let credential = match hash_password(password, PWD_SCHEME_VERSION) {
        Ok(c) => c,
        Err(e) => {
            return Err(e);
        },
    };
    Ok(
        RegisterOutcome::Registered(
            UserRecord {
                id,
                created_at: now,
                updated_at: now,
                name,
                email,
                role: crate::role::UserRole::Member,
                password: credential,
                verified: false,
            },
        ),
    )
}

/// Register a new user and immediately log the new account in: the
/// end-to-end path of a fresh signup. Verus checks here that an account
/// just created with a password can always be entered with that same
/// password: on no conflict the result carries the record to persist and
/// a token whose session holds the new account's snapshot.
pub fn register_then_login(
    name: String,
    email: String,
    password: &str,
    id: u64,
    store: &mut KvStore,
    now: u64,
    conflict: bool,
) -> (r: Result<Option<(UserRecord, String)>, MixiniError>)
    requires
        old(store).wf(),
        valid_password(password@),
        now + SESSION_DURATION_SECS <= u64::MAX,
    ensures
        final(store).wf(),
        conflict ==> r == Ok::<Option<(UserRecord, String)>, MixiniError>(None)
            && final(store).as_map() == old(store).as_map(),
        !conflict ==> (r matches Ok(Some((rec, token))) && {
            &&& rec.id == id
            &&& rec.name@ == name@
            &&& rec.email@ == email@
            &&& phc_matches(rec.password.hash@, password@)
            &&& rec.password.scheme_version == PWD_SCHEME_VERSION
            &&& is_token(token@)
            &&& session_live(final(store).as_map(), token@, now)
            &&& session_subject(final(store).as_map(), token@) == rec.snapshot_spec()
        }),
{
    let rec = match register_user(name, email, password, id, now, conflict) {
        Ok(RegisterOutcome::Registered(rec)) => rec,
        Ok(RegisterOutcome::Conflict) => {
            return Ok(None);
        },
        Err(e) => {
            return Err(e);
        },
    };
    match login(Some(&rec), password, store, now) {
        Ok(LoginOutcome::Success { token, rehashed: _ }) => Ok(Some((rec, token))),
        Ok(LoginOutcome::Denied) => Ok(None),
        Err(e) => Err(e),
    }
}

/// What an email-verification request produced.
#[derive(Debug)]
pub enum VerifyRequestOutcome {
    /// A fresh verification key, stored with its own TTL. The caller
    /// layer mails it to the user.
    Requested(String),
    /// The user's email is already verified; nothing was made.
    AlreadyVerified,
    /// The caller is not authenticated.
    Unauthenticated,
}

/// Ask for an email-verification key on behalf of `subject`.
pub fn request_verification(subject: &Subject, store: &mut KvStore, now: u64) -> (r:
    VerifyRequestOutcome)
    requires
        old(store).wf(),
        now + VERIFY_EXPIRY_SECONDS <= u64::MAX,
    ensures
        final(store).wf(),
        subject is Guest ==> r is Unauthenticated && final(store).as_map() == old(store).as_map(),
        subject matches Subject::KnownUser(u) ==> {
            &&& u.verified ==> r is AlreadyVerified && final(store).as_map() == old(
                store,
            ).as_map()
            &&& !u.verified ==> (r matches VerifyRequestOutcome::Requested(key) && {
                &&& is_token(key@)
                &&& final(store).as_map() == old(store).as_map().insert(
                    crate::session::verify_key(key@),
                    (KvEntry {
                        key: final(store).as_map()[crate::session::verify_key(key@)].key,
                        value: StoreValue::PendingUser(u.id),
                        expires_at: (now + VERIFY_EXPIRY_SECONDS) as u64,
                    }),
                )
            })
        },
{
    match subject {
        Subject::Guest => VerifyRequestOutcome::Unauthenticated,
        Subject::KnownUser(u) => {
            if u.verified {
                VerifyRequestOutcome::AlreadyVerified
            } else {
                let key = create_verify_key(store, u.id, now);
                VerifyRequestOutcome::Requested(key)
            }
        },
    }
}

/// Mark a record's email as verified, leaving every other field alone.
/// Applied after its pending verification key was presented in time.
pub fn mark_verified(record: &UserRecord) -> (r: UserRecord)
    ensures
        r == (UserRecord { verified: true, ..*record }),
{
    UserRecord {
        id: record.id,
        created_at: record.created_at,
        updated_at: record.updated_at,
        name: record.name.clone(),
        email: record.email.clone(),
        role: record.role,
        password: record.password.clone(),
        verified: true,
    }
}

/// The body of the verification email: it names the freshly generated key
/// and states its expiry.
pub fn verification_mail_body(key: &str) -> (r: String)
    ensures
        r@ == "Your Mixini verification key is "@ + key@
            + ". Note that it will expire in 24 hours."@,
{
    String::from_str("Your Mixini verification key is ").concat(key).concat(
        ". Note that it will expire in 24 hours.",
    )
}

/// The subject line of the verification email.
pub fn verification_mail_subject() -> (r: String)
    ensures
        r@ == "Your Mixini email verification"@,
{
    String::from_str("Your Mixini email verification")
}

/// The session cookie set on a successful login: carries the unprefixed
/// token, flagged secure and http-only, scoped to the configured domain,
/// with an expiry matching the session TTL.
pub fn session_cookie(token: &str, domain: &str) -> (r: String)
    ensures
        r@ == SESSION_COOKIE_NAME@ + "="@ + token@ + "; Secure; HttpOnly; Domain="@ + domain@
            + "; Max-Age=1209600"@,
{
    String::from_str(SESSION_COOKIE_NAME).concat("=").concat(token).concat(
        "; Secure; HttpOnly; Domain=",
    ).concat(domain).concat("; Max-Age=1209600")
}

/// The session cookie set on logout: an expired placeholder that makes
/// the client drop the token.
pub fn logout_cookie(domain: &str) -> (r: String)
    ensures
        r@ == SESSION_COOKIE_NAME@ + "=expired; Secure; HttpOnly; Domain="@ + domain@
            + "; Max-Age=-1"@,
{
    String::from_str(SESSION_COOKIE_NAME).concat("=expired; Secure; HttpOnly; Domain=").concat(
        domain,
    ).concat("; Max-Age=-1")
}

} // verus!
