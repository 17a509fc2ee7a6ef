//! The session store adapter: opaque-token session lifecycle over the
//! key-value store, plus the pending email-verification keys.
//!
//! A session is created on successful login, renewed in full on every
//! resolution (sliding expiration), and deleted on logout or by expiry.
//! A deleted or expired session behaves exactly like a token that never
//! existed. Storage keys are namespaced with a prefix; callers only ever
//! see the unprefixed token.

use crate::store::{live, KvEntry, KvStore, StoreValue};
use crate::token::{is_token, RKeys};
use crate::user::UserInfo;
use vstd::prelude::*;

verus! {

/// The cookie under which a caller carries its session token.
pub const SESSION_COOKIE_NAME: &'static str = "msessid";

/// The storage-key namespace for sessions.
pub const SESSION_KEY_PREFIX: &'static str = "session:";

/// How long a session lives without being accessed, in seconds.
pub const SESSION_DURATION_SECS: u64 = 1209600;

/// The storage-key namespace for pending email-verification keys.
pub const VERIFY_KEY_PREFIX: &'static str = "verify:";

/// How long an email-verification key lives, in seconds.
pub const VERIFY_EXPIRY_SECONDS: u64 = 86400;

/// The storage key under which the session token `t` lives.
pub open spec fn session_key(t: Seq<char>) -> Seq<char> {
    SESSION_KEY_PREFIX@ + t
}

/// The storage key under which the verification key `t` lives.
pub open spec fn verify_key(t: Seq<char>) -> Seq<char> {
    VERIFY_KEY_PREFIX@ + t
}

/// Whether `token` resolves to a session at time `now`: its storage key
/// holds a live entry carrying a session record.
pub open spec fn session_live(
    m: Map<Seq<char>, KvEntry>,
    token: Seq<char>,
    now: u64,
) -> bool {
    live(m, session_key(token), now) && m[session_key(token)].value is Session
}

/// The subject snapshot the live session under `token` carries.
pub open spec fn session_subject(m: Map<Seq<char>, KvEntry>, token: Seq<char>) -> UserInfo {
    m[session_key(token)].value->Session_0
}

/// Create a session for `user`: generate a fresh opaque token and write
/// the subject snapshot under it with the full session TTL. Returns the
/// unprefixed token; the storage-key namespacing stays internal.
pub fn create_session(store: &mut KvStore, user: &UserInfo, now: u64) -> (token: String)
    requires
        old(store).wf(),
        now + SESSION_DURATION_SECS <= u64::MAX,
    ensures
        final(store).wf(),
        is_token(token@),
        final(store).as_map() == old(store).as_map().insert(
            session_key(token@),
            (KvEntry {
                key: final(store).as_map()[session_key(token@)].key,
                value: StoreValue::Session(*user),
                expires_at: (now + SESSION_DURATION_SECS) as u64,
            }),
        ),
        session_live(final(store).as_map(), token@, now),
        session_subject(final(store).as_map(), token@) == *user,
{
    let keys = RKeys::generate(SESSION_KEY_PREFIX);
    store.set(
        keys.prefixed_key,
        StoreValue::Session(user.clone()),
        now + SESSION_DURATION_SECS,
    );
    keys.base_key
}

/// Resolve a carried token at time `now`. On a hit the session's expiry
/// is renewed to the full configured duration as part of resolution; a
/// missing or expired token yields `None`, with no way to tell the two
/// apart.
pub fn resolve_session(store: &mut KvStore, token: &String, now: u64) -> (r: Option<UserInfo>)
    requires
        old(store).wf(),
        now + SESSION_DURATION_SECS <= u64::MAX,
    ensures
        final(store).wf(),
        session_live(old(store).as_map(), token@, now) ==> {
            &&& r == Some(session_subject(old(store).as_map(), token@))
            &&& final(store).as_map() == old(store).as_map().insert(
                session_key(token@),
                (KvEntry {
                    key: old(store).as_map()[session_key(token@)].key,
                    value: old(store).as_map()[session_key(token@)].value,
                    expires_at: (now + SESSION_DURATION_SECS) as u64,
                }),
            )
            &&& session_live(final(store).as_map(), token@, now)
        },
        !live(old(store).as_map(), session_key(token@), now) ==> {
            &&& r is None
            &&& final(store).as_map() == old(store).as_map().remove(session_key(token@))
        },
        live(old(store).as_map(), session_key(token@), now) && !session_live(
            old(store).as_map(),
            token@,
            now,
        ) ==> {
            &&& r is None
            &&& final(store).as_map() == old(store).as_map().insert(
                session_key(token@),
                (KvEntry {
                    key: old(store).as_map()[session_key(token@)].key,
                    value: old(store).as_map()[session_key(token@)].value,
                    expires_at: (now + SESSION_DURATION_SECS) as u64,
                }),
            )
        },
        r is Some ==> session_live(old(store).as_map(), token@, now),
{
    let prefixed = String::from_str(SESSION_KEY_PREFIX).concat(token.as_str());
    match store.get_renew(&prefixed, now, now + SESSION_DURATION_SECS) {
        Some(StoreValue::Session(user)) => Some(user),
        Some(StoreValue::PendingUser(_)) => None,
        None => None,
    }
}

/// Delete the session under a carried token. Idempotent: deleting an
/// absent or expired token is not an error and changes nothing.
pub fn delete_session(store: &mut KvStore, token: &String)
    requires
        old(store).wf(),
    ensures
        final(store).wf(),
        final(store).as_map() == old(store).as_map().remove(session_key(token@)),
{
    let prefixed = String::from_str(SESSION_KEY_PREFIX).concat(token.as_str());
    store.delete(&prefixed);
}

/// Record a pending email verification for `user_id`: generate a fresh
/// key and store the user id under it with the verification TTL. Returns
/// the unprefixed key, to be delivered to the user's email address.
pub fn create_verify_key(store: &mut KvStore, user_id: u64, now: u64) -> (token: String)
    requires
        old(store).wf(),
        now + VERIFY_EXPIRY_SECONDS <= u64::MAX,
    ensures
        final(store).wf(),
        is_token(token@),
        final(store).as_map() == old(store).as_map().insert(
            verify_key(token@),
            (KvEntry {
                key: final(store).as_map()[verify_key(token@)].key,
                value: StoreValue::PendingUser(user_id),
                expires_at: (now + VERIFY_EXPIRY_SECONDS) as u64,
            }),
        ),
{
    let keys = RKeys::generate(VERIFY_KEY_PREFIX);
    store.set(keys.prefixed_key, StoreValue::PendingUser(user_id), now + VERIFY_EXPIRY_SECONDS);
    keys.base_key
}

/// Consume a carried verification key at time `now`: on a hit, return the
/// user id it was created for and delete the key, so it can be used once.
/// A missing or expired key yields `None` and, either way, the key is
/// gone afterwards.
pub fn take_verify_key(store: &mut KvStore, token: &String, now: u64) -> (r: Option<u64>)
    requires
        old(store).wf(),
    ensures
        final(store).wf(),
        r == if live(old(store).as_map(), verify_key(token@), now) && old(store).as_map()[
            verify_key(token@)
        ].value is PendingUser {
            Some(old(store).as_map()[verify_key(token@)].value->PendingUser_0)
        } else {
            Option::<u64>::None
        },
        final(store).as_map() == old(store).as_map().remove(verify_key(token@)),
{
    let prefixed = String::from_str(VERIFY_KEY_PREFIX).concat(token.as_str());
    let found = store.get(&prefixed, now);
    store.delete(&prefixed);
    match found {
        Some(StoreValue::PendingUser(id)) => Some(id),
        Some(StoreValue::Session(_)) => None,
        None => None,
    }
}

/// Distinct tokens use distinct storage keys: the session-key mapping is
/// injective.
pub proof fn lemma_session_key_injective(t1: Seq<char>, t2: Seq<char>)
    requires
        session_key(t1) == session_key(t2),
    ensures
        t1 == t2,
{
    reveal_strlit("session:");
    let p = SESSION_KEY_PREFIX@;
    assert(p + t1 == p + t2);
    assert((p + t1).len() == (p + t2).len());
    assert(t1.len() == t2.len());
    assert forall|i: int| 0 <= i < t1.len() implies t1[i] == t2[i] by {
        assert((p + t1)[p.len() + i] == t1[i]);
        assert((p + t2)[p.len() + i] == t2[i]);
    }
    assert(t1 =~= t2);
}

/// Sessions under distinct tokens are independent: creating or renewing
/// a session under one token leaves a live session under any other token
/// live, with its subject snapshot untouched. Concurrent logins co-exist.
pub proof fn lemma_sessions_coexist(
    m: Map<Seq<char>, KvEntry>,
    t1: Seq<char>,
    t2: Seq<char>,
    e: KvEntry,
    now: u64,
)
    requires
        session_live(m, t1, now),
        t1 != t2,
    ensures
        session_live(m.insert(session_key(t2), e), t1, now),
        session_subject(m.insert(session_key(t2), e), t1) == session_subject(m, t1),
{
    if session_key(t1) == session_key(t2) {
        lemma_session_key_injective(t1, t2);
    }
}

/// The two key namespaces never collide: a session key and a
/// verification key are distinct whatever tokens they carry, so
/// operations on one namespace cannot touch the other.
pub proof fn lemma_distinct_namespaces(t: Seq<char>, u: Seq<char>)
    ensures
        session_key(t) != verify_key(u),
{
    reveal_strlit("session:");
    reveal_strlit("verify:");
    assert(session_key(t)[0] == 's');
    assert(verify_key(u)[0] == 'v');
}

/// Deleting a key twice has the same externally visible effect as
/// deleting it once: the second deletion changes nothing.
pub proof fn lemma_delete_idempotent(m: Map<Seq<char>, KvEntry>, k: Seq<char>)
    ensures
        m.remove(k).remove(k) == m.remove(k),
{
    assert(m.remove(k).remove(k) =~= m.remove(k));
}

/// Sliding expiration: resolving a session at time `t0` leaves it
/// resolvable at every time up to `t0` plus the full configured duration,
/// however little of its previous window was left.
pub proof fn lemma_sliding_expiration(
    m0: Map<Seq<char>, KvEntry>,
    m1: Map<Seq<char>, KvEntry>,
    token: Seq<char>,
    t0: u64,
    t1: u64,
)
    requires
        session_live(m0, token, t0),
        t0 + SESSION_DURATION_SECS <= u64::MAX,
        // what resolving at `t0` ensures of the store afterwards
        m1 == m0.insert(
            session_key(token),
            (KvEntry {
                key: m0[session_key(token)].key,
                value: m0[session_key(token)].value,
                expires_at: (t0 + SESSION_DURATION_SECS) as u64,
            }),
        ),
        t1 <= t0 + SESSION_DURATION_SECS,
    ensures
        session_live(m1, token, t1),
        session_subject(m1, token) == session_subject(m0, token),
{
}

/// A deleted token is indistinguishable from one that never existed: it
/// does not resolve at any time.
pub proof fn lemma_deleted_not_live(m: Map<Seq<char>, KvEntry>, token: Seq<char>, now: u64)
    ensures
        !session_live(m.remove(session_key(token)), token, now),
{
}

/// A session expires when its window elapses with no access: at any time
/// past its recorded expiry it no longer resolves.
pub proof fn lemma_expired_not_live(m: Map<Seq<char>, KvEntry>, token: Seq<char>, now: u64)
    requires
        m.dom().contains(session_key(token)) ==> m[session_key(token)].expires_at < now,
    ensures
        !session_live(m, token, now),
{
}

} // verus!
