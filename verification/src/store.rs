//! An in-memory model of the TTL-capable key-value store that backs
//! sessions and pending email-verification keys.
//!
//! Every entry carries its own expiry instant. An expired entry behaves
//! exactly like an absent one: a lookup cannot tell the two apart, which
//! is intentional. Each operation touches a single key, mirroring the
//! per-key atomicity the backing store provides.

use crate::user::UserInfo;
use vstd::prelude::*;

verus! {

/// A value stored under a key: a session's subject snapshot, or the user
/// id a pending email-verification key belongs to.
#[derive(Debug)]
pub enum StoreValue {
    /// A session record: the snapshot of the user that logged in.
    Session(UserInfo),
    /// A pending email-verification key's user id.
    PendingUser(u64),
}

impl Clone for StoreValue {
    fn clone(&self) -> (r: Self)
        ensures
            r == *self,
    {
        match self {
            StoreValue::Session(u) => StoreValue::Session(u.clone()),
            StoreValue::PendingUser(id) => StoreValue::PendingUser(*id),
        }
    }
}

/// One stored entry: its key, its value, and the instant (in seconds) at
/// which it expires.
#[derive(Debug)]
pub struct KvEntry {
    pub key: String,
    pub value: StoreValue,
    /// The entry is live strictly before this instant has passed: it
    /// still resolves at `expires_at` and no longer at any later time.
    pub expires_at: u64,
}

/// Whether the key `k` holds a live entry at time `now`.
pub open spec fn live(m: Map<Seq<char>, KvEntry>, k: Seq<char>, now: u64) -> bool {
    m.dom().contains(k) && m[k].expires_at >= now
}

/// The key-value store: a map from keys to entries, each with its own
/// expiry.
pub struct KvStore {
    entries: Vec<KvEntry>,
    contents: Ghost<Map<Seq<char>, KvEntry>>,
}

impl KvStore {
    /// The store's contents, keyed by the entries' keys.
    pub closed spec fn as_map(self) -> Map<Seq<char>, KvEntry> {
        self.contents@
    }

    /// The physical entries and the map agree: each entry is in the map
    /// under its key, each mapped key is held by some entry, and no two
    /// entries share a key.
    pub closed spec fn wf(self) -> bool {
        &&& forall|i: int|
            0 <= i < self.entries@.len() ==> {
                &&& self.contents@.dom().contains(#[trigger] self.entries@[i].key@)
                &&& self.contents@[self.entries@[i].key@] == self.entries@[i]
            }
        &&& forall|k: Seq<char>|
            #[trigger] self.contents@.dom().contains(k) ==> exists|i: int|
                0 <= i < self.entries@.len() && #[trigger] self.entries@[i].key@ == k
        &&& forall|i: int, j: int|
            0 <= i < j < self.entries@.len() ==> (#[trigger] self.entries@[i].key@)
                != (#[trigger] self.entries@[j].key@)
    }

    /// An empty store.
    pub fn new() -> (r: KvStore)
        ensures
            r.wf(),
            r.as_map() == Map::<Seq<char>, KvEntry>::empty(),
    {
        KvStore { entries: Vec::new(), contents: Ghost(Map::empty()) }
    }

    /// Find the index holding `key`, if any.
    fn find(&self, key: &String) -> (r: Option<usize>)
        requires
            self.wf(),
        ensures
            match r {
                Some(i) => i < self.entries@.len() && self.entries@[i as int].key@ == key@,
                None => !self.as_map().dom().contains(key@),
            },
    {
        let n = self.entries.len();
        let mut i: usize = 0;
        while i < n
            invariant
                self.wf(),
                n == self.entries@.len(),
                i <= n,
                forall|j: int| 0 <= j < i ==> (#[trigger] self.entries@[j].key@) != key@,
            decreases n - i,
        {
            if self.entries[i].key == *key {
                return Some(i);
            }
            i += 1;
        }
        None
    }

    /// Write `value` under `key` with the given expiry, overwriting any
    /// previous entry for that key. A single atomic key write.
    pub fn set(&mut self, key: String, value: StoreValue, expires_at: u64)
        requires
            old(self).wf(),
        ensures
            final(self).wf(),
            final(self).as_map() == old(self).as_map().insert(
                key@,
                (KvEntry { key, value, expires_at }),
            ),
    {
        let ghost entry_spec = KvEntry { key: key, value: value, expires_at };
        match self.find(&key) {
            Some(i) => {
                let entry = KvEntry { key, value, expires_at };
                self.entries.set(i, entry);
                proof {
                    self.contents@ = self.contents@.insert(entry_spec.key@, entry_spec);
                    assert forall|k: Seq<char>| #[trigger] self.contents@.dom().contains(k)
                        implies exists|j: int|
                        0 <= j < self.entries@.len() && #[trigger] self.entries@[j].key@ == k by {
                        if k == entry_spec.key@ {
                            assert(self.entries@[i as int].key@ == k);
                        } else {
                            assert(old(self).contents@.dom().contains(k));
                            let j = choose|j: int|
                                0 <= j < old(self).entries@.len() && #[trigger] old(
                                    self,
                                ).entries@[j].key@ == k;
                            assert(self.entries@[j].key@ == k);
                        }
                    }
                }
            },
            None => {
                let entry = KvEntry { key, value, expires_at };
                self.entries.push(entry);
                proof {
                    self.contents@ = self.contents@.insert(entry_spec.key@, entry_spec);
                    assert forall|k: Seq<char>| #[trigger] self.contents@.dom().contains(k)
                        implies exists|j: int|
                        0 <= j < self.entries@.len() && #[trigger] self.entries@[j].key@ == k by {
                        if k == entry_spec.key@ {
                            assert(self.entries@[self.entries@.len() - 1].key@ == k);
                        } else {
                            assert(old(self).contents@.dom().contains(k));
                            let j = choose|j: int|
                                0 <= j < old(self).entries@.len() && #[trigger] old(
                                    self,
                                ).entries@[j].key@ == k;
                            assert(self.entries@[j].key@ == k);
                        }
                    }
                }
            },
        }
    }

    /// Read the value under `key` at time `now`, without renewal. A
    /// missing key and an expired one are indistinguishable.
    pub fn get(&self, key: &String, now: u64) -> (r: Option<StoreValue>)
        requires
            self.wf(),
        ensures
            r == if live(self.as_map(), key@, now) {
                Some(self.as_map()[key@].value)
            } else {
                Option::<StoreValue>::None
            },
    {
        match self.find(key) {
            Some(i) => {
                let entry = &self.entries[i];
                if entry.expires_at >= now {
                    Some(entry.value.clone())
                } else {
                    None
                }
            },
            None => None,
        }
    }

    /// Read the value under `key` at time `now` and, on a hit, renew the
    /// entry's expiry to `new_expires_at`. An expired entry is dropped
    /// and reads as absent, exactly like a missing key.
    pub fn get_renew(&mut self, key: &String, now: u64, new_expires_at: u64) -> (r: Option<
        StoreValue,
    >)
        requires
            old(self).wf(),
        ensures
            final(self).wf(),
            live(old(self).as_map(), key@, now) ==> {
                &&& r == Some(old(self).as_map()[key@].value)
                &&& final(self).as_map() == old(self).as_map().insert(
                    key@,
                    (KvEntry {
                        key: old(self).as_map()[key@].key,
                        value: old(self).as_map()[key@].value,
                        expires_at: new_expires_at,
                    }),
                )
            },
            !live(old(self).as_map(), key@, now) ==> {
                &&& r is None
                &&& final(self).as_map() == old(self).as_map().remove(key@)
            },
    {
        match self.find(key) {
            Some(i) => {
                if self.entries[i].expires_at >= now {
                    let value = self.entries[i].value.clone();
                    let stored_key = self.entries[i].key.clone();
                    let renewed = KvEntry {
                        key: stored_key,
                        value: value.clone(),
                        expires_at: new_expires_at,
                    };
                    self.entries.set(i, renewed);
                    proof {
                        let k = key@;
                        let e = KvEntry {
                            key: old(self).contents@[k].key,
                            value: old(self).contents@[k].value,
                            expires_at: new_expires_at,
                        };
                        self.contents@ = self.contents@.insert(k, e);
                        assert(self.entries@[i as int] == e);
                        assert forall|q: Seq<char>| #[trigger] self.contents@.dom().contains(q)
                            implies exists|j: int|
                            0 <= j < self.entries@.len() && #[trigger] self.entries@[j].key@
                                == q by {
                            assert(old(self).contents@.dom().contains(q));
                            let j = choose|j: int|
                                0 <= j < old(self).entries@.len() && #[trigger] old(
                                    self,
                                ).entries@[j].key@ == q;
                            assert(self.entries@[j].key@ == q);
                        }
                    }
                    Some(value)
                } else {
                    self.entries.remove(i);
                    proof {
                        self.contents@ = self.contents@.remove(key@);
                        assert_removed_wf(*old(self), *self, key@, i as int);
                    }
                    None
                }
            },
            None => {
                proof {
                    assert(old(self).as_map().remove(key@) =~= old(self).as_map());
                }
                None
            },
        }
    }

    /// Delete the entry under `key`, if any. Idempotent: deleting an
    /// absent key changes nothing and is not an error.
    pub fn delete(&mut self, key: &String)
        requires
            old(self).wf(),
        ensures
            final(self).wf(),
            final(self).as_map() == old(self).as_map().remove(key@),
    {
        match self.find(key) {
            Some(i) => {
                self.entries.remove(i);
                proof {
                    self.contents@ = self.contents@.remove(key@);
                    assert_removed_wf(*old(self), *self, key@, i as int);
                }
            },
            None => {
                proof {
                    assert(old(self).as_map().remove(key@) =~= old(self).as_map());
                }
            },
        }
    }

}

/// The store invariant survives removing the entry at index `i` from the
/// physical vector together with its key from the map.
proof fn assert_removed_wf(pre: KvStore, post: KvStore, k: Seq<char>, i: int)
    requires
        pre.wf(),
        0 <= i < pre.entries@.len(),
        pre.entries@[i].key@ == k,
        post.entries@ == pre.entries@.remove(i),
        post.contents@ == pre.contents@.remove(k),
    ensures
        post.wf(),
{
    pre.entries@.remove_ensures(i);
    assert forall|j: int| 0 <= j < post.entries@.len() implies {
        &&& post.contents@.dom().contains(#[trigger] post.entries@[j].key@)
        &&& post.contents@[post.entries@[j].key@] == post.entries@[j]
    } by {
        if j < i {
            assert(post.entries@[j] == pre.entries@[j]);
            assert(pre.entries@[j].key@ != k);
        } else {
            assert(post.entries@[j] == pre.entries@[j + 1]);
            assert(pre.entries@[j + 1].key@ != k);
        }
    }
    assert forall|q: Seq<char>| #[trigger] post.contents@.dom().contains(q) implies exists|j: int|
        0 <= j < post.entries@.len() && #[trigger] post.entries@[j].key@ == q by {
        assert(pre.contents@.dom().contains(q) && q != k);
        let j0 = choose|j0: int|
            0 <= j0 < pre.entries@.len() && #[trigger] pre.entries@[j0].key@ == q;
        if j0 < i {
            assert(post.entries@[j0].key@ == q);
        } else {
            assert(j0 != i);
            assert(post.entries@[j0 - 1].key@ == q);
        }
    }
    assert forall|j1: int, j2: int| 0 <= j1 < j2 < post.entries@.len() implies (
    #[trigger] post.entries@[j1].key@) != (#[trigger] post.entries@[j2].key@) by {
        let p1: int = if j1 < i {
            j1
        } else {
            j1 + 1
        };
        let p2: int = if j2 < i {
            j2
        } else {
            j2 + 1
        };
        assert(post.entries@[j1] == pre.entries@[p1]);
        assert(post.entries@[j2] == pre.entries@[p2]);
    }
}

} // verus!
