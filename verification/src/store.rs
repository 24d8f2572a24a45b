use vstd::prelude::*;
use crate::text::codes_match;

verus! {

/// The fields of a pending login attempt, as persisted between the
/// issuance of a one-time code and its verification.
pub struct SessionRecord {
    pub email: String,
    pub client_id: String,
    pub code: String,
    pub redirect: String,
}

/// The mathematical model of a session record.
pub struct SessionRecordV {
    pub email: Seq<char>,
    pub client_id: Seq<char>,
    pub code: Seq<char>,
    pub redirect: Seq<char>,
}

impl View for SessionRecord {
    type V = SessionRecordV;

    open spec fn view(&self) -> SessionRecordV {
        SessionRecordV {
            email: self.email@,
            client_id: self.client_id@,
            code: self.code@,
            redirect: self.redirect@,
        }
    }
}

/// One keyed entry of the store, with its optional expiry instant.
struct StoredEntry {
    key: String,
    record: SessionRecord,
    expires_at: Option<u64>,
}

/// The mathematical model of one store entry.
pub struct StoredEntryV {
    pub key: Seq<char>,
    pub record: SessionRecordV,
    pub expires_at: Option<u64>,
}

impl View for StoredEntry {
    type V = StoredEntryV;

    closed spec fn view(&self) -> StoredEntryV {
        StoredEntryV { key: self.key@, record: self.record@, expires_at: self.expires_at }
    }
}

/// The first entry of a sequence that carries the given key, if any.
pub open spec fn lookup(s: Seq<StoredEntryV>, key: Seq<char>) -> Option<StoredEntryV>
    decreases s.len(),
{
    if s.len() == 0 {
        None
    } else if s[0].key == key {
        Some(s[0])
    } else {
        lookup(s.drop_first(), key)
    }
}

/// Whether an entry is still alive at the given instant: it either has no
/// expiry, or its expiry lies strictly in the future.
pub open spec fn entry_live(e: StoredEntryV, now: u64) -> bool {
    match e.expires_at {
        Option::None => true,
        Option::Some(t) => now < t,
    }
}

/// The entry under a key, provided it is still alive at the given instant.
pub open spec fn live_lookup(s: Seq<StoredEntryV>, key: Seq<char>, now: u64) -> Option<
    StoredEntryV,
> {
    match lookup(s, key) {
        Option::None => None,
        Option::Some(e) => if entry_live(e, now) {
            Some(e)
        } else {
            None
        },
    }
}

proof fn lemma_lookup_at_first_match(s: Seq<StoredEntryV>, key: Seq<char>, i: int)
    requires
        0 <= i < s.len(),
        s[i].key == key,
        forall|j: int| 0 <= j < i ==> s[j].key != key,
    ensures
        lookup(s, key) == Some(s[i]),
    decreases i,
{
    if i > 0 {
        lemma_lookup_at_first_match(s.drop_first(), key, i - 1);
    }
}

proof fn lemma_lookup_no_match(s: Seq<StoredEntryV>, key: Seq<char>)
    requires
        forall|j: int| 0 <= j < s.len() ==> s[j].key != key,
    ensures
        lookup(s, key) is None,
    decreases s.len(),
{
    if s.len() > 0 {
        lemma_lookup_no_match(s.drop_first(), key);
    }
}

proof fn lemma_lookup_update_other(s: Seq<StoredEntryV>, i: int, e: StoredEntryV, k: Seq<char>)
    requires
        0 <= i < s.len(),
        s[i].key == e.key,
        k != e.key,
    ensures
        lookup(s.update(i, e), k) == lookup(s, k),
    decreases s.len(),
{
    let t = s.update(i, e);
    if i == 0 {
        assert(t.drop_first() =~= s.drop_first());
    } else {
        if s[0].key == k {
        } else {
            lemma_lookup_update_other(s.drop_first(), i - 1, e, k);
            assert(t.drop_first() =~= s.drop_first().update(i - 1, e));
        }
    }
}

proof fn lemma_lookup_push(s: Seq<StoredEntryV>, e: StoredEntryV, k: Seq<char>)
    ensures
        lookup(s.push(e), k) == (if lookup(s, k) is Some {
            lookup(s, k)
        } else if e.key == k {
            Some(e)
        } else {
            None
        }),
    decreases s.len(),
{
    if s.len() == 0 {
        assert(s.push(e)[0] == e);
        if e.key == k {
            assert(lookup(s.push(e), k) == Some(e));
        } else {
            assert(s.push(e).drop_first() =~= Seq::<StoredEntryV>::empty());
            assert(lookup(Seq::<StoredEntryV>::empty(), k) is None);
            assert(lookup(s.push(e), k) is None);
        }
    } else {
        assert(s.push(e)[0] == s[0]);
        assert(s.push(e).drop_first() =~= s.drop_first().push(e));
        if s[0].key == k {
            assert(lookup(s, k) == Some(s[0]));
            assert(lookup(s.push(e), k) == Some(s[0]));
        } else {
            lemma_lookup_push(s.drop_first(), e, k);
            assert(lookup(s.push(e), k) == lookup(s.drop_first().push(e), k));
            assert(lookup(s, k) == lookup(s.drop_first(), k));
        }
    }
}

/// An in-memory keyed store of session records with per-key expiry. It
/// offers the three operations the authentication loop consumes: set all
/// fields of a key, set an expiry on a key, and get all fields of a key.
pub struct MemoryStore {
    entries: Vec<StoredEntry>,
}

impl View for MemoryStore {
    type V = Seq<StoredEntryV>;

    closed spec fn view(&self) -> Seq<StoredEntryV> {
        self.entries@.map_values(|e: StoredEntry| e@)
    }
}

impl MemoryStore {
    /// Creates an empty store.
    pub fn new() -> (r: MemoryStore)
        ensures
            r@ == Seq::<StoredEntryV>::empty(),
    {
        let r = MemoryStore { entries: Vec::new() };
        proof {
            assert(r@ =~= Seq::<StoredEntryV>::empty());
        }
        r
    }

    /// Finds the index of the first entry under a key.
    fn find_index(&self, key: &str) -> (r: Option<usize>)
        ensures
            match r {
                Option::Some(i) => i < self@.len() && self@[i as int].key == key@ && (forall|
                    j: int,
                |
                    0 <= j < i ==> self@[j].key != key@),
                Option::None => forall|j: int| 0 <= j < self@.len() ==> self@[j].key != key@,
            },
    {
        let mut i: usize = 0;
        while i < self.entries.len()
            invariant
                i <= self@.len(),
                self@.len() == self.entries@.len(),
                forall|j: int| 0 <= j < i ==> self@[j].key != key@,
            decreases self@.len() - i,
        {
            let e = &self.entries[i];
            proof {
                assert(self@[i as int] == self.entries@[i as int]@);
            }
            if codes_match(key, e.key.as_str()) {
                return Some(i);
            }
            i += 1;
        }
        None
    }

    /// Sets all fields of a key at once, as one atomic store operation.
    /// An existing live entry is overwritten and keeps its expiry; a key
    /// that is absent, or whose entry has expired, gets a fresh entry with
    /// no expiry.
    pub fn hset_session(&mut self, key: &str, record: SessionRecord, now: u64)
        ensures
            lookup(final(self)@, key@) == Some(
                StoredEntryV {
                    key: key@,
                    record: record@,
                    expires_at: match live_lookup(old(self)@, key@, now) {
                        Option::Some(e) => e.expires_at,
                        Option::None => Option::None,
                    },
                },
            ),
            forall|k: Seq<char>|
                k != key@ ==> lookup(final(self)@, k) == lookup(old(self)@, k),
    {
        let found = self.find_index(key);
        match found {
            Option::Some(i) => {
                proof {
                    lemma_lookup_at_first_match(self@, key@, i as int);
                }
                let prior = self.entries[i].expires_at;
                let live = match prior {
                    Option::None => true,
                    Option::Some(t) => now < t,
                };
                let kept: Option<u64> = if live {
                    prior
                } else {
                    Option::None
                };
                let entry = StoredEntry {
                    key: String::from_str(key),
                    record,
                    expires_at: kept,
                };
                let ghost pre = self@;
                let ghost ev = entry@;
                *vstd::std_specs::vec::vec_index_mut(&mut self.entries, i) = entry;
                proof {
                    assert(self@ =~= pre.update(i as int, ev));
                    lemma_lookup_at_first_match(self@, key@, i as int);
                    assert forall|k: Seq<char>| k != key@ implies lookup(self@, k) == lookup(
                        pre,
                        k,
                    ) by {
                        lemma_lookup_update_other(pre, i as int, ev, k);
                    }
                }
            },
            Option::None => {
                proof {
                    lemma_lookup_no_match(self@, key@);
                }
                let entry = StoredEntry {
                    key: String::from_str(key),
                    record,
                    expires_at: Option::None,
                };
                let ghost pre = self@;
                let ghost ev = entry@;
                self.entries.push(entry);
                proof {
                    assert(self@ =~= pre.push(ev));
                    assert forall|k: Seq<char>| true implies lookup(self@, k) == (if lookup(
                        pre,
                        k,
                    ) is Some {
                        lookup(pre, k)
                    } else if ev.key == k {
                        Some(ev)
                    } else {
                        None
                    }) by {
                        lemma_lookup_push(pre, ev, k);
                    }
                }
            },
        }
    }

    /// Sets the expiry of a key to the given deadline, as one atomic store
    /// operation. Returns whether the key was alive, and so whether an
    /// expiry was set; on a missing or already expired key nothing changes.
    pub fn expire_session(&mut self, key: &str, deadline: u64, now: u64) -> (r: bool)
        ensures
            r == (live_lookup(old(self)@, key@, now) is Some),
            !r ==> final(self)@ == old(self)@,
            r ==> lookup(final(self)@, key@) == Some(
                StoredEntryV {
                    key: key@,
                    record: live_lookup(old(self)@, key@, now)->Some_0.record,
                    expires_at: Option::Some(deadline),
                },
            ),
            r ==> forall|k: Seq<char>|
                k != key@ ==> lookup(final(self)@, k) == lookup(old(self)@, k),
    {
        let found = self.find_index(key);
        match found {
            Option::Some(i) => {
                proof {
                    lemma_lookup_at_first_match(self@, key@, i as int);
                }
                let prior = self.entries[i].expires_at;
                let live = match prior {
                    Option::None => true,
                    Option::Some(t) => now < t,
                };
                if live {
                    let ghost pre = self@;
                    let e = vstd::std_specs::vec::vec_index_mut(&mut self.entries, i);
                    e.expires_at = Option::Some(deadline);
                    proof {
                        let ev = StoredEntryV {
                            key: key@,
                            record: pre[i as int].record,
                            expires_at: Option::Some(deadline),
                        };
                        assert(self@ =~= pre.update(i as int, ev));
                        lemma_lookup_at_first_match(self@, key@, i as int);
                        assert forall|k: Seq<char>| k != key@ implies lookup(self@, k)
                            == lookup(pre, k) by {
                            lemma_lookup_update_other(pre, i as int, ev, k);
                        }
                    }
                    true
                } else {
                    false
                }
            },
            Option::None => {
                proof {
                    lemma_lookup_no_match(self@, key@);
                }
                false
            },
        }
    }

    /// Gets all fields of a key, provided the key is alive at the given
    /// instant. A missing or expired key reads as absent.
    pub fn hget_session(&self, key: &str, now: u64) -> (r: Option<SessionRecord>)
        ensures
            match live_lookup(self@, key@, now) {
                Option::Some(e) => r is Some && r->Some_0@ == e.record,
                Option::None => r is None,
            },
    {
        let found = self.find_index(key);
        match found {
            Option::Some(i) => {
                proof {
                    lemma_lookup_at_first_match(self@, key@, i as int);
                }
                let e = &self.entries[i];
                proof {
                    assert(self@[i as int] == self.entries@[i as int]@);
                }
                let live = match e.expires_at {
                    Option::None => true,
                    Option::Some(t) => now < t,
                };
                if live {
                    Some(
                        SessionRecord {
                            email: e.record.email.clone(),
                            client_id: e.record.client_id.clone(),
                            code: e.record.code.clone(),
                            redirect: e.record.redirect.clone(),
                        },
                    )
                } else {
                    None
                }
            },
            Option::None => {
                proof {
                    lemma_lookup_no_match(self@, key@);
                }
                None
            },
        }
    }
}

} // verus!
