//! An ephemeral key-value store with per-key expiry: the library's model of
//! the single-key read/write semantics that the token service needs from its
//! backing store. Keys are strings; every entry carries the instant, in
//! milliseconds, at which it lapses. All reads take the current instant and
//! treat an entry whose expiry is not in the future as absent.

use vstd::prelude::*;

use crate::text::str_eq;

verus! {

/// Whether `key` is present in `m` and not yet expired at `now`.
pub open spec fn spec_live<W>(m: Map<Seq<char>, (W, u64)>, key: Seq<char>, now: u64) -> bool {
    m.contains_key(key) && m[key].1 > now
}

struct KvEntry<T> {
    key: String,
    value: T,
    expires_at: u64,
}

/// A string-keyed store of values of type `T`, each bound to an expiry
/// instant. Its view is the map from key to (value view, expiry).
pub struct ExpiringKv<T> {
    entries: Vec<KvEntry<T>>,
}

spec fn unique_keys<T>(s: Seq<KvEntry<T>>) -> bool {
    forall|i: int, j: int| 0 <= i < j < s.len() ==> s[i].key@ != s[j].key@
}

spec fn entries_map<T: View>(s: Seq<KvEntry<T>>) -> Map<Seq<char>, (T::V, u64)>
    decreases s.len(),
{
    if s.len() == 0 {
        Map::empty()
    } else {
        entries_map(s.drop_last()).insert(
            s.last().key@,
            (s.last().value@, s.last().expires_at),
        )
    }
}

proof fn lemma_entries_map_dom<T: View>(s: Seq<KvEntry<T>>, k: Seq<char>)
    ensures
        entries_map(s).contains_key(k) <==> exists|i: int| 0 <= i < s.len() && s[i].key@ == k,
    decreases s.len(),
{
    if s.len() > 0 {
        lemma_entries_map_dom(s.drop_last(), k);
        if entries_map(s).contains_key(k) {
            if s.last().key@ == k {
                assert(s[s.len() - 1].key@ == k);
            } else {
                let i = choose|i: int| 0 <= i < s.drop_last().len() && s.drop_last()[i].key@ == k;
                assert(s[i].key@ == k);
            }
        }
        if exists|i: int| 0 <= i < s.len() && s[i].key@ == k {
            let i = choose|i: int| 0 <= i < s.len() && s[i].key@ == k;
            if i < s.len() - 1 {
                assert(s.drop_last()[i].key@ == k);
            }
        }
    }
}

proof fn lemma_entries_map_at<T: View>(s: Seq<KvEntry<T>>, i: int)
    requires
        unique_keys(s),
        0 <= i < s.len(),
    ensures
        entries_map(s).contains_key(s[i].key@),
        entries_map(s)[s[i].key@] == (s[i].value@, s[i].expires_at),
    decreases s.len(),
{
    if i == s.len() - 1 {
    } else {
        assert(unique_keys(s.drop_last()));
        lemma_entries_map_at(s.drop_last(), i);
        assert(s[i].key@ != s.last().key@);
    }
}

proof fn lemma_entries_map_push<T: View>(s: Seq<KvEntry<T>>, e: KvEntry<T>)
    ensures
        entries_map(s.push(e)) == entries_map(s).insert(e.key@, (e.value@, e.expires_at)),
{
    assert(s.push(e).drop_last() =~= s);
    assert(s.push(e).last() == e);
}

proof fn lemma_entries_map_update<T: View>(s: Seq<KvEntry<T>>, i: int, e: KvEntry<T>)
    requires
        unique_keys(s),
        0 <= i < s.len(),
        e.key@ == s[i].key@,
    ensures
        entries_map(s.update(i, e)) =~= entries_map(s).insert(e.key@, (e.value@, e.expires_at)),
    decreases s.len(),
{
    let t = s.update(i, e);
    if i == s.len() - 1 {
        assert(t.drop_last() =~= s.drop_last());
        assert(t.last() == e);
        assert(entries_map(t) == entries_map(s.drop_last()).insert(
            e.key@,
            (e.value@, e.expires_at),
        ));
        assert(entries_map(s.drop_last()).insert(s.last().key@, (s.last().value@, s.last().expires_at)).insert(e.key@, (e.value@, e.expires_at)) =~= entries_map(s.drop_last()).insert(
            e.key@,
            (e.value@, e.expires_at),
        ));
    } else {
        assert(unique_keys(s.drop_last()));
        assert(t.drop_last() =~= s.drop_last().update(i, e));
        assert(t.last() == s.last());
        lemma_entries_map_update(s.drop_last(), i, e);
        assert(s[i].key@ != s.last().key@);
    }
}

proof fn lemma_entries_map_remove<T: View>(s: Seq<KvEntry<T>>, i: int)
    requires
        unique_keys(s),
        0 <= i < s.len(),
    ensures
        entries_map(s.remove(i)) =~= entries_map(s).remove(s[i].key@),
    decreases s.len(),
{
    let k = s[i].key@;
    if i == s.len() - 1 {
        assert(s.remove(i) =~= s.drop_last());
        assert(forall|j: int| 0 <= j < s.drop_last().len() ==> s.drop_last()[j].key@ != k);
        lemma_entries_map_dom(s.drop_last(), k);
        assert(entries_map(s) == entries_map(s.drop_last()).insert(
            k,
            (s.last().value@, s.last().expires_at),
        ));
        assert(entries_map(s).remove(k) =~= entries_map(s.drop_last()));
    } else {
        assert(unique_keys(s.drop_last()));
        assert(s.remove(i).drop_last() =~= s.drop_last().remove(i));
        assert(s.remove(i).last() == s.last());
        lemma_entries_map_remove(s.drop_last(), i);
        assert(s[i].key@ != s.last().key@);
        assert(entries_map(s.remove(i)) == entries_map(s.drop_last().remove(i)).insert(
            s.last().key@,
            (s.last().value@, s.last().expires_at),
        ));
    }
}

impl<T: View> View for ExpiringKv<T> {
    type V = Map<Seq<char>, (T::V, u64)>;

    closed spec fn view(&self) -> Map<Seq<char>, (T::V, u64)> {
        entries_map(self.entries@)
    }
}

impl<T: View> ExpiringKv<T> {
    /// The store's internal invariant: no key occurs twice.
    pub closed spec fn wf(&self) -> bool {
        unique_keys(self.entries@)
    }

    /// An empty store.
    pub fn new() -> (kv: Self)
        ensures
            kv.wf(),
            kv@ == Map::<Seq<char>, (T::V, u64)>::empty(),
    {
        ExpiringKv { entries: Vec::new() }
    }

    fn find_index(&self, key: &str) -> (r: Option<usize>)
        ensures
            match r {
                Some(i) => i < self.entries@.len() && self.entries@[i as int].key@ == key@,
                None => forall|j: int|
                    0 <= j < self.entries@.len() ==> self.entries@[j].key@ != key@,
            },
    {
        let mut i: usize = 0;
        while i < self.entries.len()
            invariant
                i <= self.entries@.len(),
                forall|j: int| 0 <= j < i ==> self.entries@[j].key@ != key@,
            decreases self.entries@.len() - i,
        {
            if str_eq(self.entries[i].key.as_str(), key) {
                return Some(i);
            }
            i = i + 1;
        }
        None
    }

    /// Binds `key` to `value` until `expires_at`, replacing any previous
    /// binding of the same key.
    pub fn set(&mut self, key: String, value: T, expires_at: u64)
        requires
            old(self).wf(),
        ensures
            final(self).wf(),
            final(self)@ == old(self)@.insert(key@, (value@, expires_at)),
    {
        let entry = KvEntry { key, value, expires_at };
        let found = self.find_index(entry.key.as_str());
        match found {
            Some(i) => {
                proof {
                    lemma_entries_map_update(self.entries@, i as int, entry);
                    assert(forall|a: int, b: int|
                        0 <= a < b < self.entries@.update(i as int, entry).len() ==> self.entries@.update(
                            i as int,
                            entry,
                        )[a].key@ != self.entries@.update(i as int, entry)[b].key@);
                }
                self.entries[i] = entry;
            },
            None => {
                proof {
                    lemma_entries_map_push(self.entries@, entry);
                    assert(forall|a: int, b: int|
                        0 <= a < b < self.entries@.push(entry).len()
                            ==> self.entries@.push(entry)[a].key@ != self.entries@.push(
                            entry,
                        )[b].key@);
                }
                self.entries.push(entry);
            },
        }
    }

    /// Looks `key` up at instant `now`: the value and its expiry if the
    /// binding is live, and nothing if it is absent or has lapsed.
    pub fn get(&self, key: &str, now: u64) -> (r: Option<(&T, u64)>)
        requires
            self.wf(),
        ensures
            r is Some <==> spec_live(self@, key@, now),
            r matches Some(p) ==> p.0@ == self@[key@].0 && p.1 == self@[key@].1,
    {
        let found = self.find_index(key);
        match found {
            Some(i) => {
                proof {
                    lemma_entries_map_at(self.entries@, i as int);
                }
                let entry = &self.entries[i];
                if entry.expires_at > now {
                    Some((&entry.value, entry.expires_at))
                } else {
                    None
                }
            },
            None => {
                proof {
                    lemma_entries_map_dom(self.entries@, key@);
                }
                None
            },
        }
    }

    /// Unbinds `key`; absent keys are left as they are, without error.
    pub fn remove(&mut self, key: &str)
        requires
            old(self).wf(),
        ensures
            final(self).wf(),
            final(self)@ == old(self)@.remove(key@),
    {
        let found = self.find_index(key);
        match found {
            Some(i) => {
                proof {
                    lemma_entries_map_remove(self.entries@, i as int);
                    let removed = self.entries@.remove(i as int);
                    assert(forall|a: int, b: int|
                        0 <= a < b < removed.len() ==> removed[a].key@ != removed[b].key@);
                }
                self.entries.remove(i);
            },
            None => {
                proof {
                    lemma_entries_map_dom(self.entries@, key@);
                    assert(self@.remove(key@) =~= self@);
                }
            },
        }
    }

    /// Unbinds `key` and hands back its value and expiry if the binding was
    /// live at `now`: lookup and removal in one step, so that no second
    /// caller can observe the binding in between.
    pub fn take(&mut self, key: &str, now: u64) -> (r: Option<(T, u64)>)
        requires
            old(self).wf(),
        ensures
            final(self).wf(),
            final(self)@ == old(self)@.remove(key@),
            r is Some <==> spec_live(old(self)@, key@, now),
            r matches Some(p) ==> p.0@ == old(self)@[key@].0 && p.1 == old(self)@[key@].1,
    {
        let found = self.find_index(key);
        match found {
            Some(i) => {
                proof {
                    lemma_entries_map_at(self.entries@, i as int);
                    lemma_entries_map_remove(self.entries@, i as int);
                    let removed = self.entries@.remove(i as int);
                    assert(forall|a: int, b: int|
                        0 <= a < b < removed.len() ==> removed[a].key@ != removed[b].key@);
                }
                let entry = self.entries.remove(i);
                if entry.expires_at > now {
                    Some((entry.value, entry.expires_at))
                } else {
                    None
                }
            },
            None => {
                proof {
                    lemma_entries_map_dom(self.entries@, key@);
                    assert(self@.remove(key@) =~= self@);
                }
                None
            },
        }
    }
}

} // verus!
