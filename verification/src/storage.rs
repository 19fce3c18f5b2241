//! Capability-style storage dependency of every stateful component: a
//! key-value interface with set/get/delete/list over string keys, and a
//! verified in-memory implementation backed by an association vector.

use vstd::prelude::*;
use vstd::pervasive::VecAdditionalExecFns;

verus! {

/// The character sequences of a list of keys, in order.
pub open spec fn key_views(keys: Seq<String>) -> Seq<Seq<char>> {
    keys.map_values(|s: String| s@)
}

/// A store of values of one owned type under string keys. Stateful
/// components depend only on this interface; deployments may put a
/// persistent backing store behind it, while tests and the in-process
/// default use [`MemoryStore`].
///
/// The mathematical content of a store is the map [`KeyValueStore::kv`]
/// from key text to stored value; every operation's contract is stated
/// over that map.
pub trait KeyValueStore: Sized {
    /// The type of the stored values.
    type Value;

    /// The contents of the store: a map from key text to stored value.
    spec fn kv(&self) -> Map<Seq<char>, Self::Value>;

    /// Stores `value` under `key`, replacing wholesale any value stored
    /// there before.
    fn set(&mut self, key: String, value: Self::Value)
        ensures
            final(self).kv() == old(self).kv().insert(key@, value),
    ;

    /// Returns the value stored under `key`, or `None` if the key is absent.
    fn get(&self, key: &String) -> (r: Option<&Self::Value>)
        ensures
            match r {
                Some(v) => self.kv().contains_key(key@) && *v == self.kv()[key@],
                None => !self.kv().contains_key(key@),
            },
    ;

    /// Removes the value stored under `key` and hands it back, or returns
    /// `None` (leaving the store unchanged) if the key is absent.
    fn del(&mut self, key: &String) -> (r: Option<Self::Value>)
        ensures
            final(self).kv() == old(self).kv().remove(key@),
            match r {
                Some(v) => old(self).kv().contains_key(key@) && v == old(self).kv()[key@],
                None => !old(self).kv().contains_key(key@),
            },
    ;

    /// Lists every stored key exactly once, in store-native order: no key
    /// appears twice, and the listed keys are exactly the store's domain.
    fn list(&self) -> (r: Vec<String>)
        ensures
            forall|i: int, j: int| 0 <= i < j < r@.len() ==> r@[i]@ != r@[j]@,
            forall|i: int| 0 <= i < r@.len() ==> self.kv().contains_key(#[trigger] r@[i]@),
            forall|k: Seq<char>|
                #[trigger] self.kv().contains_key(k) ==> key_views(r@).contains(k),
    ;
}

/// No two entries of the association vector carry the same key text.
spec fn distinct_keys<V>(s: Seq<(String, V)>) -> bool {
    forall|i: int, j: int| 0 <= i < j < s.len() ==> s[i].0@ != s[j].0@
}

/// The map an association vector denotes; a later entry for the same key
/// overrides an earlier one.
spec fn map_of<V>(s: Seq<(String, V)>) -> Map<Seq<char>, V>
    decreases s.len(),
{
    if s.len() == 0 {
        Map::empty()
    } else {
        map_of(s.drop_last()).insert(s.last().0@, s.last().1)
    }
}

proof fn lemma_map_of_contains<V>(s: Seq<(String, V)>, k: Seq<char>)
    ensures
        map_of(s).contains_key(k) <==> (exists|i: int| 0 <= i < s.len() && s[i].0@ == k),
    decreases s.len(),
{
    if s.len() > 0 {
        lemma_map_of_contains(s.drop_last(), k);
        if s.last().0@ == k {
            assert(s[s.len() - 1].0@ == k);
        } else {
            if map_of(s).contains_key(k) {
                let i = choose|i: int| 0 <= i < s.drop_last().len() && s.drop_last()[i].0@ == k;
                assert(s[i].0@ == k);
            }
            if exists|i: int| 0 <= i < s.len() && s[i].0@ == k {
                let i = choose|i: int| 0 <= i < s.len() && s[i].0@ == k;
                assert(i < s.len() - 1);
                assert(s.drop_last()[i].0@ == k);
            }
        }
    }
}

proof fn lemma_map_of_index<V>(s: Seq<(String, V)>, i: int)
    requires
        distinct_keys(s),
        0 <= i < s.len(),
    ensures
        map_of(s).contains_key(s[i].0@),
        map_of(s)[s[i].0@] == s[i].1,
    decreases s.len(),
{
    if i == s.len() - 1 {
    } else {
        assert(distinct_keys(s.drop_last())) by {
            assert(forall|a: int, b: int|
                0 <= a < b < s.drop_last().len() ==> s.drop_last()[a].0@ != s.drop_last()[b].0@);
        }
        lemma_map_of_index(s.drop_last(), i);
        assert(s.drop_last()[i] == s[i]);
        assert(s[i].0@ != s.last().0@);
    }
}

proof fn lemma_map_of_push<V>(s: Seq<(String, V)>, e: (String, V))
    ensures
        map_of(s.push(e)) == map_of(s).insert(e.0@, e.1),
{
    assert(s.push(e).drop_last() =~= s);
    assert(s.push(e).last() == e);
}

proof fn lemma_map_of_update<V>(s: Seq<(String, V)>, i: int, e: (String, V))
    requires
        distinct_keys(s),
        0 <= i < s.len(),
        e.0@ == s[i].0@,
    ensures
        distinct_keys(s.update(i, e)),
        map_of(s.update(i, e)) == map_of(s).insert(e.0@, e.1),
{
    let t = s.update(i, e);
    assert(forall|a: int| 0 <= a < s.len() ==> t[a].0@ == s[a].0@);
    assert(distinct_keys(t));
    assert forall|k: Seq<char>| #[trigger] map_of(t).contains_key(k)
        == map_of(s).insert(e.0@, e.1).contains_key(k) by {
        lemma_map_of_contains(t, k);
        lemma_map_of_contains(s, k);
        if exists|a: int| 0 <= a < s.len() && s[a].0@ == k {
            let a = choose|a: int| 0 <= a < s.len() && s[a].0@ == k;
            assert(t[a].0@ == k);
        }
        if exists|a: int| 0 <= a < t.len() && t[a].0@ == k {
            let a = choose|a: int| 0 <= a < t.len() && t[a].0@ == k;
            assert(s[a].0@ == k);
        }
    }
    assert forall|k: Seq<char>| map_of(t).contains_key(k)
        implies #[trigger] map_of(t)[k] == map_of(s).insert(e.0@, e.1)[k] by {
        lemma_map_of_contains(t, k);
        let a = choose|a: int| 0 <= a < t.len() && t[a].0@ == k;
        lemma_map_of_index(t, a);
        if k == e.0@ {
            assert(a == i) by {
                if a != i {
                    assert(t[a].0@ == s[a].0@);
                    if a < i {
                        assert(s[a].0@ != s[i].0@);
                    } else {
                        assert(s[i].0@ != s[a].0@);
                    }
                }
            }
        } else {
            assert(a != i);
            assert(t[a] == s[a]);
            lemma_map_of_index(s, a);
        }
    }
    assert(map_of(t) =~= map_of(s).insert(e.0@, e.1));
}

proof fn lemma_map_of_remove<V>(s: Seq<(String, V)>, i: int)
    requires
        distinct_keys(s),
        0 <= i < s.len(),
    ensures
        distinct_keys(s.remove(i)),
        map_of(s.remove(i)) == map_of(s).remove(s[i].0@),
    decreases s.len(),
{
    let t = s.remove(i);
    let k0 = s[i].0@;
    assert(forall|a: int| 0 <= a < i ==> t[a] == s[a]);
    assert(forall|a: int| i <= a < t.len() ==> t[a] == s[a + 1]);
    assert(distinct_keys(t)) by {
        assert forall|a: int, b: int| 0 <= a < b < t.len() implies t[a].0@ != t[b].0@ by {
            if b < i {
                assert(s[a].0@ != s[b].0@);
            } else if a < i {
                assert(s[a].0@ != s[b + 1].0@);
            } else {
                assert(s[a + 1].0@ != s[b + 1].0@);
            }
        }
    }
    assert forall|k: Seq<char>| #[trigger] map_of(t).contains_key(k)
        == map_of(s).remove(k0).contains_key(k) by {
        lemma_map_of_contains(t, k);
        lemma_map_of_contains(s, k);
        if exists|a: int| 0 <= a < t.len() && t[a].0@ == k {
            let a = choose|a: int| 0 <= a < t.len() && t[a].0@ == k;
            if a < i {
                assert(s[a].0@ == k);
                assert(k != k0) by {
                    assert(s[a].0@ != s[i].0@);
                }
            } else {
                assert(s[a + 1].0@ == k);
                assert(k != k0) by {
                    assert(s[i].0@ != s[a + 1].0@);
                }
            }
        }
        if k != k0 && (exists|a: int| 0 <= a < s.len() && s[a].0@ == k) {
            let a = choose|a: int| 0 <= a < s.len() && s[a].0@ == k;
            assert(a != i);
            if a < i {
                assert(t[a].0@ == k);
            } else {
                assert(t[a - 1].0@ == k);
            }
        }
    }
    assert forall|k: Seq<char>| map_of(t).contains_key(k)
        implies #[trigger] map_of(t)[k] == map_of(s).remove(k0)[k] by {
        lemma_map_of_contains(t, k);
        let a = choose|a: int| 0 <= a < t.len() && t[a].0@ == k;
        lemma_map_of_index(t, a);
        if a < i {
            lemma_map_of_index(s, a);
        } else {
            lemma_map_of_index(s, a + 1);
        }
    }
    assert(map_of(t) =~= map_of(s).remove(k0));
}

/// An in-memory key-value store: an association vector whose entries carry
/// pairwise distinct keys. The default store of the in-process deployment
/// and of the tests.
pub struct MemoryStore<V> {
    entries: Vec<(String, V)>,
}

impl<V> MemoryStore<V> {
    #[verifier::type_invariant]
    spec fn wf(self) -> bool {
        distinct_keys(self.entries@)
    }

    /// Creates an empty store.
    pub fn new() -> (r: Self)
        ensures
            r.kv() == Map::<Seq<char>, V>::empty(),
    {
        MemoryStore { entries: Vec::new() }
    }
}

/// The index of the first entry carrying `key`, if any.
fn find_key<V>(entries: &Vec<(String, V)>, key: &String) -> (r: Option<usize>)
    ensures
        match r {
            Some(i) => i < entries@.len() && entries@[i as int].0@ == key@,
            None => forall|j: int| 0 <= j < entries@.len() ==> entries@[j].0@ != key@,
        },
{
    let n = entries.len();
    let mut i: usize = 0;
    while i < n
        invariant
            i <= n,
            n == entries@.len(),
            forall|j: int| 0 <= j < i ==> entries@[j].0@ != key@,
        decreases n - i,
    {
        let e = &entries[i];
        if e.0 == *key {
            return Some(i);
        }
        i = i + 1;
    }
    None
}

impl<V> KeyValueStore for MemoryStore<V> {
    type Value = V;

    closed spec fn kv(&self) -> Map<Seq<char>, V> {
        map_of(self.entries@)
    }

    fn set(&mut self, key: String, value: V) {
        proof {
            use_type_invariant(&*self);
        }
        let mut entries: Vec<(String, V)> = Vec::new();
        std::mem::swap(&mut entries, &mut self.entries);
        let ghost s0 = entries@;
        match find_key(&entries, &key) {
            Some(i) => {
                proof {
                    lemma_map_of_update(s0, i as int, (key, value));
                }
                entries.set(i, (key, value));
            },
            None => {
                proof {
                    lemma_map_of_push(s0, (key, value));
                    lemma_map_of_contains(s0, key@);
                }
                entries.push((key, value));
            },
        }
        self.entries = entries;
    }

    fn get(&self, key: &String) -> (r: Option<&V>) {
        proof {
            use_type_invariant(self);
        }
        match find_key(&self.entries, key) {
            Some(i) => {
                proof {
                    lemma_map_of_index(self.entries@, i as int);
                }
                Some(&self.entries[i].1)
            },
            None => {
                proof {
                    lemma_map_of_contains(self.entries@, key@);
                }
                None
            },
        }
    }

    fn del(&mut self, key: &String) -> (r: Option<V>) {
        proof {
            use_type_invariant(&*self);
        }
        let mut entries: Vec<(String, V)> = Vec::new();
        std::mem::swap(&mut entries, &mut self.entries);
        let ghost s0 = entries@;
        let r = match find_key(&entries, key) {
            Some(i) => {
                proof {
                    lemma_map_of_index(s0, i as int);
                    lemma_map_of_remove(s0, i as int);
                }
                let e = entries.remove(i);
                Some(e.1)
            },
            None => {
                proof {
                    lemma_map_of_contains(s0, key@);
                    assert(map_of(s0).remove(key@) =~= map_of(s0));
                }
                None
            },
        };
        self.entries = entries;
        r
    }

    fn list(&self) -> (r: Vec<String>) {
        proof {
            use_type_invariant(self);
        }
        let n = self.entries.len();
        let mut r: Vec<String> = Vec::new();
        let mut i: usize = 0;
        while i < n
            invariant
                i <= n,
                n == self.entries@.len(),
                r@.len() == i,
                forall|j: int| 0 <= j < i ==> r@[j] == self.entries@[j].0,
            decreases n - i,
        {
            let e = &self.entries[i];
            r.push(e.0.clone());
            i = i + 1;
        }
        proof {
            assert forall|a: int, b: int| 0 <= a < b < r@.len() implies r@[a]@ != r@[b]@ by {
                assert(r@[a]@ == self.entries@[a].0@);
                assert(r@[b]@ == self.entries@[b].0@);
            }
            assert forall|a: int| 0 <= a < r@.len() implies self.kv().contains_key(
                #[trigger] r@[a]@,
            ) by {
                lemma_map_of_index(self.entries@, a);
            }
            assert forall|k: Seq<char>| #[trigger] self.kv().contains_key(k) implies key_views(
                r@,
            ).contains(k) by {
                lemma_map_of_contains(self.entries@, k);
                let a = choose|a: int| 0 <= a < self.entries@.len() && self.entries@[a].0@ == k;
                assert(key_views(r@)[a] == r@[a]@);
                assert(key_views(r@)[a] == k);
            }
        }
        r
    }
}

} // verus!
