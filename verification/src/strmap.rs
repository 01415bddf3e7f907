//! A map from strings to values, kept as a list of entries with distinct
//! keys.
use vstd::prelude::*;
use crate::json::same_text;

verus! {

/// No two entries of `e` have the same key.
pub open spec fn distinct_keys<V>(e: Seq<(String, V)>) -> bool {
    forall|i: int, j: int| 0 <= i < j < e.len() ==> (#[trigger] e[i]).0@ != (#[trigger] e[j]).0@
}

/// Some entry of `e` has the key `k`.
pub open spec fn has_key<V>(e: Seq<(String, V)>, k: Seq<char>) -> bool {
    exists|i: int| 0 <= i < e.len() && (#[trigger] e[i]).0@ == k
}

/// The place of an entry of `e` with the key `k`.
pub open spec fn index_of<V>(e: Seq<(String, V)>, k: Seq<char>) -> int {
    choose|i: int| 0 <= i < e.len() && (#[trigger] e[i]).0@ == k
}

/// The map that the entries stand for.
pub open spec fn as_map<V>(e: Seq<(String, V)>) -> Map<Seq<char>, V> {
    Map::new(|k: Seq<char>| has_key(e, k), |k: Seq<char>| e[index_of(e, k)].1)
}

/// With distinct keys, a key's place is the place of the one entry that has
/// it.
pub proof fn lemma_entry<V>(e: Seq<(String, V)>, i: int)
    requires
        distinct_keys(e),
        0 <= i < e.len(),
    ensures
        has_key(e, e[i].0@),
        index_of(e, e[i].0@) == i,
        as_map(e).contains_key(e[i].0@),
        as_map(e)[e[i].0@] == e[i].1,
{
    let k = e[i].0@;
    assert(0 <= i < e.len() && e[i].0@ == k);
    let j = index_of(e, k);
    assert(0 <= j < e.len() && e[j].0@ == k);
    if j < i {
        assert(e[j].0@ != e[i].0@);
    } else if i < j {
        assert(e[i].0@ != e[j].0@);
    }
}

/// Appending an entry with a new key inserts it into the map.
pub proof fn lemma_push<V>(e: Seq<(String, V)>, key: String, value: V)
    requires
        distinct_keys(e),
        !has_key(e, key@),
    ensures
        distinct_keys(e.push((key, value))),
        as_map(e.push((key, value))) == as_map(e).insert(key@, value),
{
    let e2 = e.push((key, value));
    assert forall|i: int, j: int| 0 <= i < j < e2.len() implies (#[trigger] e2[i]).0@ != (
    #[trigger] e2[j]).0@ by {
        if j < e.len() {
            assert(e[i].0@ != e[j].0@);
        } else {
            assert(e2[i] == e[i]);
            if e[i].0@ == key@ {
                assert(has_key(e, key@));
            }
        }
    }
    assert forall|k: Seq<char>| #[trigger] as_map(e2).contains_key(k) <==> as_map(e).insert(
        key@,
        value,
    ).contains_key(k) by {
        if has_key(e2, k) {
            let i = index_of(e2, k);
            if i < e.len() {
                assert(e[i] == e2[i]);
                assert(has_key(e, k));
            }
        }
        if has_key(e, k) {
            let i = index_of(e, k);
            assert(e2[i] == e[i]);
            assert(has_key(e2, k));
        }
        if k == key@ {
            assert(e2[e.len() as int].0@ == k);
            assert(has_key(e2, k));
        }
    }
    assert forall|k: Seq<char>| #[trigger] as_map(e2).contains_key(k) implies as_map(e2)[k]
        == as_map(e).insert(key@, value)[k] by {
        if k == key@ {
            lemma_entry(e2, e.len() as int);
        } else {
            let i = index_of(e2, k);
            assert(i < e.len());
            assert(e2[i] == e[i]);
            lemma_entry(e, i);
        }
    }
    assert(as_map(e2) =~= as_map(e).insert(key@, value));
}

/// Putting a new value in the place of an entry, under the same key, updates
/// the map at that key.
pub proof fn lemma_update<V>(e: Seq<(String, V)>, i: int, key: String, value: V)
    requires
        distinct_keys(e),
        0 <= i < e.len(),
        e[i].0@ == key@,
    ensures
        distinct_keys(e.update(i, (key, value))),
        as_map(e.update(i, (key, value))) == as_map(e).insert(key@, value),
{
    let e2 = e.update(i, (key, value));
    assert forall|a: int, b: int| 0 <= a < b < e2.len() implies (#[trigger] e2[a]).0@ != (
    #[trigger] e2[b]).0@ by {
        assert(e2[a].0@ == e[a].0@);
        assert(e2[b].0@ == e[b].0@);
        assert(e[a].0@ != e[b].0@);
    }
    assert forall|k: Seq<char>| #[trigger] as_map(e2).contains_key(k) <==> as_map(e).insert(
        key@,
        value,
    ).contains_key(k) by {
        if has_key(e2, k) {
            let a = index_of(e2, k);
            assert(e2[a].0@ == e[a].0@);
            assert(has_key(e, k));
        }
        if has_key(e, k) {
            let a = index_of(e, k);
            assert(e2[a].0@ == e[a].0@);
            assert(has_key(e2, k));
        }
        if k == key@ {
            assert(e2[i].0@ == k);
            assert(has_key(e2, k));
        }
    }
    assert forall|k: Seq<char>| #[trigger] as_map(e2).contains_key(k) implies as_map(e2)[k]
        == as_map(e).insert(key@, value)[k] by {
        let a = index_of(e2, k);
        lemma_entry(e2, a);
        if k == key@ {
            lemma_entry(e2, i);
        } else {
            assert(a != i);
            assert(e2[a] == e[a]);
            lemma_entry(e, a);
        }
    }
    assert(as_map(e2) =~= as_map(e).insert(key@, value));
}

/// Taking an entry out removes its key from the map.
pub proof fn lemma_remove<V>(e: Seq<(String, V)>, i: int)
    requires
        distinct_keys(e),
        0 <= i < e.len(),
    ensures
        distinct_keys(e.remove(i)),
        !has_key(e.remove(i), e[i].0@),
        as_map(e.remove(i)) == as_map(e).remove(e[i].0@),
{
    let e2 = e.remove(i);
    let gone = e[i].0@;
    assert forall|a: int| 0 <= a < e2.len() implies #[trigger] e2[a] == e[if a < i {
        a
    } else {
        a + 1
    }] by {}
    assert forall|a: int, b: int| 0 <= a < b < e2.len() implies (#[trigger] e2[a]).0@ != (
    #[trigger] e2[b]).0@ by {
        let a1 = if a < i { a } else { a + 1 };
        let b1 = if b < i { b } else { b + 1 };
        assert(e[a1].0@ != e[b1].0@);
    }
    if has_key(e2, gone) {
        let a = index_of(e2, gone);
        let a1 = if a < i { a } else { a + 1 };
        assert(e2[a] == e[a1]);
        if a1 < i {
            assert(e[a1].0@ != e[i].0@);
        } else {
            assert(e[i].0@ != e[a1].0@);
        }
    }
    assert forall|k: Seq<char>| #[trigger] as_map(e2).contains_key(k) <==> as_map(e).remove(
        gone,
    ).contains_key(k) by {
        if has_key(e2, k) {
            let a = index_of(e2, k);
            let a1 = if a < i { a } else { a + 1 };
            assert(e2[a] == e[a1]);
            assert(has_key(e, k));
        }
        if has_key(e, k) && k != gone {
            let b = index_of(e, k);
            let b2 = if b < i { b } else { b - 1 };
            assert(e2[b2] == e[b]);
            assert(has_key(e2, k));
        }
    }
    assert forall|k: Seq<char>| #[trigger] as_map(e2).contains_key(k) implies as_map(e2)[k]
        == as_map(e).remove(gone)[k] by {
        let a = index_of(e2, k);
        let a1 = if a < i { a } else { a + 1 };
        assert(e2[a] == e[a1]);
        lemma_entry(e, a1);
    }
    assert(as_map(e2) =~= as_map(e).remove(gone));
}

/// A map from strings to values. Its view is the `Map` from each key's
/// characters to the value stored under it.
#[derive(Debug, Clone)]
pub struct StringMap<V> {
    entries: Vec<(String, V)>,
}

impl<V> StringMap<V> {
    /// The map's invariant: every key is stored once.
    pub closed spec fn wf(&self) -> bool {
        distinct_keys(self.entries@)
    }

    /// The entries in the order in which the map holds them.
    pub closed spec fn entries(&self) -> Seq<(String, V)> {
        self.entries@
    }

    pub closed spec fn view(&self) -> Map<Seq<char>, V> {
        as_map(self.entries@)
    }

    /// The number of entries.
    pub open spec fn spec_len(&self) -> nat {
        self.entries().len()
    }

    /// The entries have distinct keys, and the view is the map they stand
    /// for.
    pub proof fn lemma_entries(&self)
        requires
            self.wf(),
        ensures
            distinct_keys(self.entries()),
            self@ == as_map(self.entries()),
    {
    }

    /// An empty map.
    pub fn new() -> (r: Self)
        ensures
            r.wf(),
            r@ == Map::<Seq<char>, V>::empty(),
            r.entries() == Seq::<(String, V)>::empty(),
    {
        let r = StringMap { entries: Vec::new() };
        assert(r@ =~= Map::<Seq<char>, V>::empty());
        r
    }

    /// The number of entries.
    pub fn len(&self) -> (r: usize)
        ensures
            r == self.spec_len(),
    {
        self.entries.len()
    }

    fn position(&self, key: &str) -> (r: Option<usize>)
        requires
            self.wf(),
        ensures
            match r {
                Some(i) => i < self.entries@.len() && self.entries@[i as int].0@ == key@,
                None => !has_key(self.entries@, key@),
            },
    {
        let mut i: usize = 0;
        while i < self.entries.len()
            invariant
                i <= self.entries@.len(),
                forall|j: int| 0 <= j < i ==> (#[trigger] self.entries@[j]).0@ != key@,
            decreases self.entries@.len() - i,
        {
            if same_text(self.entries[i].0.as_str(), key) {
                return Some(i);
            }
            i = i + 1;
        }
        None
    }

    /// Whether a value is stored under `key`.
    pub fn contains_key(&self, key: &str) -> (r: bool)
        requires
            self.wf(),
        ensures
            r == self@.contains_key(key@),
    {
        match self.position(key) {
            Some(i) => {
                proof {
                    lemma_entry(self.entries@, i as int);
                }
                true
            },
            None => false,
        }
    }

    /// The value stored under `key`, if there is one.
    pub fn get(&self, key: &str) -> (r: Option<&V>)
        requires
            self.wf(),
        ensures
            match r {
                Some(v) => self@.contains_key(key@) && self@[key@] == *v,
                None => !self@.contains_key(key@),
            },
    {
        match self.position(key) {
            Some(i) => {
                proof {
                    lemma_entry(self.entries@, i as int);
                }
                Some(&self.entries[i].1)
            },
            None => None,
        }
    }

    /// Stores `value` under `key`. A key that is there keeps its place among
    /// the entries and gets the new value; a new key goes to the end.
    pub fn insert(&mut self, key: String, value: V)
        requires
            old(self).wf(),
        ensures
            final(self).wf(),
            final(self)@ == old(self)@.insert(key@, value),
            final(self).spec_len() == old(self).spec_len() + (if old(self)@.contains_key(key@) {
                0int
            } else {
                1int
            }),
            forall|j: int|
                0 <= j < old(self).spec_len() ==> #[trigger] final(self).entries()[j] == (if old(self).entries()[j].0@ == key@ {
                    (key, value)
                } else {
                    old(self).entries()[j]
                }),
            !old(self)@.contains_key(key@) ==> final(self).entries() == old(self).entries().push(
                (key, value),
            ),
    {
        match self.position(key.as_str()) {
            Some(i) => {
                proof {
                    lemma_entry(self.entries@, i as int);
                    lemma_update(self.entries@, i as int, key, value);
                    assert forall|j: int| 0 <= j < self.entries@.len() && j != i implies (
                    #[trigger] self.entries@[j]).0@ != key@ by {
                        lemma_entry(self.entries@, j);
                    }
                }
                let _ = self.entries.remove(i);
                self.entries.insert(i, (key, value));
                assert(self.entries@ =~= old(self).entries@.update(i as int, (key, value)));
            },
            None => {
                proof {
                    lemma_push(self.entries@, key, value);
                }
                self.entries.push((key, value));
            },
        }
    }

    /// Takes out what is stored under `key`, and returns it.
    pub fn remove(&mut self, key: &str) -> (r: Option<V>)
        requires
            old(self).wf(),
        ensures
            final(self).wf(),
            final(self)@ == old(self)@.remove(key@),
            match r {
                Some(v) => old(self)@.contains_key(key@) && old(self)@[key@] == v
                    && final(self).spec_len() + 1 == old(self).spec_len(),
                None => !old(self)@.contains_key(key@) && final(self).spec_len() == old(self).spec_len(),
            },
    {
        match self.position(key) {
            Some(i) => {
                proof {
                    lemma_entry(self.entries@, i as int);
                    lemma_remove(self.entries@, i as int);
                }
                let entry = self.entries.remove(i);
                Some(entry.1)
            },
            None => {
                assert(old(self)@.remove(key@) =~= old(self)@);
                None
            },
        }
    }

    /// Takes out every entry.
    pub fn clear(&mut self)
        ensures
            final(self).wf(),
            final(self)@ == Map::<Seq<char>, V>::empty(),
            final(self).entries() == Seq::<(String, V)>::empty(),
    {
        self.entries.clear();
        assert(self@ =~= Map::<Seq<char>, V>::empty());
    }

    /// The key of the entry at place `i`.
    pub fn key_at(&self, i: usize) -> (r: &String)
        requires
            i < self.spec_len(),
        ensures
            *r == self.entries()[i as int].0,
    {
        &self.entries[i].0
    }

    /// The value of the entry at place `i`.
    pub fn value_at(&self, i: usize) -> (r: &V)
        requires
            i < self.spec_len(),
        ensures
            *r == self.entries()[i as int].1,
    {
        &self.entries[i].1
    }
}

impl<V: Copy> StringMap<V> {
    /// A copy of the map: the same entries in the same order.
    pub fn duplicate(&self) -> (r: Self)
        requires
            self.wf(),
        ensures
            r.wf(),
            r@ == self@,
            r.entries() == self.entries(),
    {
        let mut copy: Vec<(String, V)> = Vec::new();
        let mut i: usize = 0;
        while i < self.entries.len()
            invariant
                i <= self.entries@.len(),
                copy@ == self.entries@.subrange(0, i as int),
            decreases self.entries@.len() - i,
        {
            let key = self.entries[i].0.clone();
            let value = self.entries[i].1;
            copy.push((key, value));
            i = i + 1;
            assert(copy@ =~= self.entries@.subrange(0, i as int));
        }
        assert(copy@ =~= self.entries@);
        StringMap { entries: copy }
    }
}

} // verus!
