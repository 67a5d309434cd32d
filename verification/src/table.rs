//! A small association list keyed by text.
//!
//! The kernel keeps three tables keyed by a job's external id. Each is a
//! `Table`: a vector of `(key, value)` pairs in which no key occurs twice,
//! viewed as a mathematical map from the key's characters to the value.

use vstd::prelude::*;

verus! {

/// Whether index `i` of `s` holds the key `k`.
pub open spec fn holds_key<V>(s: Seq<(String, V)>, i: int, k: Seq<char>) -> bool {
    0 <= i < s.len() && s[i].0@ == k
}

/// No key occurs at two places of `s`.
pub open spec fn distinct_keys<V>(s: Seq<(String, V)>) -> bool {
    forall|i: int, j: int| 0 <= i < j < s.len() ==> s[i].0@ != s[j].0@
}

/// The map that a list of pairs with distinct keys stands for.
pub open spec fn pairs_to_map<V>(s: Seq<(String, V)>) -> Map<Seq<char>, V> {
    Map::new(
        |k: Seq<char>| exists|i: int| holds_key(s, i, k),
        |k: Seq<char>| s[choose|i: int| holds_key(s, i, k)].1,
    )
}

/// In a list with distinct keys, the pair at `i` is what the map holds
/// under that pair's key.
pub proof fn lemma_pair_is_mapped<V>(s: Seq<(String, V)>, i: int)
    requires
        distinct_keys(s),
        0 <= i < s.len(),
    ensures
        pairs_to_map(s).contains_key(s[i].0@),
        pairs_to_map(s)[s[i].0@] == s[i].1,
{
    let k = s[i].0@;
    assert(holds_key(s, i, k));
    let j = choose|j: int| holds_key(s, j, k);
    assert(holds_key(s, j, k));
    if j < i {
        assert(s[j].0@ != s[i].0@);
    } else if i < j {
        assert(s[i].0@ != s[j].0@);
    }
}

/// Appending a pair under a key that the list lacks inserts it into the map.
pub proof fn lemma_push_inserts<V>(s: Seq<(String, V)>, key: String, value: V)
    requires
        distinct_keys(s),
        !pairs_to_map(s).contains_key(key@),
    ensures
        distinct_keys(s.push((key, value))),
        pairs_to_map(s.push((key, value))) == pairs_to_map(s).insert(key@, value),
{
    let t = s.push((key, value));
    assert forall|i: int, j: int| 0 <= i < j < t.len() implies t[i].0@ != t[j].0@ by {
        if j == s.len() {
            if t[i].0@ == key@ {
                assert(holds_key(s, i, key@));
            }
        } else {
            assert(s[i].0@ != s[j].0@);
        }
    }
    let m = pairs_to_map(s).insert(key@, value);
    assert forall|k: Seq<char>| pairs_to_map(t).contains_key(k) == m.contains_key(k) by {
        if pairs_to_map(t).contains_key(k) {
            let i = choose|i: int| holds_key(t, i, k);
            if i < s.len() {
                assert(holds_key(s, i, k));
            }
        }
        if m.contains_key(k) {
            if k == key@ {
                assert(holds_key(t, s.len() as int, k));
            } else {
                let i = choose|i: int| holds_key(s, i, k);
                assert(holds_key(t, i, k));
            }
        }
    }
    assert forall|k: Seq<char>| pairs_to_map(t).contains_key(k) implies pairs_to_map(t)[k]
        == m[k] by {
        let i = choose|i: int| holds_key(t, i, k);
        lemma_pair_is_mapped(t, i);
        if i < s.len() {
            lemma_pair_is_mapped(s, i);
        }
    }
    assert(pairs_to_map(t) =~= m);
}

/// Taking the pair at `i` out of the list removes its key from the map.
pub proof fn lemma_remove_removes<V>(s: Seq<(String, V)>, i: int)
    requires
        distinct_keys(s),
        0 <= i < s.len(),
    ensures
        distinct_keys(s.remove(i)),
        pairs_to_map(s.remove(i)) == pairs_to_map(s).remove(s[i].0@),
{
    let t = s.remove(i);
    let gone = s[i].0@;
    assert forall|a: int, b: int| 0 <= a < b < t.len() implies t[a].0@ != t[b].0@ by {
        let a0 = if a < i { a } else { a + 1 };
        let b0 = if b < i { b } else { b + 1 };
        assert(s[a0].0@ != s[b0].0@);
    }
    let m = pairs_to_map(s).remove(gone);
    assert forall|k: Seq<char>| pairs_to_map(t).contains_key(k) == m.contains_key(k) by {
        if pairs_to_map(t).contains_key(k) {
            let a = choose|a: int| holds_key(t, a, k);
            let a0 = if a < i { a } else { a + 1 };
            assert(holds_key(s, a0, k));
            if a0 < i {
                assert(s[a0].0@ != s[i].0@);
            } else {
                assert(s[i].0@ != s[a0].0@);
            }
        }
        if m.contains_key(k) {
            let a0 = choose|a0: int| holds_key(s, a0, k);
            let a = if a0 < i { a0 } else { a0 - 1 };
            assert(holds_key(t, a, k));
        }
    }
    assert forall|k: Seq<char>| pairs_to_map(t).contains_key(k) implies pairs_to_map(t)[k]
        == m[k] by {
        let a = choose|a: int| holds_key(t, a, k);
        let a0 = if a < i { a } else { a + 1 };
        lemma_pair_is_mapped(t, a);
        lemma_pair_is_mapped(s, a0);
    }
    assert(pairs_to_map(t) =~= m);
}

/// A table from text keys to values of type `V`.
pub struct Table<V> {
    entries: Vec<(String, V)>,
}

impl<V> View for Table<V> {
    type V = Map<Seq<char>, V>;

    closed spec fn view(&self) -> Map<Seq<char>, V> {
        pairs_to_map(self.entries@)
    }
}

impl<V> Table<V> {
    /// The table's invariant: no key occurs twice.
    pub closed spec fn wf(&self) -> bool {
        distinct_keys(self.entries@)
    }

    /// The number of keys bound.
    pub closed spec fn spec_len(&self) -> nat {
        self.entries@.len()
    }

    /// The keys as the table holds them, one for each pair.
    pub closed spec fn keys(&self) -> Seq<Seq<char>> {
        Seq::new(self.entries@.len(), |i: int| self.entries@[i].0@)
    }

    /// A table holds one pair for each key that it binds, and none besides.
    pub proof fn lemma_one_pair_per_key(&self)
        requires
            self.wf(),
        ensures
            self.keys().no_duplicates(),
            self.keys().len() == self.spec_len(),
            forall|k: Seq<char>| self.keys().contains(k) <==> self@.contains_key(k),
    {
        let keys = self.keys();
        assert forall|k: Seq<char>| keys.contains(k) <==> self@.contains_key(k) by {
            if keys.contains(k) {
                let i = choose|i: int| 0 <= i < keys.len() && keys[i] == k;
                assert(holds_key(self.entries@, i, k));
            }
            if self@.contains_key(k) {
                let i = choose|i: int| holds_key(self.entries@, i, k);
                assert(keys[i] == k);
            }
        }
        assert forall|i: int, j: int| 0 <= i < keys.len() && 0 <= j < keys.len() && i != j implies keys[i]
            != keys[j] by {
            if i < j {
                assert(self.entries@[i].0@ != self.entries@[j].0@);
            } else {
                assert(self.entries@[j].0@ != self.entries@[i].0@);
            }
        }
    }

    /// An empty table.
    pub fn new() -> (t: Self)
        ensures
            t.wf(),
            t@ == Map::<Seq<char>, V>::empty(),
            t.spec_len() == 0,
    {
        let t = Table { entries: Vec::new() };
        assert(t@ =~= Map::<Seq<char>, V>::empty());
        t
    }

    /// The number of keys bound.
    pub fn len(&self) -> (n: usize)
        ensures
            n == self.spec_len(),
    {
        self.entries.len()
    }

    /// The place of `key` among the entries, if it is bound.
    fn position(&self, key: &str) -> (at: Option<usize>)
        requires
            self.wf(),
        ensures
            match at {
                Some(i) => holds_key(self.entries@, i as int, key@),
                None => !self@.contains_key(key@),
            },
    {
        let wanted = key.to_owned();
        let mut i: usize = 0;
        while i < self.entries.len()
            invariant
                i <= self.entries@.len(),
                wanted@ == key@,
                forall|j: int| 0 <= j < i ==> self.entries@[j].0@ != key@,
            decreases self.entries@.len() - i,
        {
            if self.entries[i].0 == wanted {
                return Some(i);
            }
            i += 1;
        }
        assert forall|j: int| !holds_key(self.entries@, j, key@) by {}
        None
    }

    /// Whether `key` is bound.
    pub fn contains_key(&self, key: &str) -> (found: bool)
        requires
            self.wf(),
        ensures
            found == self@.contains_key(key@),
    {
        match self.position(key) {
            Some(i) => {
                assert(holds_key(self.entries@, i as int, key@));
                true
            },
            None => false,
        }
    }

    /// The value bound to `key`.
    pub fn get(&self, key: &str) -> (found: Option<&V>)
        requires
            self.wf(),
        ensures
            match found {
                Some(v) => self@.contains_key(key@) && *v == self@[key@],
                None => !self@.contains_key(key@),
            },
    {
        match self.position(key) {
            Some(i) => {
                proof {
                    lemma_pair_is_mapped(self.entries@, i as int);
                }
                Some(&self.entries[i].1)
            },
            None => None,
        }
    }

    /// Unbinds `key` and hands back what it was bound to.
    pub fn remove(&mut self, key: &str) -> (prev: Option<V>)
        requires
            old(self).wf(),
        ensures
            final(self).wf(),
            final(self)@ == old(self)@.remove(key@),
            match prev {
                Some(v) => old(self)@.contains_key(key@) && v == old(self)@[key@],
                None => !old(self)@.contains_key(key@),
            },
    {
        match self.position(key) {
            Some(i) => {
                proof {
                    lemma_pair_is_mapped(self.entries@, i as int);
                    lemma_remove_removes(self.entries@, i as int);
                }
                let pair = self.entries.remove(i);
                Some(pair.1)
            },
            None => {
                assert(self@.remove(key@) =~= self@);
                None
            },
        }
    }

    /// Binds `key` to `value` and hands back what it was bound to before.
    pub fn insert(&mut self, key: String, value: V) -> (prev: Option<V>)
        requires
            old(self).wf(),
        ensures
            final(self).wf(),
            final(self)@ == old(self)@.insert(key@, value),
            match prev {
                Some(v) => old(self)@.contains_key(key@) && v == old(self)@[key@],
                None => !old(self)@.contains_key(key@),
            },
    {
        let prev = self.remove(key.as_str());
        proof {
            lemma_push_inserts(self.entries@, key, value);
            assert(old(self)@.remove(key@).insert(key@, value) =~= old(self)@.insert(key@, value));
        }
        self.entries.push((key, value));
        prev
    }
}

} // verus!
