//! An insertion-ordered table keyed by text, in which no key occurs twice.
//!
//! The stream directory and the viewer table are both built on it.

use vstd::prelude::*;

verus! {

/// No two entries of `s` carry the same key.
pub open spec fn distinct_keys<V>(s: Seq<(Seq<char>, V)>) -> bool {
    forall|i: int, j: int| 0 <= i < j < s.len() ==> s[i].0 != s[j].0
}

/// Some entry of `s` carries `key`.
pub open spec fn has_key<V>(s: Seq<(Seq<char>, V)>, key: Seq<char>) -> bool {
    exists|i: int| 0 <= i < s.len() && #[trigger] s[i].0 == key
}

/// The position of the first entry of `s` that carries `key`; `s.len()` if
/// there is none.
pub open spec fn key_index<V>(s: Seq<(Seq<char>, V)>, key: Seq<char>) -> int
    decreases s.len(),
{
    if s.len() == 0 {
        0
    } else if s[0].0 == key {
        0
    } else {
        1 + key_index(s.drop_first(), key)
    }
}

/// The entries of `s` read as a mapping from key to value, the first entry
/// for a key deciding.
pub open spec fn as_map<V>(s: Seq<(Seq<char>, V)>) -> Map<Seq<char>, V> {
    Map::new(|k: Seq<char>| has_key(s, k), |k: Seq<char>| s[key_index(s, k)].1)
}

/// `key_index` stays within bounds, finds `key` when it is there, and passes
/// over no entry that carries it.
pub proof fn lemma_key_index<V>(s: Seq<(Seq<char>, V)>, key: Seq<char>)
    ensures
        0 <= key_index(s, key) <= s.len(),
        has_key(s, key) <==> key_index(s, key) < s.len(),
        key_index(s, key) < s.len() ==> s[key_index(s, key)].0 == key,
        forall|j: int| 0 <= j < key_index(s, key) ==> s[j].0 != key,
    decreases s.len(),
{
    if s.len() == 0 {
    } else if s[0].0 == key {
    } else {
        let t = s.drop_first();
        lemma_key_index(t, key);
        let k = key_index(t, key);
        assert forall|j: int| 0 <= j < 1 + k implies s[j].0 != key by {
            if j > 0 {
                assert(t[j - 1] == s[j]);
            }
        }
        if k < t.len() {
            assert(t[k] == s[k + 1]);
        }
        if has_key(s, key) {
            let i = choose|i: int| 0 <= i < s.len() && #[trigger] s[i].0 == key;
            assert(t[i - 1] == s[i]);
            assert(has_key(t, key));
        }
    }
}

/// Where keys are distinct, the one entry that carries `key` is where
/// `key_index` points.
pub proof fn lemma_key_index_unique<V>(s: Seq<(Seq<char>, V)>, i: int)
    requires
        distinct_keys(s),
        0 <= i < s.len(),
    ensures
        key_index(s, s[i].0) == i,
        has_key(s, s[i].0),
{
    lemma_key_index(s, s[i].0);
}

/// Appending an entry under a fresh key adds that key to the mapping.
pub proof fn lemma_as_map_push<V>(s: Seq<(Seq<char>, V)>, key: Seq<char>, value: V)
    requires
        distinct_keys(s),
        !has_key(s, key),
    ensures
        distinct_keys(s.push((key, value))),
        as_map(s.push((key, value))) == as_map(s).insert(key, value),
{
    let t = s.push((key, value));
    assert forall|i: int, j: int| 0 <= i < j < t.len() implies t[i].0 != t[j].0 by {
        if j == s.len() {
            assert(s[i].0 != key);
        }
    }
    assert forall|k: Seq<char>| has_key(t, k) <==> (k == key || has_key(s, k)) by {
        if has_key(t, k) {
            let i = choose|i: int| 0 <= i < t.len() && #[trigger] t[i].0 == k;
            if i < s.len() {
                assert(s[i].0 == k);
            }
        }
        if has_key(s, k) {
            let i = choose|i: int| 0 <= i < s.len() && #[trigger] s[i].0 == k;
            assert(t[i].0 == k);
        }
        if k == key {
            assert(t[s.len() as int].0 == k);
        }
    }
    assert forall|k: Seq<char>| has_key(t, k) implies #[trigger] as_map(t)[k] == as_map(s).insert(
        key,
        value,
    )[k] by {
        lemma_key_index(t, k);
        lemma_key_index(s, k);
        let i = key_index(t, k);
        if k == key {
            lemma_key_index_unique(t, s.len() as int);
        } else {
            lemma_key_index_unique(s, key_index(s, k));
            lemma_key_index_unique(t, key_index(s, k));
        }
    }
    assert(as_map(t) =~= as_map(s).insert(key, value));
}

/// Replacing the value of entry `i` rebinds its key in the mapping.
pub proof fn lemma_as_map_update<V>(s: Seq<(Seq<char>, V)>, i: int, value: V)
    requires
        distinct_keys(s),
        0 <= i < s.len(),
    ensures
        distinct_keys(s.update(i, (s[i].0, value))),
        as_map(s.update(i, (s[i].0, value))) == as_map(s).insert(s[i].0, value),
{
    let key = s[i].0;
    let t = s.update(i, (key, value));
    assert forall|a: int, b: int| 0 <= a < b < t.len() implies t[a].0 != t[b].0 by {
        assert(t[a].0 == s[a].0);
        assert(t[b].0 == s[b].0);
    }
    assert forall|k: Seq<char>| has_key(t, k) <==> has_key(s, k) by {
        if has_key(t, k) {
            let a = choose|a: int| 0 <= a < t.len() && #[trigger] t[a].0 == k;
            assert(s[a].0 == k);
        }
        if has_key(s, k) {
            let a = choose|a: int| 0 <= a < s.len() && #[trigger] s[a].0 == k;
            assert(t[a].0 == k);
        }
    }
    lemma_key_index_unique(s, i);
    assert forall|k: Seq<char>| has_key(t, k) implies #[trigger] as_map(t)[k] == as_map(s).insert(
        key,
        value,
    )[k] by {
        lemma_key_index(s, k);
        let a = key_index(s, k);
        lemma_key_index_unique(s, a);
        assert(t[a].0 == k);
        lemma_key_index_unique(t, a);
    }
    assert(as_map(t) =~= as_map(s).insert(key, value));
}

/// Taking entry `i` out unbinds its key in the mapping.
pub proof fn lemma_as_map_remove<V>(s: Seq<(Seq<char>, V)>, i: int)
    requires
        distinct_keys(s),
        0 <= i < s.len(),
    ensures
        distinct_keys(s.remove(i)),
        !has_key(s.remove(i), s[i].0),
        as_map(s.remove(i)) == as_map(s).remove(s[i].0),
{
    let key = s[i].0;
    let t = s.remove(i);
    assert forall|a: int| 0 <= a < t.len() implies #[trigger] t[a] == s[if a < i {
        a
    } else {
        a + 1
    }] by {}
    assert forall|a: int, b: int| 0 <= a < b < t.len() implies t[a].0 != t[b].0 by {
        let a2 = if a < i {
            a
        } else {
            a + 1
        };
        let b2 = if b < i {
            b
        } else {
            b + 1
        };
        assert(t[a] == s[a2]);
        assert(t[b] == s[b2]);
    }
    assert forall|k: Seq<char>| has_key(t, k) <==> (k != key && has_key(s, k)) by {
        if has_key(t, k) {
            let a = choose|a: int| 0 <= a < t.len() && #[trigger] t[a].0 == k;
            let a2 = if a < i {
                a
            } else {
                a + 1
            };
            assert(t[a] == s[a2]);
            assert(s[a2].0 == k);
        }
        if k != key && has_key(s, k) {
            let a = choose|a: int| 0 <= a < s.len() && #[trigger] s[a].0 == k;
            let a2 = if a < i {
                a
            } else {
                a - 1
            };
            assert(t[a2] == s[a]);
            assert(t[a2].0 == k);
        }
    }
    assert forall|k: Seq<char>| has_key(t, k) implies #[trigger] as_map(t)[k] == as_map(s).remove(
        key,
    )[k] by {
        lemma_key_index(s, k);
        let a = key_index(s, k);
        let a2 = if a < i {
            a
        } else {
            a - 1
        };
        assert(t[a2] == s[a]);
        lemma_key_index_unique(t, a2);
    }
    assert(as_map(t) =~= as_map(s).remove(key));
}

/// Putting an entry under a fresh key anywhere keeps the keys distinct.
pub proof fn lemma_distinct_insert<V>(s: Seq<(Seq<char>, V)>, i: int, key: Seq<char>, value: V)
    requires
        distinct_keys(s),
        !has_key(s, key),
        0 <= i <= s.len(),
    ensures
        distinct_keys(s.insert(i, (key, value))),
{
    let t = s.insert(i, (key, value));
    assert forall|a: int, b: int| 0 <= a < b < t.len() implies t[a].0 != t[b].0 by {
        let a2 = if a < i {
            a
        } else {
            a - 1
        };
        let b2 = if b < i {
            b
        } else {
            b - 1
        };
        if a == i {
            assert(t[b] == s[b2]);
            assert(s[b2].0 != key);
        } else if b == i {
            assert(t[a] == s[a2]);
            assert(s[a2].0 != key);
        } else {
            assert(t[a] == s[a2]);
            assert(t[b] == s[b2]);
        }
    }
}

/// An insertion-ordered table from text keys to values of type `V`.
pub(crate) struct TextMap<V> {
    entries: Vec<(String, V)>,
}

impl<V> View for TextMap<V> {
    type V = Seq<(Seq<char>, V)>;

    /// The entries in insertion order, each key as its text.
    closed spec fn view(&self) -> Seq<(Seq<char>, V)> {
        Seq::new(self.entries@.len(), |i: int| (self.entries@[i].0@, self.entries@[i].1))
    }
}

impl<V> TextMap<V> {
    /// No key occurs twice: this holds of every table.
    #[verifier::type_invariant]
    pub open spec fn keys_are_distinct(self) -> bool {
        distinct_keys(self@)
    }

    /// An empty table.
    pub(crate) fn new() -> (r: Self)
        ensures
            r@ == Seq::<(Seq<char>, V)>::empty(),
    {
        let r = TextMap { entries: Vec::new() };
        assert(r@ =~= Seq::<(Seq<char>, V)>::empty());
        r
    }

    /// The number of entries.
    pub(crate) fn len(&self) -> (n: usize)
        ensures
            n == self@.len(),
    {
        self.entries.len()
    }

    /// The position of the entry that carries `key`, if there is one. Also
    /// tells the caller that no key of the table occurs twice.
    pub(crate) fn find(&self, key: &str) -> (r: Option<usize>)
        ensures
            distinct_keys(self@),
            match r {
                Some(i) => i < self@.len() && self@[i as int].0 == key@,
                None => !has_key(self@, key@),
            },
    {
        proof {
            use_type_invariant(self);
        }
        let wanted = key.to_owned();
        let mut i: usize = 0;
        while i < self.entries.len()
            invariant
                i <= self.entries@.len(),
                wanted@ == key@,
                distinct_keys(self@),
                forall|j: int| 0 <= j < i ==> self@[j].0 != key@,
            decreases self.entries.len() - i,
        {
            if self.entries[i].0 == wanted {
                return Some(i);
            }
            i += 1;
        }
        None
    }

    /// The key of entry `i`.
    pub(crate) fn key(&self, i: usize) -> (r: &String)
        requires
            i < self@.len(),
        ensures
            r@ == self@[i as int].0,
    {
        &self.entries[i].0
    }

    /// The value of entry `i`.
    pub(crate) fn value(&self, i: usize) -> (r: &V)
        requires
            i < self@.len(),
        ensures
            *r == self@[i as int].1,
    {
        &self.entries[i].1
    }

    /// Appends an entry under a key that the table does not hold yet.
    pub(crate) fn push_new(&mut self, key: String, value: V)
        requires
            !has_key(old(self)@, key@),
        ensures
            final(self)@ == old(self)@.push((key@, value)),
            as_map(final(self)@) == as_map(old(self)@).insert(key@, value),
    {
        proof {
            use_type_invariant(&*self);
            lemma_as_map_push(self@, key@, value);
        }
        let ghost grown = self.entries@.push((key, value));
        proof {
            assert(Seq::new(grown.len(), |k: int| (grown[k].0@, grown[k].1)) =~= self@.push(
                (key@, value),
            ));
        }
        let mut taken: Vec<(String, V)> = Vec::new();
        core::mem::swap(&mut taken, &mut self.entries);
        taken.push((key, value));
        self.entries = taken;
    }

    /// Puts an entry at position `i` under a key that the table does not
    /// hold yet; the entries from `i` on move up by one.
    pub(crate) fn insert_at(&mut self, i: usize, key: String, value: V)
        requires
            i <= old(self)@.len(),
            !has_key(old(self)@, key@),
        ensures
            final(self)@ == old(self)@.insert(i as int, (key@, value)),
    {
        proof {
            use_type_invariant(&*self);
            lemma_distinct_insert(self@, i as int, key@, value);
        }
        let ghost grown = self.entries@.insert(i as int, (key, value));
        proof {
            assert(Seq::new(grown.len(), |k: int| (grown[k].0@, grown[k].1)) =~= self@.insert(
                i as int,
                (key@, value),
            ));
        }
        let mut taken: Vec<(String, V)> = Vec::new();
        core::mem::swap(&mut taken, &mut self.entries);
        taken.insert(i, (key, value));
        self.entries = taken;
    }

    /// Puts `value` in the place of the value of entry `i` and hands the
    /// former value out.
    pub(crate) fn replace(&mut self, i: usize, value: V) -> (former: V)
        requires
            i < old(self)@.len(),
        ensures
            final(self)@ == old(self)@.update(i as int, (old(self)@[i as int].0, value)),
            as_map(final(self)@) == as_map(old(self)@).insert(old(self)@[i as int].0, value),
            former == old(self)@[i as int].1,
    {
        proof {
            use_type_invariant(&*self);
            lemma_as_map_update(self@, i as int, value);
        }
        let mut taken: Vec<(String, V)> = Vec::new();
        core::mem::swap(&mut taken, &mut self.entries);
        let (key, former) = taken.remove(i);
        taken.insert(i, (key, value));
        proof {
            assert(Seq::new(taken@.len(), |k: int| (taken@[k].0@, taken@[k].1)) =~= old(self)@.update(
                i as int,
                (old(self)@[i as int].0, value),
            ));
        }
        self.entries = taken;
        former
    }

    /// Takes entry `i` out of the table.
    pub(crate) fn take(&mut self, i: usize) -> (r: (String, V))
        requires
            i < old(self)@.len(),
        ensures
            final(self)@ == old(self)@.remove(i as int),
            as_map(final(self)@) == as_map(old(self)@).remove(old(self)@[i as int].0),
            !has_key(final(self)@, old(self)@[i as int].0),
            r.0@ == old(self)@[i as int].0,
            r.1 == old(self)@[i as int].1,
    {
        proof {
            use_type_invariant(&*self);
            lemma_as_map_remove(self@, i as int);
        }
        let mut taken: Vec<(String, V)> = Vec::new();
        core::mem::swap(&mut taken, &mut self.entries);
        let r = taken.remove(i);
        proof {
            assert(Seq::new(taken@.len(), |k: int| (taken@[k].0@, taken@[k].1)) =~= old(self)@.remove(
                i as int,
            ));
        }
        self.entries = taken;
        r
    }

    /// Takes every entry out.
    pub(crate) fn clear(&mut self)
        ensures
            final(self)@ == Seq::<(Seq<char>, V)>::empty(),
    {
        let cleared: Vec<(String, V)> = Vec::new();
        proof {
            assert(Seq::new(cleared@.len(), |k: int| (cleared@[k].0@, cleared@[k].1))
                =~= Seq::<(Seq<char>, V)>::empty());
        }
        self.entries = cleared;
    }
}

} // verus!
