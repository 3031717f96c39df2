//! The directory of streams that the publisher currently offers.

use crate::ws::text_map::{as_map, has_key, key_index, lemma_key_index, TextMap};
use crate::ws::{DiscordStream, DiscordStreamView};
use vstd::prelude::*;

verus! {

/// The mapping that a list of directory entries stands for.
pub open spec fn entries_as_map(entries: Seq<(String, DiscordStream)>) -> Map<
    Seq<char>,
    DiscordStreamView,
> {
    as_map(Seq::new(entries.len(), |i: int| (entries[i].0@, entries[i].1@)))
}

/// No two entries of the list carry the same stream id.
pub open spec fn entries_distinct(entries: Seq<(String, DiscordStream)>) -> bool {
    forall|i: int, j: int| 0 <= i < j < entries.len() ==> entries[i].0@ != entries[j].0@
}

/// Maps stream ids to what is known about the stream.
pub struct StreamDirectory {
    streams: TextMap<DiscordStream>,
}

impl View for StreamDirectory {
    type V = Map<Seq<char>, DiscordStreamView>;

    closed spec fn view(&self) -> Map<Seq<char>, DiscordStreamView> {
        as_map(self.streams@).map_values(|v: DiscordStream| v@)
    }
}

impl StreamDirectory {
    /// An empty directory.
    pub fn new() -> (r: Self)
        ensures
            r@ == Map::<Seq<char>, DiscordStreamView>::empty(),
    {
        let r = StreamDirectory { streams: TextMap::new() };
        assert(r@ =~= Map::<Seq<char>, DiscordStreamView>::empty());
        r
    }

    /// Binds `id` to `info`, whether or not `id` was bound before, and
    /// tells whether it was new.
    pub fn upsert(&mut self, id: String, info: DiscordStream) -> (was_new: bool)
        ensures
            final(self)@ == old(self)@.insert(id@, info@),
            was_new == !old(self)@.contains_key(id@),
    {
        match self.streams.find(id.as_str()) {
            Some(i) => {
                proof {
                    lemma_key_index(self.streams@, id@);
                }
                let _ = self.streams.replace(i, info);
                assert(self@ =~= old(self)@.insert(id@, info@));
                false
            },
            None => {
                self.streams.push_new(id, info);
                assert(self@ =~= old(self)@.insert(id@, info@));
                true
            },
        }
    }

    /// Unbinds `id` and hands out what it was bound to, if anything.
    pub fn remove(&mut self, id: &str) -> (r: Option<DiscordStream>)
        ensures
            final(self)@ == old(self)@.remove(id@),
            match r {
                Some(info) => old(self)@.contains_key(id@) && info@ == old(self)@[id@],
                None => !old(self)@.contains_key(id@),
            },
    {
        match self.streams.find(id) {
            Some(i) => {
                proof {
                    lemma_key_index(self.streams@, id@);
                }
                let (_, info) = self.streams.take(i);
                assert(self@ =~= old(self)@.remove(id@));
                Some(info)
            },
            None => {
                assert(self@ =~= old(self)@.remove(id@));
                None
            },
        }
    }

    /// Unbinds every id.
    pub fn clear(&mut self)
        ensures
            final(self)@ == Map::<Seq<char>, DiscordStreamView>::empty(),
    {
        self.streams.clear();
        assert(self@ =~= Map::<Seq<char>, DiscordStreamView>::empty());
    }

    /// What `id` is bound to, if anything.
    pub fn get(&self, id: &str) -> (r: Option<&DiscordStream>)
        ensures
            match r {
                Some(info) => self@.contains_key(id@) && info@ == self@[id@],
                None => !self@.contains_key(id@),
            },
    {
        match self.streams.find(id) {
            Some(i) => {
                proof {
                    lemma_key_index(self.streams@, id@);
                }
                Some(self.streams.value(i))
            },
            None => None,
        }
    }

    /// Whether `id` is bound.
    pub fn contains(&self, id: &str) -> (r: bool)
        ensures
            r == self@.contains_key(id@),
    {
        self.streams.find(id).is_some()
    }

    /// Whether no id is bound.
    pub fn is_empty(&self) -> (r: bool)
        ensures
            r == (self@ == Map::<Seq<char>, DiscordStreamView>::empty()),
    {
        let n = self.streams.len();
        proof {
            if n == 0 {
                assert(self@ =~= Map::<Seq<char>, DiscordStreamView>::empty());
            } else {
                assert(has_key(self.streams@, self.streams@[0].0));
                assert(self@.contains_key(self.streams@[0].0));
            }
        }
        n == 0
    }

    /// A copy of every binding, for a reader that must not hold on to the
    /// directory itself.
    pub fn snapshot(&self) -> (r: Vec<(String, DiscordStream)>)
        ensures
            entries_distinct(r@),
            entries_as_map(r@) == self@,
    {
        proof {
            use_type_invariant(&self.streams);
        }
        let mut out: Vec<(String, DiscordStream)> = Vec::new();
        let n = self.streams.len();
        let mut i: usize = 0;
        while i < n
            invariant
                n == self.streams@.len(),
                i <= n,
                out@.len() == i,
                forall|k: int|
                    0 <= k < i ==> out@[k].0@ == self.streams@[k].0 && out@[k].1@
                        == self.streams@[k].1@,
            decreases n - i,
        {
            out.push((self.streams.key(i).clone(), self.streams.value(i).clone()));
            i += 1;
        }
        proof {
            let a = Seq::new(out@.len(), |i: int| (out@[i].0@, out@[i].1@));
            let s = self.streams@;
            assert forall|k: Seq<char>| has_key(a, k) <==> has_key(s, k) by {
                if has_key(a, k) {
                    let i = choose|i: int| 0 <= i < a.len() && #[trigger] a[i].0 == k;
                    assert(s[i].0 == k);
                }
                if has_key(s, k) {
                    let i = choose|i: int| 0 <= i < s.len() && #[trigger] s[i].0 == k;
                    assert(a[i].0 == k);
                }
            }
            assert forall|k: Seq<char>| has_key(a, k) implies #[trigger] as_map(a)[k] == self@[k] by {
                lemma_key_index(a, k);
                lemma_key_index(s, k);
                let i = key_index(a, k);
                let j = key_index(s, k);
                assert(a[j].0 == k);
                assert(s[i].0 == k);
            }
            assert(as_map(a) =~= self@);
            assert forall|i: int, j: int| 0 <= i < j < out@.len() implies out@[i].0@ != out@[j].0@ by {
                assert(s[i].0 != s[j].0);
            }
        }
        out
    }
}

} // verus!
