//! The table of connected viewers.

use crate::ws::message::{clone_opt_text, opt_text};
use crate::ws::text_map::{distinct_keys, has_key, key_index, lemma_key_index, TextMap};
use crate::ws::{WebConnection, WebConnectionView};
use vstd::prelude::*;

verus! {

/// The viewers of a table, in the order in which they registered: each
/// with its id and the value of its connection.
pub type Viewers<S, R> = Seq<(Seq<char>, WebConnectionView<S, R>)>;

/// The position of the first viewer linked to `stream`; `viewers.len()` if
/// there is none.
pub open spec fn linked_index<S, R>(viewers: Viewers<S, R>, stream: Seq<char>) -> int
    decreases viewers.len(),
{
    if viewers.len() == 0 {
        0
    } else if viewers[0].1.linked_stream == Some(stream) {
        0
    } else {
        1 + linked_index(viewers.drop_first(), stream)
    }
}

/// Some viewer is linked to `stream`.
pub open spec fn has_linked<S, R>(viewers: Viewers<S, R>, stream: Seq<char>) -> bool {
    exists|i: int| 0 <= i < viewers.len() && #[trigger] viewers[i].1.linked_stream == Some(stream)
}

/// `linked_index` stays within bounds, finds a viewer linked to `stream`
/// when there is one, and passes over none.
pub proof fn lemma_linked_index<S, R>(viewers: Viewers<S, R>, stream: Seq<char>)
    ensures
        0 <= linked_index(viewers, stream) <= viewers.len(),
        has_linked(viewers, stream) <==> linked_index(viewers, stream) < viewers.len(),
        linked_index(viewers, stream) < viewers.len() ==> viewers[linked_index(
            viewers,
            stream,
        )].1.linked_stream == Some(stream),
        forall|j: int|
            0 <= j < linked_index(viewers, stream) ==> viewers[j].1.linked_stream != Some(stream),
    decreases viewers.len(),
{
    if viewers.len() == 0 {
    } else if viewers[0].1.linked_stream == Some(stream) {
    } else {
        let t = viewers.drop_first();
        lemma_linked_index(t, stream);
        let k = linked_index(t, stream);
        assert forall|j: int| 0 <= j < 1 + k implies viewers[j].1.linked_stream != Some(
            stream,
        ) by {
            if j > 0 {
                assert(t[j - 1] == viewers[j]);
            }
        }
        if k < t.len() {
            assert(t[k] == viewers[k + 1]);
        }
        if has_linked(viewers, stream) {
            let i = choose|i: int|
                0 <= i < viewers.len() && #[trigger] viewers[i].1.linked_stream == Some(stream);
            assert(t[i - 1] == viewers[i]);
            assert(has_linked(t, stream));
        }
    }
}

/// The viewers with the link of the one called `id` set to `stream`;
/// unchanged if no viewer is called `id`.
pub open spec fn with_link<S, R>(
    viewers: Viewers<S, R>,
    id: Seq<char>,
    stream: Option<Seq<char>>,
) -> Viewers<S, R> {
    if has_key(viewers, id) {
        let i = key_index(viewers, id);
        viewers.update(i, (id, viewers[i].1.with_link(stream)))
    } else {
        viewers
    }
}

/// The viewers without the one called `id`.
pub open spec fn without<S, R>(viewers: Viewers<S, R>, id: Seq<char>) -> Viewers<S, R> {
    if has_key(viewers, id) {
        viewers.remove(key_index(viewers, id))
    } else {
        viewers
    }
}

/// The connected viewers, each under its id.
pub struct ConnectionTable<S, R> {
    viewers: TextMap<WebConnection<S, R>>,
}

impl<S, R> View for ConnectionTable<S, R> {
    type V = Viewers<S, R>;

    closed spec fn view(&self) -> Viewers<S, R> {
        Seq::new(self.viewers@.len(), |i: int| (self.viewers@[i].0, self.viewers@[i].1@))
    }
}

impl<S, R> ConnectionTable<S, R> {
    /// A table without viewers.
    pub fn new() -> (r: Self)
        ensures
            r@ == Viewers::<S, R>::empty(),
    {
        let r = ConnectionTable { viewers: TextMap::new() };
        assert(r@ =~= Viewers::<S, R>::empty());
        r
    }

    proof fn lemma_same_keys(&self)
        ensures
            self@.len() == self.viewers@.len(),
            forall|i: int| 0 <= i < self@.len() ==> #[trigger] self@[i].0 == self.viewers@[i].0,
            forall|k: Seq<char>| has_key(self@, k) <==> has_key(self.viewers@, k),
            forall|k: Seq<char>| key_index(self@, k) == key_index(self.viewers@, k),
            distinct_keys(self.viewers@) ==> distinct_keys(self@),
    {
        let a = self@;
        let b = self.viewers@;
        assert forall|k: Seq<char>| has_key(a, k) <==> has_key(b, k) by {
            if has_key(a, k) {
                let i = choose|i: int| 0 <= i < a.len() && #[trigger] a[i].0 == k;
                assert(b[i].0 == k);
            }
            if has_key(b, k) {
                let i = choose|i: int| 0 <= i < b.len() && #[trigger] b[i].0 == k;
                assert(a[i].0 == k);
            }
        }
        assert forall|k: Seq<char>| key_index(a, k) == key_index(b, k) by {
            lemma_key_index(a, k);
            lemma_key_index(b, k);
            let i = key_index(a, k);
            let j = key_index(b, k);
            if i < a.len() {
                assert(b[i].0 == k);
            }
            if j < b.len() {
                assert(a[j].0 == k);
            }
        }
        if distinct_keys(b) {
            assert forall|i: int, j: int| 0 <= i < j < a.len() implies a[i].0 != a[j].0 by {
                assert(b[i].0 != b[j].0);
            }
        }
    }

    /// How many viewers are connected. Also tells the caller that no id
    /// occurs twice.
    pub fn len(&self) -> (n: usize)
        ensures
            n == self@.len(),
            distinct_keys(self@),
    {
        proof {
            use_type_invariant(&self.viewers);
            self.lemma_same_keys();
        }
        self.viewers.len()
    }

    /// Whether a viewer called `id` is connected.
    pub fn contains(&self, id: &str) -> (r: bool)
        ensures
            r == has_key(self@, id@),
    {
        proof {
            self.lemma_same_keys();
        }
        self.viewers.find(id).is_some()
    }

    /// Registers `connection` under `id` unless a viewer of that name is
    /// connected already: then nothing changes and the connection is
    /// handed back, for the caller to close.
    pub fn try_insert(&mut self, id: String, connection: WebConnection<S, R>) -> (r: Result<
        (),
        WebConnection<S, R>,
    >)
        ensures
            distinct_keys(final(self)@),
            match r {
                Ok(_) => !has_key(old(self)@, id@) && final(self)@ == old(self)@.push(
                    (id@, connection@),
                ),
                Err(refused) => has_key(old(self)@, id@) && final(self)@ == old(self)@ && refused
                    == connection,
            },
    {
        proof {
            self.lemma_same_keys();
        }
        match self.viewers.find(id.as_str()) {
            Some(_) => Err(connection),
            None => {
                self.viewers.push_new(id, connection);
                proof {
                    use_type_invariant(&self.viewers);
                    self.lemma_same_keys();
                    assert(self@ =~= old(self)@.push((id@, connection@)));
                }
                Ok(())
            },
        }
    }

    /// Takes the viewer called `id` out of the table and hands its
    /// connection out.
    pub fn remove(&mut self, id: &str) -> (r: Option<WebConnection<S, R>>)
        ensures
            distinct_keys(final(self)@),
            final(self)@ == without(old(self)@, id@),
            !has_key(final(self)@, id@),
            match r {
                Some(connection) => has_key(old(self)@, id@) && connection@ == old(self)@[key_index(
                    old(self)@,
                    id@,
                )].1,
                None => !has_key(old(self)@, id@),
            },
    {
        proof {
            self.lemma_same_keys();
        }
        match self.viewers.find(id) {
            Some(i) => {
                proof {
                    lemma_key_index(self.viewers@, id@);
                }
                let (_, connection) = self.viewers.take(i);
                proof {
                    use_type_invariant(&self.viewers);
                    self.lemma_same_keys();
                    assert(self@ =~= old(self)@.remove(i as int));
                }
                Some(connection)
            },
            None => None,
        }
    }

    /// The connection of the viewer called `id`.
    pub fn get(&self, id: &str) -> (r: Option<&WebConnection<S, R>>)
        ensures
            match r {
                Some(connection) => has_key(self@, id@) && connection@ == self@[key_index(
                    self@,
                    id@,
                )].1,
                None => !has_key(self@, id@),
            },
    {
        proof {
            self.lemma_same_keys();
        }
        match self.viewers.find(id) {
            Some(i) => {
                proof {
                    lemma_key_index(self.viewers@, id@);
                }
                Some(self.viewers.value(i))
            },
            None => None,
        }
    }

    /// The first viewer, in order of registration, that is linked to
    /// `stream_id`: its id and its connection.
    pub fn find_by_linked_stream(&self, stream_id: &str) -> (r: Option<
        (&String, &WebConnection<S, R>),
    >)
        ensures
            match r {
                Some((id, connection)) => {
                    &&& has_linked(self@, stream_id@)
                    &&& id@ == self@[linked_index(self@, stream_id@)].0
                    &&& connection@ == self@[linked_index(self@, stream_id@)].1
                },
                None => !has_linked(self@, stream_id@),
            },
    {
        let wanted = stream_id.to_owned();
        let n = self.viewers.len();
        let mut i: usize = 0;
        proof {
            lemma_linked_index(self@, stream_id@);
        }
        while i < n
            invariant
                n == self.viewers@.len(),
                n == self@.len(),
                i <= n,
                wanted@ == stream_id@,
                forall|j: int| 0 <= j < i ==> self@[j].1.linked_stream != Some(stream_id@),
            decreases n - i,
        {
            let connection = self.viewers.value(i);
            let hit = match &connection.linked_stream {
                Some(linked) => *linked == wanted,
                None => false,
            };
            if hit {
                proof {
                    lemma_linked_index(self@, stream_id@);
                    assert(self@[i as int].1.linked_stream == Some(stream_id@));
                }
                return Some((self.viewers.key(i), connection));
            }
            i += 1;
        }
        None
    }

    /// Links the viewer called `id` to `stream_id`, or to no stream, and
    /// tells whether such a viewer is connected.
    pub fn set_link(&mut self, id: &str, stream_id: Option<String>) -> (found: bool)
        ensures
            distinct_keys(final(self)@),
            found == has_key(old(self)@, id@),
            final(self)@ == with_link(old(self)@, id@, opt_text(stream_id)),
    {
        proof {
            self.lemma_same_keys();
        }
        match self.viewers.find(id) {
            Some(i) => {
                proof {
                    lemma_key_index(self.viewers@, id@);
                }
                let (key, connection) = self.viewers.take(i);
                let relinked = WebConnection {
                    ws_sink: connection.ws_sink,
                    ws_stream: connection.ws_stream,
                    linked_stream: stream_id,
                };
                self.viewers.insert_at(i, key, relinked);
                proof {
                    use_type_invariant(&self.viewers);
                    self.lemma_same_keys();
                    assert(self@ =~= with_link(old(self)@, id@, opt_text(stream_id)));
                }
                true
            },
            None => false,
        }
    }

    /// Unlinks the viewer called `id` and hands out the stream it was
    /// linked to, if it was linked.
    pub fn clear_link(&mut self, id: &str) -> (former: Option<String>)
        ensures
            distinct_keys(final(self)@),
            final(self)@ == with_link(old(self)@, id@, None),
            opt_text(former) == if has_key(old(self)@, id@) {
                old(self)@[key_index(old(self)@, id@)].1.linked_stream
            } else {
                None
            },
    {
        proof {
            self.lemma_same_keys();
        }
        match self.viewers.find(id) {
            Some(i) => {
                proof {
                    lemma_key_index(self.viewers@, id@);
                }
                let (key, connection) = self.viewers.take(i);
                let former = connection.linked_stream;
                let unlinked = WebConnection {
                    ws_sink: connection.ws_sink,
                    ws_stream: connection.ws_stream,
                    linked_stream: None,
                };
                self.viewers.insert_at(i, key, unlinked);
                proof {
                    use_type_invariant(&self.viewers);
                    self.lemma_same_keys();
                    assert(self@ =~= with_link(old(self)@, id@, None));
                }
                former
            },
            None => None,
        }
    }

    /// Every viewer with the stream it is linked to, in order of
    /// registration.
    pub fn targets(&self) -> (r: Vec<(String, Option<String>)>)
        ensures
            r@.len() == self@.len(),
            forall|i: int|
                0 <= i < r@.len() ==> r@[i].0@ == self@[i].0 && opt_text(r@[i].1)
                    == self@[i].1.linked_stream,
    {
        let mut out: Vec<(String, Option<String>)> = Vec::new();
        let n = self.viewers.len();
        let mut i: usize = 0;
        while i < n
            invariant
                n == self.viewers@.len(),
                n == self@.len(),
                i <= n,
                out@.len() == i,
                forall|k: int|
                    0 <= k < i ==> out@[k].0@ == self@[k].0 && opt_text(out@[k].1)
                        == self@[k].1.linked_stream,
            decreases n - i,
        {
            let connection = self.viewers.value(i);
            out.push((self.viewers.key(i).clone(), clone_opt_text(&connection.linked_stream)));
            i += 1;
        }
        out
    }
}

} // verus!
