//! Which side a new connection belongs to, told from the path that it
//! asked for.

use vstd::prelude::*;
use vstd::string::StrSliceExecFns;

verus! {

/// Where the part of `path` after its last `/` starts; 0 if it holds none.
pub open spec fn segment_start(path: Seq<char>) -> int
    decreases path.len(),
{
    if path.len() == 0 {
        0
    } else if path.last() == '/' {
        path.len() as int
    } else {
        segment_start(path.drop_last())
    }
}

/// The part of `path` after its last `/`; all of it if it holds none.
pub open spec fn last_segment(path: Seq<char>) -> Seq<char> {
    path.subrange(segment_start(path), path.len() as int)
}

/// The path on which the publisher connects.
pub open spec fn publisher_path() -> Seq<char> {
    "/discord"@
}

/// The last segment starts right after a `/` or at the front, lies within
/// the path, and holds no `/`.
pub proof fn lemma_segment_start(path: Seq<char>)
    ensures
        0 <= segment_start(path) <= path.len(),
        segment_start(path) > 0 ==> path[segment_start(path) - 1] == '/',
        forall|i: int| segment_start(path) <= i < path.len() ==> path[i] != '/',
    decreases path.len(),
{
    if path.len() == 0 {
    } else if path.last() == '/' {
    } else {
        let front = path.drop_last();
        lemma_segment_start(front);
        assert forall|i: int| segment_start(path) <= i < path.len() implies path[i] != '/' by {
            if i < front.len() {
                assert(front[i] == path[i]);
            }
        }
        if segment_start(path) > 0 {
            assert(front[segment_start(path) - 1] == path[segment_start(path) - 1]);
        }
    }
}

/// The side that a connection belongs to.
#[derive(Debug, PartialEq, Eq)]
pub enum Endpoint {
    /// The publisher.
    Publisher,
    /// A viewer, under the id that its path ends in. The id may be empty:
    /// such a viewer is turned away when it is registered.
    Viewer(String),
}

/// Mathematical value of an [`Endpoint`].
pub enum EndpointView {
    Publisher,
    Viewer(Seq<char>),
}

impl View for Endpoint {
    type V = EndpointView;

    open spec fn view(&self) -> EndpointView {
        match *self {
            Endpoint::Publisher => EndpointView::Publisher,
            Endpoint::Viewer(id) => EndpointView::Viewer(id@),
        }
    }
}

/// The side that a connection on `uri` belongs to.
pub open spec fn endpoint_of(uri: Seq<char>) -> EndpointView {
    if uri == publisher_path() {
        EndpointView::Publisher
    } else {
        EndpointView::Viewer(last_segment(uri))
    }
}

/// The part of `uri` after its last `/`.
pub fn viewer_id(uri: &str) -> (r: String)
    ensures
        r@ == last_segment(uri@),
{
    let n = uri.unicode_len();
    let mut start: usize = n;
    let mut found = false;
    proof {
        assert(uri@.take(n as int) =~= uri@);
    }
    while start > 0 && !found
        invariant
            n == uri@.len(),
            start <= n,
            segment_start(uri@) == segment_start(uri@.take(start as int)),
            found ==> start > 0 && uri@[start - 1] == '/',
        decreases start + (if found { 0int } else { 1int }),
    {
        proof {
            let front = uri@.take(start as int);
            assert(front.last() == uri@[start - 1]);
            assert(front.drop_last() =~= uri@.take(start - 1));
        }
        if uri.get_char(start - 1) == '/' {
            found = true;
        } else {
            start -= 1;
        }
    }
    proof {
        let front = uri@.take(start as int);
        if found {
            assert(front.last() == uri@[start - 1]);
        }
    }
    uri.substring_char(start, n).to_owned()
}

/// Tells from the path of a connection request which side is connecting:
/// the publisher on its own path, a viewer on any other.
pub fn route(uri: &str) -> (r: Endpoint)
    ensures
        r@ == endpoint_of(uri@),
{
    if uri.to_owned() == "/discord".to_owned() {
        Endpoint::Publisher
    } else {
        Endpoint::Viewer(viewer_id(uri))
    }
}

} // verus!
