//! What holds of the relay whatever happens to it, stated over the state
//! machine of the model and proved.

use crate::ws::connections::{has_linked, with_link, without, Viewers};
use crate::ws::events::{ReactionView, RoutingError};
use crate::ws::message::{
    AnswerOfferEventView, ICEEventView, MessageTypeView, RemoveStreamEventView,
    UpdateUserInfoEventView,
};
use crate::ws::model::{
    admission, command_error, after_link, after_open_publisher, after_open_viewer, after_publisher_closed,
    after_publisher_message, after_unlink, after_viewer_closed, publisher_reaction, removed_all,
    unlink_reaction, upserted_all, viewer_reaction, RelayState, Streams,
};
use crate::ws::text_map::{
    distinct_keys, has_key, key_index, lemma_as_map_remove, lemma_key_index,
};
use crate::ws::DiscordSplittedConnection;
use vstd::prelude::*;

verus! {

/// Changing the link of one viewer changes no id; so ids stay distinct and
/// non-empty, and the viewer is found where it was.
pub proof fn lemma_with_link_keeps_ids<S, R>(
    viewers: Viewers<S, R>,
    id: Seq<char>,
    stream: Option<Seq<char>>,
)
    ensures
        with_link(viewers, id, stream).len() == viewers.len(),
        forall|i: int|
            0 <= i < viewers.len() ==> (#[trigger] with_link(viewers, id, stream)[i]).0
                == viewers[i].0,
        distinct_keys(viewers) ==> distinct_keys(with_link(viewers, id, stream)),
        has_key(with_link(viewers, id, stream), id) == has_key(viewers, id),
        key_index(with_link(viewers, id, stream), id) == key_index(viewers, id),
        has_key(viewers, id) ==> with_link(viewers, id, stream)[key_index(
            viewers,
            id,
        )].1.linked_stream == stream,
{
    let after = with_link(viewers, id, stream);
    lemma_key_index(viewers, id);
    assert forall|i: int| 0 <= i < viewers.len() implies (#[trigger] after[i]).0
        == viewers[i].0 by {}
    if distinct_keys(viewers) {
        assert forall|i: int, j: int| 0 <= i < j < after.len() implies after[i].0 != after[j].0 by {
            assert(after[i].0 == viewers[i].0);
            assert(after[j].0 == viewers[j].0);
        }
    }
    lemma_key_index(after, id);
    if has_key(viewers, id) {
        let i = key_index(viewers, id);
        assert(after[i].0 == id);
        assert(has_key(after, id));
        if key_index(after, id) < i {
            assert(after[key_index(after, id)].0 == viewers[key_index(after, id)].0);
        }
    } else {
        if has_key(after, id) {
            let i = choose|i: int| 0 <= i < after.len() && #[trigger] after[i].0 == id;
            assert(viewers[i].0 == id);
        }
    }
}

/// In a valid state no two connections share an id, and whatever happens
/// to the relay leaves its state valid: a connection that is opened or
/// closed, a message from either side, a link or an unlink.
pub proof fn lemma_valid_is_kept<S, R>(
    s: RelayState<S, R>,
    id: Seq<char>,
    stream: Seq<char>,
    m: MessageTypeView,
    ws_sink: S,
    ws_stream: R,
)
    requires
        s.valid(),
    ensures
        forall|i: int, j: int|
            0 <= i < s.viewers.len() && 0 <= j < s.viewers.len() && s.viewers[i].0
                == s.viewers[j].0 ==> i == j,
        RelayState::<S, R>::initial().valid(),
        after_open_publisher(s, DiscordSplittedConnection { ws_sink, ws_stream }).valid(),
        after_open_viewer(s, id, ws_sink, ws_stream).valid(),
        after_publisher_message(s, m).valid(),
        after_publisher_closed(s).valid(),
        after_viewer_closed(s, id).valid(),
        after_link(s, id, stream).valid(),
        after_unlink(s, id).valid(),
{
    assert forall|i: int, j: int|
        0 <= i < s.viewers.len() && 0 <= j < s.viewers.len() && s.viewers[i].0
            == s.viewers[j].0 implies i == j by {
        if i < j {
            assert(s.viewers[i].0 != s.viewers[j].0);
        }
        if j < i {
            assert(s.viewers[j].0 != s.viewers[i].0);
        }
    }
    // A viewer is added under a fresh, non-empty id.
    if admission(s, id) is None {
        let grown = after_open_viewer(s, id, ws_sink, ws_stream).viewers;
        assert forall|i: int, j: int| 0 <= i < j < grown.len() implies grown[i].0 != grown[j].0 by {
            if j == s.viewers.len() {
                assert(s.viewers[i].0 != id);
            }
        }
        assert forall|i: int| 0 <= i < grown.len() implies (#[trigger] grown[i]).0.len() > 0 by {
            if i < s.viewers.len() {
                assert(grown[i] == s.viewers[i]);
            }
        }
    }
    // A viewer leaves.
    lemma_key_index(s.viewers, id);
    if has_key(s.viewers, id) {
        let gone = key_index(s.viewers, id);
        let rest = without(s.viewers, id);
        lemma_as_map_remove(s.viewers, gone);
        assert forall|i: int| 0 <= i < rest.len() implies (#[trigger] rest[i]).0.len() > 0 by {
            let j = if i < gone {
                i
            } else {
                i + 1
            };
            assert(rest[i] == s.viewers[j]);
        }
    }
    // A link changes.
    lemma_with_link_keeps_ids(s.viewers, id, Some(stream));
    lemma_with_link_keeps_ids(s.viewers, id, None);
    let linked = with_link(s.viewers, id, Some(stream));
    assert forall|i: int| 0 <= i < linked.len() implies (#[trigger] linked[i]).0.len() > 0 by {
        assert(linked[i].0 == s.viewers[i].0);
    }
    let unlinked = with_link(s.viewers, id, None);
    assert forall|i: int| 0 <= i < unlinked.len() implies (#[trigger] unlinked[i]).0.len() > 0 by {
        assert(unlinked[i].0 == s.viewers[i].0);
    }
}

/// A viewer that asks to connect under an id in use is turned away, and
/// nothing changes: the connection that holds the id stays as it was.
pub proof fn lemma_duplicate_is_rejected<S, R>(
    s: RelayState<S, R>,
    id: Seq<char>,
    ws_sink: S,
    ws_stream: R,
)
    requires
        s.valid(),
        has_key(s.viewers, id),
    ensures
        admission(s, id) is Some,
        after_open_viewer(s, id, ws_sink, ws_stream) == s,
{
}

/// After the publisher has connected, its session is the one in the slot,
/// whatever was there before: a second session takes the place of the
/// first.
pub proof fn lemma_one_publisher<S, R>(
    s: RelayState<S, R>,
    first: DiscordSplittedConnection<S, R>,
    second: DiscordSplittedConnection<S, R>,
)
    ensures
        after_open_publisher(s, first).publisher == Some(first),
        after_open_publisher(after_open_publisher(s, first), second).publisher == Some(second),
        after_open_publisher(after_open_publisher(s, first), second) == after_open_publisher(
            s,
            second,
        ),
{
}

/// After a list of removals the directory holds none of the streams that
/// the list names, and holds every other stream as before.
pub proof fn lemma_removed_all(streams: Streams, list: Seq<RemoveStreamEventView>)
    ensures
        forall|k: int|
            0 <= k < list.len() ==> !removed_all(streams, list).contains_key(
                (#[trigger] list[k]).stream_id,
            ),
        forall|id: Seq<char>| #[trigger]
            removed_all(streams, list).contains_key(id) ==> streams.contains_key(id)
                && removed_all(streams, list)[id] == streams[id],
        forall|id: Seq<char>|
            streams.contains_key(id) && (forall|k: int|
                0 <= k < list.len() ==> (#[trigger] list[k]).stream_id != id)
                ==> #[trigger] removed_all(streams, list).contains_key(id),
    decreases list.len(),
{
    if list.len() > 0 {
        let front = list.drop_last();
        let before = removed_all(streams, front);
        let after = removed_all(streams, list);
        lemma_removed_all(streams, front);
        assert(after == before.remove(list.last().stream_id));
        assert forall|k: int| 0 <= k < list.len() implies !after.contains_key(
            (#[trigger] list[k]).stream_id,
        ) by {
            if k < front.len() {
                assert(front[k] == list[k]);
                assert(!before.contains_key(front[k].stream_id));
            }
        }
        assert forall|id: Seq<char>| #[trigger] after.contains_key(id) implies streams.contains_key(
            id,
        ) && after[id] == streams[id] by {
            assert(before.contains_key(id));
        }
        assert forall|id: Seq<char>|
            streams.contains_key(id) && (forall|k: int|
                0 <= k < list.len() ==> (#[trigger] list[k]).stream_id
                    != id) implies #[trigger] after.contains_key(id) by {
            assert forall|k: int| 0 <= k < front.len() implies (#[trigger] front[k]).stream_id
                != id by {
                assert(front[k] == list[k]);
            }
            assert(before.contains_key(id));
            assert(list[list.len() - 1].stream_id != id);
        }
    }
}

/// A stream that the publisher announces and then removes is not in the
/// directory any more; and an offer for it reaches nobody, provided no
/// viewer is linked to it.
pub proof fn lemma_removed_stream_is_gone<S, R>(
    s: RelayState<S, R>,
    announced: UpdateUserInfoEventView,
    sdp: Seq<char>,
)
    requires
        s.valid(),
        s.publisher is Some,
        !has_linked(s.viewers, announced.stream_id),
    ensures
        ({
            let id = announced.stream_id;
            let s1 = after_publisher_message(s, MessageTypeView::UpdateUserInfo(seq![announced]));
            let s2 = after_publisher_message(
                s1,
                MessageTypeView::Remove(seq![RemoveStreamEventView { stream_id: id }]),
            );
            &&& s1.streams.contains_key(id)
            &&& !s2.streams.contains_key(id)
            &&& publisher_reaction(
                s2,
                MessageTypeView::Offer(AnswerOfferEventView { stream_id: Some(id), sdp }),
            ) == Err::<ReactionView, RoutingError>(RoutingError::NoLinkedViewer)
        }),
{
    let id = announced.stream_id;
    let updates = seq![announced];
    assert(updates.drop_last() =~= Seq::<UpdateUserInfoEventView>::empty());
    assert(upserted_all(s.streams, updates.drop_last()) == s.streams);
    assert(updates.last() == announced);
    let s1 = after_publisher_message(s, MessageTypeView::UpdateUserInfo(updates));
    let removals = seq![RemoveStreamEventView { stream_id: id }];
    lemma_removed_all(s1.streams, removals);
    assert(removals[0].stream_id == id);
}

/// When the publisher's connection ends, the directory is empty and the
/// slot is empty, however many streams the directory held; the viewers
/// stay.
pub proof fn lemma_disconnect_clears<S, R>(s: RelayState<S, R>)
    ensures
        after_publisher_closed(s).streams == Streams::empty(),
        after_publisher_closed(s).publisher is None,
        after_publisher_closed(s).viewers == s.viewers,
{
}

/// After the publisher's connection has ended, an answer or an ICE
/// candidate from a viewer that is still linked finds no publisher.
pub proof fn lemma_stale_link_finds_no_publisher<S, R>(
    s: RelayState<S, R>,
    viewer: Seq<char>,
    m: MessageTypeView,
)
    requires
        s.valid(),
        s.link_of(viewer) is Some,
        m is Answer || m is ICE,
    ensures
        after_publisher_closed(s).link_of(viewer) == s.link_of(viewer),
        viewer_reaction(after_publisher_closed(s), viewer, m) == Err::<
            ReactionView,
            RoutingError,
        >(RoutingError::NoActivePublisher),
{
}

/// Once a viewer is linked to a stream, an ICE candidate or an answer that
/// it sends goes to the publisher with that stream filled in, whatever
/// stream id the viewer wrote itself.
pub proof fn lemma_link_round_trip<S, R>(
    s: RelayState<S, R>,
    viewer: Seq<char>,
    stream: Seq<char>,
    ice: ICEEventView,
    answer: AnswerOfferEventView,
)
    requires
        s.valid(),
        has_key(s.viewers, viewer),
        s.publisher is Some,
    ensures
        after_link(s, viewer, stream).link_of(viewer) == Some(stream),
        viewer_reaction(after_link(s, viewer, stream), viewer, MessageTypeView::ICE(ice)) == Ok::<
            ReactionView,
            RoutingError,
        >(
            ReactionView::ToPublisher(
                MessageTypeView::ICE(
                    ICEEventView { stream_id: Some(stream), candidate: ice.candidate },
                ),
            ),
        ),
        viewer_reaction(after_link(s, viewer, stream), viewer, MessageTypeView::Answer(answer))
            == Ok::<ReactionView, RoutingError>(
            ReactionView::ToPublisher(
                MessageTypeView::Answer(
                    AnswerOfferEventView { stream_id: Some(stream), sdp: answer.sdp },
                ),
            ),
        ),
{
    lemma_with_link_keeps_ids(s.viewers, viewer, Some(stream));
}

/// Unlinking a viewer that is linked to no stream changes nothing and asks
/// the publisher for nothing.
pub proof fn lemma_unlink_without_link<S, R>(s: RelayState<S, R>, viewer: Seq<char>)
    requires
        s.valid(),
        s.link_of(viewer) is None,
    ensures
        after_unlink(s, viewer) == s,
        match unlink_reaction(s, viewer) {
            Ok((_, to_publisher)) => to_publisher is None,
            Err(_) => true,
        },
        after_unlink(after_unlink(s, viewer), viewer) == after_unlink(s, viewer),
{
    lemma_key_index(s.viewers, viewer);
    if has_key(s.viewers, viewer) {
        let i = key_index(s.viewers, viewer);
        assert(s.viewers[i].1.with_link(None) == s.viewers[i].1);
        assert(with_link(s.viewers, viewer, None) =~= s.viewers);
    }
}

/// Unlinking twice is unlinking once, whether or not the viewer was
/// linked; and where the command is carried out, the viewer is linked to
/// no stream afterwards.
pub proof fn lemma_unlink_twice<S, R>(s: RelayState<S, R>, viewer: Seq<char>)
    requires
        s.valid(),
    ensures
        command_error(s, viewer) is None ==> after_unlink(s, viewer).link_of(viewer) is None,
        after_unlink(after_unlink(s, viewer), viewer) == after_unlink(s, viewer),
{
    lemma_with_link_keeps_ids(s.viewers, viewer, None);
    if command_error(s, viewer) is None {
        lemma_valid_is_kept(
            s,
            viewer,
            viewer,
            MessageTypeView::Unlink,
            arbitrary::<S>(),
            arbitrary::<R>(),
        );
        lemma_unlink_without_link(after_unlink(s, viewer), viewer);
    }
}

} // verus!
