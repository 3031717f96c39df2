//! The relay as a state machine over mathematical values: its state, and
//! for each message or command the state that follows and the reaction
//! that is owed.

use crate::ws::connections::{has_linked, linked_index, with_link, without, Viewers};
use crate::ws::events::{IdentityConflict, NotificationView, ReactionView, RoutingError};
use crate::ws::message::{
    AnswerOfferEventView, CaptureEventView, ICEEventView, MessageTypeView, RemoveStreamEventView,
    UpdateUserInfoEventView, UserInfoView,
};
use crate::ws::text_map::{distinct_keys, has_key, key_index};
use crate::ws::{DiscordSplittedConnection, DiscordStreamView, WebConnectionView};
use vstd::prelude::*;

verus! {

/// The directory as a mathematical mapping.
pub type Streams = Map<Seq<char>, DiscordStreamView>;

/// Everything the relay knows at one moment.
pub struct RelayState<S, R> {
    /// The streams that the publisher offers.
    pub streams: Streams,
    /// The connected viewers, in order of registration.
    pub viewers: Viewers<S, R>,
    /// The publisher's session, if a publisher is connected.
    pub publisher: Option<DiscordSplittedConnection<S, R>>,
}

impl<S, R> RelayState<S, R> {
    /// The state of a relay to which nobody has connected yet.
    pub open spec fn initial() -> Self {
        RelayState { streams: Map::empty(), viewers: Seq::empty(), publisher: None }
    }

    /// What holds of every state that a relay can be in: no viewer id
    /// occurs twice, none is empty, and the directory is empty unless a
    /// publisher is connected.
    pub open spec fn valid(self) -> bool {
        &&& distinct_keys(self.viewers)
        &&& forall|i: int| 0 <= i < self.viewers.len() ==> (#[trigger] self.viewers[i]).0.len() > 0
        &&& self.publisher is None ==> self.streams == Streams::empty()
    }

    /// The same state with another directory.
    pub open spec fn with_streams(self, streams: Streams) -> Self {
        RelayState { streams, viewers: self.viewers, publisher: self.publisher }
    }

    /// The same state with other viewers.
    pub open spec fn with_viewers(self, viewers: Viewers<S, R>) -> Self {
        RelayState { streams: self.streams, viewers, publisher: self.publisher }
    }

    /// The same state with another publisher slot.
    pub open spec fn with_publisher(self, publisher: Option<DiscordSplittedConnection<S, R>>) -> Self {
        RelayState { streams: self.streams, viewers: self.viewers, publisher }
    }

    /// The stream that the viewer called `id` is linked to; `None` if it
    /// is linked to none or is not connected.
    pub open spec fn link_of(self, id: Seq<char>) -> Option<Seq<char>> {
        if has_key(self.viewers, id) {
            self.viewers[key_index(self.viewers, id)].1.linked_stream
        } else {
            None
        }
    }
}

/// The directory entry that an announcement stands for.
pub open spec fn stream_of(info: UserInfoView) -> DiscordStreamView {
    DiscordStreamView { stream_preview: info.stream_preview, nickname: info.nickname }
}

/// The directory after each stream of `list` has been removed, first to
/// last.
pub open spec fn removed_all(streams: Streams, list: Seq<RemoveStreamEventView>) -> Streams
    decreases list.len(),
{
    if list.len() == 0 {
        streams
    } else {
        removed_all(streams, list.drop_last()).remove(list.last().stream_id)
    }
}

/// The directory after each announcement of `list` has been entered, first
/// to last, a later one replacing an earlier one for the same stream.
pub open spec fn upserted_all(streams: Streams, list: Seq<UpdateUserInfoEventView>) -> Streams
    decreases list.len(),
{
    if list.len() == 0 {
        streams
    } else {
        upserted_all(streams, list.drop_last()).insert(
            list.last().stream_id,
            stream_of(list.last().info),
        )
    }
}

/// Where a message from the publisher that names `stream` goes: to the
/// first viewer linked to that stream, and nowhere if there is none.
pub open spec fn forwarded<S, R>(
    s: RelayState<S, R>,
    stream: Option<Seq<char>>,
    m: MessageTypeView,
) -> Result<ReactionView, RoutingError> {
    match stream {
        Some(id) => if has_linked(s.viewers, id) {
            Ok(ReactionView::ToViewer { viewer: s.viewers[linked_index(s.viewers, id)].0, message: m })
        } else {
            Err(RoutingError::NoLinkedViewer)
        },
        None => Ok(ReactionView::Ignored(m)),
    }
}

/// What is owed after the publisher has sent `m`.
pub open spec fn publisher_reaction<S, R>(s: RelayState<S, R>, m: MessageTypeView) -> Result<
    ReactionView,
    RoutingError,
> {
    if s.publisher is None {
        Err(RoutingError::NoActivePublisher)
    } else {
        match m {
            MessageTypeView::Remove(list) => Ok(
                ReactionView::Notify(NotificationView::StreamsRemoved(list)),
            ),
            MessageTypeView::UpdateUserInfo(list) => Ok(
                ReactionView::Notify(NotificationView::UserInfoUpdated(list)),
            ),
            MessageTypeView::ICE(e) => forwarded(s, e.stream_id, m),
            MessageTypeView::Offer(e) => forwarded(s, e.stream_id, m),
            _ => Ok(ReactionView::Ignored(m)),
        }
    }
}

/// The state after the publisher has sent `m`.
pub open spec fn after_publisher_message<S, R>(
    s: RelayState<S, R>,
    m: MessageTypeView,
) -> RelayState<S, R> {
    if s.publisher is None {
        s
    } else {
        match m {
            MessageTypeView::Remove(list) => s.with_streams(removed_all(s.streams, list)),
            MessageTypeView::UpdateUserInfo(list) => s.with_streams(upserted_all(s.streams, list)),
            _ => s,
        }
    }
}

/// The state after the publisher's connection has ended.
pub open spec fn after_publisher_closed<S, R>(s: RelayState<S, R>) -> RelayState<S, R> {
    RelayState { streams: Map::empty(), viewers: s.viewers, publisher: None }
}

/// A viewer's message with the stream id filled in.
pub open spec fn addressed(m: MessageTypeView, stream: Seq<char>) -> MessageTypeView {
    match m {
        MessageTypeView::Answer(e) => MessageTypeView::Answer(
            AnswerOfferEventView { stream_id: Some(stream), sdp: e.sdp },
        ),
        MessageTypeView::ICE(e) => MessageTypeView::ICE(
            ICEEventView { stream_id: Some(stream), candidate: e.candidate },
        ),
        _ => m,
    }
}

/// What is owed after the viewer called `id` has sent `m`. The state does
/// not change.
pub open spec fn viewer_reaction<S, R>(
    s: RelayState<S, R>,
    id: Seq<char>,
    m: MessageTypeView,
) -> Result<ReactionView, RoutingError> {
    if m is Answer || m is ICE {
        if !has_key(s.viewers, id) {
            Err(RoutingError::UnknownViewer)
        } else {
            match s.link_of(id) {
                None => Err(RoutingError::NoLinkedStream),
                Some(stream) => if s.publisher is None {
                    Err(RoutingError::NoActivePublisher)
                } else {
                    Ok(ReactionView::ToPublisher(addressed(m, stream)))
                },
            }
        }
    } else {
        Ok(ReactionView::Ignored(m))
    }
}

/// Why a command that names `viewer` cannot be carried out, if it cannot.
pub open spec fn command_error<S, R>(s: RelayState<S, R>, viewer: Seq<char>) -> Option<
    RoutingError,
> {
    if !has_key(s.viewers, viewer) {
        Some(RoutingError::UnknownViewer)
    } else if s.publisher is None {
        Some(RoutingError::NoActivePublisher)
    } else {
        None
    }
}

/// What is owed after the command to link `viewer` to `stream`.
pub open spec fn link_reaction<S, R>(
    s: RelayState<S, R>,
    viewer: Seq<char>,
    stream: Seq<char>,
) -> Result<ReactionView, RoutingError> {
    match command_error(s, viewer) {
        Some(e) => Err(e),
        None => Ok(
            ReactionView::ToPublisher(
                MessageTypeView::Capture(CaptureEventView { stream_id: stream }),
            ),
        ),
    }
}

/// The state after the command to link `viewer` to `stream`.
pub open spec fn after_link<S, R>(
    s: RelayState<S, R>,
    viewer: Seq<char>,
    stream: Seq<char>,
) -> RelayState<S, R> {
    if command_error(s, viewer) is None {
        s.with_viewers(with_link(s.viewers, viewer, Some(stream)))
    } else {
        s
    }
}

/// What is owed after the command to unlink `viewer`: first a message for
/// the viewer, then, if it was linked, one for the publisher.
pub open spec fn unlink_reaction<S, R>(s: RelayState<S, R>, viewer: Seq<char>) -> Result<
    (ReactionView, Option<ReactionView>),
    RoutingError,
> {
    match command_error(s, viewer) {
        Some(e) => Err(e),
        None => Ok(
            (
                ReactionView::ToViewer { viewer, message: MessageTypeView::Unlink },
                match s.link_of(viewer) {
                    Some(stream) => Some(
                        ReactionView::ToPublisher(
                            MessageTypeView::EndCapture(CaptureEventView { stream_id: stream }),
                        ),
                    ),
                    None => None,
                },
            ),
        ),
    }
}

/// The state after the command to unlink `viewer`.
pub open spec fn after_unlink<S, R>(s: RelayState<S, R>, viewer: Seq<char>) -> RelayState<S, R> {
    if command_error(s, viewer) is None {
        s.with_viewers(with_link(s.viewers, viewer, None))
    } else {
        s
    }
}

/// The state after the connection of the viewer called `id` has ended.
pub open spec fn after_viewer_closed<S, R>(s: RelayState<S, R>, id: Seq<char>) -> RelayState<S, R> {
    s.with_viewers(without(s.viewers, id))
}

/// A connection that has just been registered: linked to no stream.
pub open spec fn fresh_connection<S, R>(ws_sink: S, ws_stream: R) -> WebConnectionView<S, R> {
    WebConnectionView { ws_sink, ws_stream, linked_stream: None }
}

/// Why a viewer that asks to connect under `id` is turned away, if it is.
pub open spec fn admission<S, R>(s: RelayState<S, R>, id: Seq<char>) -> Option<IdentityConflict> {
    if id.len() == 0 {
        Some(IdentityConflict::EmptyId)
    } else if has_key(s.viewers, id) {
        Some(IdentityConflict::DuplicateId)
    } else {
        None
    }
}

/// The state after a viewer has asked to connect under `id`.
pub open spec fn after_open_viewer<S, R>(
    s: RelayState<S, R>,
    id: Seq<char>,
    ws_sink: S,
    ws_stream: R,
) -> RelayState<S, R> {
    if admission(s, id) is None {
        s.with_viewers(s.viewers.push((id, fresh_connection(ws_sink, ws_stream))))
    } else {
        s
    }
}

/// The state after the publisher has connected with `session`.
pub open spec fn after_open_publisher<S, R>(
    s: RelayState<S, R>,
    session: DiscordSplittedConnection<S, R>,
) -> RelayState<S, R> {
    s.with_publisher(Some(session))
}

} // verus!
