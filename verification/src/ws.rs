//! The relay proper: wire messages, the stream directory, the viewer table,
//! the publisher slot and the routing rules that tie them together.

use crate::ws::codec::{decode, decoded};
use crate::ws::connections::{has_linked, linked_index, ConnectionTable};
use crate::ws::directory::{entries_as_map, entries_distinct, StreamDirectory};
use crate::ws::events::{
    outcome_view, IdentityConflict, Notification, NotificationView, Reaction, ReactionView,
    RoutingError,
};
use crate::ws::json::json_parsed;
use crate::ws::message::{
    opt_text, removals_view, updates_view, AnswerOfferEvent, CaptureEvent, ICEEvent, MessageType,
};
use crate::ws::model::{
    admission, after_link, after_open_publisher, after_open_viewer, after_publisher_closed,
    after_publisher_message, after_unlink, after_viewer_closed, link_reaction,
    publisher_reaction, removed_all, unlink_reaction, upserted_all, viewer_reaction, RelayState,
};
use crate::ws::path::{endpoint_of, route, Endpoint, EndpointView};
use crate::ws::publisher::PublisherSession;
use crate::ws::text_map::{has_key, key_index, lemma_key_index};
use vstd::prelude::*;

pub mod codec;
pub mod connections;
pub mod directory;
pub mod events;
pub mod json;
pub mod laws;
pub mod message;
pub mod model;
pub mod path;
pub mod publisher;
pub mod text_map;

verus! {

/// What the directory knows about one stream.
#[derive(Debug, PartialEq, Eq)]
pub struct DiscordStream {
    pub stream_preview: String,
    pub nickname: String,
}

/// Mathematical value of a [`DiscordStream`].
pub struct DiscordStreamView {
    pub stream_preview: Seq<char>,
    pub nickname: Seq<char>,
}

impl View for DiscordStream {
    type V = DiscordStreamView;

    open spec fn view(&self) -> DiscordStreamView {
        DiscordStreamView { stream_preview: self.stream_preview@, nickname: self.nickname@ }
    }
}

impl Clone for DiscordStream {
    fn clone(&self) -> (r: Self)
        ensures
            r@ == self@,
    {
        DiscordStream {
            stream_preview: self.stream_preview.clone(),
            nickname: self.nickname.clone(),
        }
    }
}

/// A viewer's connection: the two halves of its socket and the stream it
/// is linked to, if any.
#[derive(Debug, PartialEq, Eq)]
pub struct WebConnection<S, R> {
    pub ws_sink: S,
    pub ws_stream: R,
    pub linked_stream: Option<String>,
}

/// Mathematical value of a [`WebConnection`].
pub struct WebConnectionView<S, R> {
    pub ws_sink: S,
    pub ws_stream: R,
    pub linked_stream: Option<Seq<char>>,
}

impl<S, R> View for WebConnection<S, R> {
    type V = WebConnectionView<S, R>;

    open spec fn view(&self) -> WebConnectionView<S, R> {
        WebConnectionView {
            ws_sink: self.ws_sink,
            ws_stream: self.ws_stream,
            linked_stream: opt_text(self.linked_stream),
        }
    }
}

impl<S, R> WebConnectionView<S, R> {
    /// The same connection, linked to `stream` (or to no stream).
    pub open spec fn with_link(self, stream: Option<Seq<char>>) -> Self {
        WebConnectionView { ws_sink: self.ws_sink, ws_stream: self.ws_stream, linked_stream: stream }
    }
}

/// The publisher's connection: the two halves of its socket.
#[derive(Debug, PartialEq, Eq)]
pub struct DiscordSplittedConnection<S, R> {
    pub ws_sink: S,
    pub ws_stream: R,
}

/// A viewer's connection that was not registered, with the reason. The
/// caller closes the socket.
#[derive(Debug, PartialEq, Eq)]
pub struct Rejected<S, R> {
    pub reason: IdentityConflict,
    pub ws_sink: S,
    pub ws_stream: R,
}

/// How the relay has received a new connection.
#[derive(Debug, PartialEq, Eq)]
pub enum Accepted<S, R> {
    /// As the publisher's. The session that it replaces, if any, is
    /// handed out: the caller closes its send half.
    Publisher { replaced: Option<DiscordSplittedConnection<S, R>> },
    /// As a viewer's, with the notification for the shell.
    Viewer { notification: Notification },
    /// Not at all: the caller closes the socket.
    Rejected(Rejected<S, R>),
}

/// The relay: the stream directory, the viewer table and the publisher
/// slot, and the rules by which messages and commands change them.
pub struct WebSocketServer<S, R> {
    web_connections: ConnectionTable<S, R>,
    discord_streams: StreamDirectory,
    discord_connection: PublisherSession<S, R>,
}

impl<S, R> View for WebSocketServer<S, R> {
    type V = RelayState<S, R>;

    closed spec fn view(&self) -> RelayState<S, R> {
        RelayState {
            streams: self.discord_streams@,
            viewers: self.web_connections@,
            publisher: self.discord_connection@,
        }
    }
}

impl<S, R> WebSocketServer<S, R> {
    #[verifier::type_invariant]
    spec fn state_is_valid(self) -> bool {
        self@.valid()
    }

    /// A relay to which nobody has connected yet.
    pub fn new() -> (r: Self)
        ensures
            r@ == RelayState::<S, R>::initial(),
    {
        WebSocketServer {
            web_connections: ConnectionTable::new(),
            discord_streams: StreamDirectory::new(),
            discord_connection: PublisherSession::new(),
        }
    }

    /// Tells the caller that the relay is in a valid state, as it always
    /// is.
    pub fn state_is_sound(&self)
        ensures
            self@.valid(),
    {
        proof {
            use_type_invariant(self);
        }
    }

    /// The publisher has connected. Its session becomes the current one;
    /// the session that it replaces, if any, is handed out, and the caller
    /// closes its send half.
    pub fn open_publisher(&mut self, session: DiscordSplittedConnection<S, R>) -> (former: Option<
        DiscordSplittedConnection<S, R>,
    >)
        ensures
            final(self)@ == after_open_publisher(old(self)@, session),
            former == old(self)@.publisher,
            final(self)@.valid(),
    {
        proof {
            use_type_invariant(&*self);
        }
        let mut slot = PublisherSession::new();
        let _ = slot.replace(session);
        core::mem::swap(&mut slot, &mut self.discord_connection);
        slot.take()
    }

    /// A viewer has connected under `id`. It is registered, linked to no
    /// stream, unless `id` is empty or in use: then nothing changes and
    /// the socket is handed back.
    pub fn open_viewer(&mut self, id: String, ws_sink: S, ws_stream: R) -> (r: Result<
        Notification,
        Rejected<S, R>,
    >)
        ensures
            final(self)@ == after_open_viewer(old(self)@, id@, ws_sink, ws_stream),
            final(self)@.valid(),
            match r {
                Ok(notification) => {
                    &&& admission(old(self)@, id@) is None
                    &&& notification@ == NotificationView::ViewerAdded(id@)
                },
                Err(rejected) => {
                    &&& admission(old(self)@, id@) == Some(rejected.reason)
                    &&& rejected.ws_sink == ws_sink
                    &&& rejected.ws_stream == ws_stream
                },
            },
    {
        proof {
            use_type_invariant(&*self);
        }
        if id.as_str().is_empty() {
            return Err(Rejected { reason: IdentityConflict::EmptyId, ws_sink, ws_stream });
        }
        let announced = id.clone();
        let mut table = ConnectionTable::new();
        core::mem::swap(&mut table, &mut self.web_connections);
        let outcome = table.try_insert(id, WebConnection { ws_sink, ws_stream, linked_stream: None });
        self.web_connections = table;
        match outcome {
            Ok(_) => Ok(Notification::ViewerAdded(announced)),
            Err(refused) => Err(
                Rejected {
                    reason: IdentityConflict::DuplicateId,
                    ws_sink: refused.ws_sink,
                    ws_stream: refused.ws_stream,
                },
            ),
        }
    }

    /// A connection has been made on `uri`. On the publisher's path it
    /// becomes the publisher session; on any other path it is registered
    /// as the viewer that the path names, unless that name is empty or in
    /// use.
    pub fn accept_connection(&mut self, uri: &str, ws_sink: S, ws_stream: R) -> (r: Accepted<S, R>)
        ensures
            final(self)@.valid(),
            match endpoint_of(uri@) {
                EndpointView::Publisher => {
                    &&& r matches Accepted::Publisher { replaced }
                    &&& replaced == old(self)@.publisher
                    &&& final(self)@ == after_open_publisher(
                        old(self)@,
                        DiscordSplittedConnection { ws_sink, ws_stream },
                    )
                },
                EndpointView::Viewer(id) => {
                    &&& final(self)@ == after_open_viewer(old(self)@, id, ws_sink, ws_stream)
                    &&& match admission(old(self)@, id) {
                        Some(reason) => {
                            &&& r matches Accepted::Rejected(rejected)
                            &&& rejected.reason == reason
                            &&& rejected.ws_sink == ws_sink
                            &&& rejected.ws_stream == ws_stream
                        },
                        None => {
                            &&& r matches Accepted::Viewer { notification }
                            &&& notification@ == NotificationView::ViewerAdded(id)
                        },
                    }
                },
            },
    {
        match route(uri) {
            Endpoint::Publisher => {
                let replaced = self.open_publisher(DiscordSplittedConnection { ws_sink, ws_stream });
                Accepted::Publisher { replaced }
            },
            Endpoint::Viewer(id) => match self.open_viewer(id, ws_sink, ws_stream) {
                Ok(notification) => Accepted::Viewer { notification },
                Err(rejected) => Accepted::Rejected(rejected),
            },
        }
    }

    /// The connection of the viewer called `id` has ended. The viewer
    /// leaves the table; its connection is handed out with the
    /// notification for the shell.
    pub fn viewer_closed(&mut self, id: &str) -> (r: Option<(WebConnection<S, R>, Notification)>)
        ensures
            final(self)@ == after_viewer_closed(old(self)@, id@),
            final(self)@.valid(),
            !has_key(final(self)@.viewers, id@),
            match r {
                Some((connection, notification)) => {
                    &&& has_key(old(self)@.viewers, id@)
                    &&& connection@ == old(self)@.viewers[key_index(old(self)@.viewers, id@)].1
                    &&& notification@ == NotificationView::ViewerRemoved(id@)
                },
                None => !has_key(old(self)@.viewers, id@),
            },
    {
        proof {
            use_type_invariant(&*self);
        }
        let mut table = ConnectionTable::new();
        core::mem::swap(&mut table, &mut self.web_connections);
        let removed = table.remove(id);
        proof {
            lemma_key_index(old(self)@.viewers, id@);
            if has_key(old(self)@.viewers, id@) {
                let gone = key_index(old(self)@.viewers, id@);
                assert forall|i: int| 0 <= i < table@.len() implies (#[trigger] table@[i]).0.len()
                    > 0 by {
                    let j = if i < gone {
                        i
                    } else {
                        i + 1
                    };
                    assert(table@[i] == old(self)@.viewers[j]);
                }
            }
        }
        self.web_connections = table;
        match removed {
            Some(connection) => Some((connection, Notification::ViewerRemoved(id.to_owned()))),
            None => None,
        }
    }

    /// The publisher's connection has ended. The slot and the directory
    /// are emptied; the session that was in the slot is handed out with
    /// the one notification for the shell.
    pub fn publisher_closed(&mut self) -> (r: (
        Option<DiscordSplittedConnection<S, R>>,
        Notification,
    ))
        ensures
            final(self)@ == after_publisher_closed(old(self)@),
            final(self)@.valid(),
            r.0 == old(self)@.publisher,
            r.1@ == NotificationView::PublisherDisconnected,
    {
        proof {
            use_type_invariant(&*self);
        }
        self.discord_streams = StreamDirectory::new();
        let mut slot = PublisherSession::new();
        core::mem::swap(&mut slot, &mut self.discord_connection);
        (slot.take(), Notification::PublisherDisconnected)
    }

    /// The publisher has sent `event`. Removals and announcements change
    /// the directory and are passed on to the shell; an ICE candidate or
    /// an offer goes, as it is, to the first viewer linked to the stream
    /// that it names; anything else is ignored. Without a publisher
    /// session nothing happens.
    pub fn publisher_message(&mut self, event: MessageType) -> (r: Result<Reaction, RoutingError>)
        ensures
            final(self)@ == after_publisher_message(old(self)@, event@),
            final(self)@.valid(),
            outcome_view(r) == publisher_reaction(old(self)@, event@),
    {
        proof {
            use_type_invariant(&*self);
        }
        if !self.discord_connection.is_active() {
            return Err(RoutingError::NoActivePublisher);
        }
        match event {
            MessageType::Remove(list) => {
                let mut directory = StreamDirectory::new();
                core::mem::swap(&mut directory, &mut self.discord_streams);
                let mut i: usize = 0;
                while i < list.len()
                    invariant
                        i <= list.len(),
                        directory@ == removed_all(
                            old(self)@.streams,
                            removals_view(list@).take(i as int),
                        ),
                    decreases list.len() - i,
                {
                    let _ = directory.remove(list[i].stream_id.as_str());
                    proof {
                        let all = removals_view(list@);
                        assert(all.take(i + 1).drop_last() =~= all.take(i as int));
                        assert(all.take(i + 1).last() == list@[i as int]@);
                    }
                    i += 1;
                }
                proof {
                    assert(removals_view(list@).take(list.len() as int) =~= removals_view(list@));
                }
                self.discord_streams = directory;
                Ok(Reaction::Notify(Notification::StreamsRemoved(list)))
            },
            MessageType::UpdateUserInfo(list) => {
                let mut directory = StreamDirectory::new();
                core::mem::swap(&mut directory, &mut self.discord_streams);
                let mut i: usize = 0;
                while i < list.len()
                    invariant
                        i <= list.len(),
                        directory@ == upserted_all(
                            old(self)@.streams,
                            updates_view(list@).take(i as int),
                        ),
                    decreases list.len() - i,
                {
                    let info = DiscordStream {
                        stream_preview: list[i].info.stream_preview.clone(),
                        nickname: list[i].info.nickname.clone(),
                    };
                    let _ = directory.upsert(list[i].stream_id.clone(), info);
                    proof {
                        let all = updates_view(list@);
                        assert(all.take(i + 1).drop_last() =~= all.take(i as int));
                        assert(all.take(i + 1).last() == list@[i as int]@);
                    }
                    i += 1;
                }
                proof {
                    assert(updates_view(list@).take(list.len() as int) =~= updates_view(list@));
                }
                self.discord_streams = directory;
                Ok(Reaction::Notify(Notification::UserInfoUpdated(list)))
            },
            MessageType::ICE(ice) => {
                let target = self.linked_viewer(&ice.stream_id);
                match target {
                    Ok(Some(viewer)) => Ok(
                        Reaction::ToViewer { viewer, message: MessageType::ICE(ice) },
                    ),
                    Ok(None) => Ok(Reaction::Ignored(MessageType::ICE(ice))),
                    Err(e) => Err(e),
                }
            },
            MessageType::Offer(offer) => {
                let target = self.linked_viewer(&offer.stream_id);
                match target {
                    Ok(Some(viewer)) => Ok(
                        Reaction::ToViewer { viewer, message: MessageType::Offer(offer) },
                    ),
                    Ok(None) => Ok(Reaction::Ignored(MessageType::Offer(offer))),
                    Err(e) => Err(e),
                }
            },
            other => Ok(Reaction::Ignored(other)),
        }
    }

    /// The id of the first viewer linked to `stream_id`: `Ok(None)` if no
    /// stream is named, an error if no viewer is linked to the one named.
    fn linked_viewer(&self, stream_id: &Option<String>) -> (r: Result<Option<String>, RoutingError>)
        ensures
            match *stream_id {
                Some(id) => if has_linked(self@.viewers, id@) {
                    r is Ok && r->Ok_0 is Some && r->Ok_0->0@ == self@.viewers[linked_index(
                        self@.viewers,
                        id@,
                    )].0
                } else {
                    r == Err::<Option<String>, RoutingError>(RoutingError::NoLinkedViewer)
                },
                None => r is Ok && r->Ok_0 is None,
            },
    {
        match stream_id {
            Some(id) => match self.web_connections.find_by_linked_stream(id.as_str()) {
                Some((viewer, _)) => Ok(Some(viewer.clone())),
                None => Err(RoutingError::NoLinkedViewer),
            },
            None => Ok(None),
        }
    }

    /// The viewer called `id` has sent `event`. An answer or an ICE
    /// candidate goes to the publisher, with the stream that the viewer is
    /// linked to filled in; anything else is ignored.
    pub fn viewer_message(&self, id: &str, event: MessageType) -> (r: Result<Reaction, RoutingError>)
        ensures
            outcome_view(r) == viewer_reaction(self@, id@, event@),
    {
        match event {
            MessageType::Answer(answer) => {
                match self.destination(id) {
                    Ok(stream) => Ok(
                        Reaction::ToPublisher(
                            MessageType::Answer(
                                AnswerOfferEvent { stream_id: Some(stream), sdp: answer.sdp },
                            ),
                        ),
                    ),
                    Err(e) => Err(e),
                }
            },
            MessageType::ICE(ice) => {
                match self.destination(id) {
                    Ok(stream) => Ok(
                        Reaction::ToPublisher(
                            MessageType::ICE(
                                ICEEvent { stream_id: Some(stream), candidate: ice.candidate },
                            ),
                        ),
                    ),
                    Err(e) => Err(e),
                }
            },
            other => Ok(Reaction::Ignored(other)),
        }
    }

    /// The stream that a message from the viewer called `id` is about, if
    /// the message can be delivered.
    fn destination(&self, id: &str) -> (r: Result<String, RoutingError>)
        ensures
            match r {
                Ok(stream) => {
                    &&& has_key(self@.viewers, id@)
                    &&& self@.link_of(id@) == Some(stream@)
                    &&& self@.publisher is Some
                },
                Err(e) => e == if !has_key(self@.viewers, id@) {
                    RoutingError::UnknownViewer
                } else if self@.link_of(id@) is None {
                    RoutingError::NoLinkedStream
                } else {
                    RoutingError::NoActivePublisher
                } && (!has_key(self@.viewers, id@) || self@.link_of(id@) is None
                    || self@.publisher is None),
            },
    {
        match self.web_connections.get(id) {
            None => Err(RoutingError::UnknownViewer),
            Some(connection) => match &connection.linked_stream {
                None => Err(RoutingError::NoLinkedStream),
                Some(stream) => if self.discord_connection.is_active() {
                    Ok(stream.clone())
                } else {
                    Err(RoutingError::NoActivePublisher)
                },
            },
        }
    }

    /// The command to link the viewer called `viewer_id` to `stream_id`.
    /// The publisher is asked to capture that stream. Nothing happens if
    /// the viewer or the publisher is not connected.
    pub fn link(&mut self, viewer_id: &str, stream_id: String) -> (r: Result<Reaction, RoutingError>)
        ensures
            final(self)@ == after_link(old(self)@, viewer_id@, stream_id@),
            final(self)@.valid(),
            outcome_view(r) == link_reaction(old(self)@, viewer_id@, stream_id@),
    {
        proof {
            use_type_invariant(&*self);
        }
        if !self.web_connections.contains(viewer_id) {
            return Err(RoutingError::UnknownViewer);
        }
        if !self.discord_connection.is_active() {
            return Err(RoutingError::NoActivePublisher);
        }
        let mut table = ConnectionTable::new();
        core::mem::swap(&mut table, &mut self.web_connections);
        let _ = table.set_link(viewer_id, Some(stream_id.clone()));
        proof {
            lemma_key_index(old(self)@.viewers, viewer_id@);
        }
        self.web_connections = table;
        Ok(Reaction::ToPublisher(MessageType::Capture(CaptureEvent { stream_id })))
    }

    /// The command to unlink the viewer called `viewer_id`. The viewer is
    /// told; the publisher is asked to end the capture if the viewer was
    /// linked. Nothing happens if the viewer or the publisher is not
    /// connected.
    pub fn unlink(&mut self, viewer_id: &str) -> (r: Result<(Reaction, Option<Reaction>), RoutingError>)
        ensures
            final(self)@ == after_unlink(old(self)@, viewer_id@),
            final(self)@.valid(),
            match r {
                Ok((first, second)) => unlink_reaction(old(self)@, viewer_id@) == Ok::<
                    (ReactionView, Option<ReactionView>),
                    RoutingError,
                >(
                    (
                        first@,
                        match second {
                            Some(reaction) => Some(reaction@),
                            None => None,
                        },
                    ),
                ),
                Err(e) => unlink_reaction(old(self)@, viewer_id@) == Err::<
                    (ReactionView, Option<ReactionView>),
                    RoutingError,
                >(e),
            },
    {
        proof {
            use_type_invariant(&*self);
        }
        if !self.web_connections.contains(viewer_id) {
            return Err(RoutingError::UnknownViewer);
        }
        if !self.discord_connection.is_active() {
            return Err(RoutingError::NoActivePublisher);
        }
        let mut table = ConnectionTable::new();
        core::mem::swap(&mut table, &mut self.web_connections);
        let former = table.clear_link(viewer_id);
        proof {
            lemma_key_index(old(self)@.viewers, viewer_id@);
        }
        self.web_connections = table;
        let to_viewer = Reaction::ToViewer {
            viewer: viewer_id.to_owned(),
            message: MessageType::Unlink,
        };
        let to_publisher = match former {
            Some(stream_id) => Some(
                Reaction::ToPublisher(MessageType::EndCapture(CaptureEvent { stream_id })),
            ),
            None => None,
        };
        Ok((to_viewer, to_publisher))
    }

    /// The connection of the viewer called `id`.
    pub fn viewer(&self, id: &str) -> (r: Option<&WebConnection<S, R>>)
        ensures
            match r {
                Some(connection) => has_key(self@.viewers, id@) && connection@
                    == self@.viewers[key_index(self@.viewers, id@)].1,
                None => !has_key(self@.viewers, id@),
            },
    {
        self.web_connections.get(id)
    }

    /// The publisher's session, if a publisher is connected.
    pub fn publisher(&self) -> (r: Option<&DiscordSplittedConnection<S, R>>)
        ensures
            match r {
                Some(session) => self@.publisher == Some(*session),
                None => self@.publisher is None,
            },
    {
        self.discord_connection.get()
    }

    /// Every viewer with the stream it is linked to, in order of
    /// registration.
    pub fn get_targets(&self) -> (r: Vec<(String, Option<String>)>)
        ensures
            r@.len() == self@.viewers.len(),
            forall|i: int|
                0 <= i < r@.len() ==> r@[i].0@ == self@.viewers[i].0 && opt_text(r@[i].1)
                    == self@.viewers[i].1.linked_stream,
    {
        self.web_connections.targets()
    }

    /// A copy of the directory: each stream once, with what is known
    /// about it.
    pub fn get_streams(&self) -> (r: Vec<(String, DiscordStream)>)
        ensures
            entries_distinct(r@),
            entries_as_map(r@) == self@.streams,
    {
        self.discord_streams.snapshot()
    }
}

/// One frame as it comes off a socket.
#[derive(Debug, PartialEq, Eq)]
pub enum Frame {
    Text(String),
    Binary(Vec<u8>),
    Ping(Vec<u8>),
    Pong(Vec<u8>),
    Close,
}

/// What a frame means to the loop that received it.
#[derive(Debug, PartialEq, Eq)]
pub enum Status {
    /// A message of the protocol.
    Message(MessageType),
    /// Nothing the relay understands. The frame is handed back for the
    /// log; the connection stays open.
    Unhandled(Frame),
    /// The connection is over.
    Closed,
}

/// `status` is what `message` means: a close frame ends the connection, a
/// text frame that reads as a message is that message, and every other
/// frame is handed back unhandled.
pub open spec fn is_status_of(status: Status, message: Frame) -> bool {
    match message {
        Frame::Close => status is Closed,
        Frame::Text(text) => match decoded(json_parsed(text@)) {
            Some(m) => status is Message && status->Message_0@ == m,
            None => status == Status::Unhandled(message),
        },
        _ => status == Status::Unhandled(message),
    }
}

/// Tells what a frame means to the loop that received it.
pub fn handle_message(message: Frame) -> (r: Status)
    ensures
        is_status_of(r, message),
{
    match message {
        Frame::Close => Status::Closed,
        Frame::Text(text) => match decode(text.as_str()) {
            Some(event) => Status::Message(event),
            None => Status::Unhandled(Frame::Text(text)),
        },
        other => Status::Unhandled(other),
    }
}

/// Tells what a read from the socket means. A read that yields no frame,
/// because the stream has ended or has failed, ends the connection like a
/// close frame.
pub fn handle_read(read: Option<Frame>) -> (r: Status)
    ensures
        match read {
            Some(message) => is_status_of(r, message),
            None => r is Closed,
        },
{
    match read {
        Some(message) => handle_message(message),
        None => Status::Closed,
    }
}

} // verus!
