//! What the relay hands back to whoever drives it: notifications for the
//! user-interface shell, messages to put on a socket, and the errors that
//! tell why nothing was routed.

use crate::ws::message::{
    removals_view, updates_view, MessageType, MessageTypeView, RemoveStreamEvent,
    RemoveStreamEventView, UpdateUserInfoEvent, UpdateUserInfoEventView,
};
use vstd::prelude::*;

verus! {

/// Why a message or a command could not be routed. None of these closes a
/// connection.
#[derive(Debug, Clone, Copy, PartialEq, Eq, Structural)]
pub enum RoutingError {
    /// A message from the publisher names a stream to which no viewer is
    /// linked.
    NoLinkedViewer,
    /// A message from a viewer needs the stream that the viewer is linked
    /// to, and it is linked to none.
    NoLinkedStream,
    /// No publisher is connected.
    NoActivePublisher,
    /// No viewer of that name is connected.
    UnknownViewer,
}

/// Why a viewer's connection was turned away at the door.
#[derive(Debug, Clone, Copy, PartialEq, Eq, Structural)]
pub enum IdentityConflict {
    /// The request path ends in no id.
    EmptyId,
    /// A viewer of that name is connected already.
    DuplicateId,
}

/// Something the user-interface shell is told.
#[derive(Debug, PartialEq, Eq)]
pub enum Notification {
    StreamsRemoved(Vec<RemoveStreamEvent>),
    UserInfoUpdated(Vec<UpdateUserInfoEvent>),
    PublisherDisconnected,
    ViewerAdded(String),
    ViewerRemoved(String),
}

/// Mathematical value of a [`Notification`].
pub enum NotificationView {
    StreamsRemoved(Seq<RemoveStreamEventView>),
    UserInfoUpdated(Seq<UpdateUserInfoEventView>),
    PublisherDisconnected,
    ViewerAdded(Seq<char>),
    ViewerRemoved(Seq<char>),
}

impl View for Notification {
    type V = NotificationView;

    open spec fn view(&self) -> NotificationView {
        match *self {
            Notification::StreamsRemoved(list) => NotificationView::StreamsRemoved(
                removals_view(list@),
            ),
            Notification::UserInfoUpdated(list) => NotificationView::UserInfoUpdated(
                updates_view(list@),
            ),
            Notification::PublisherDisconnected => NotificationView::PublisherDisconnected,
            Notification::ViewerAdded(id) => NotificationView::ViewerAdded(id@),
            Notification::ViewerRemoved(id) => NotificationView::ViewerRemoved(id@),
        }
    }
}

impl Notification {
    /// The topic under which the shell receives this notification.
    pub fn topic(&self) -> (r: &'static str)
        ensures
            r@ == topic_of(self@),
    {
        match self {
            Notification::StreamsRemoved(_) => "streams-removed",
            Notification::UserInfoUpdated(_) => "user-info-updated",
            Notification::PublisherDisconnected => "publisher-disconnected",
            Notification::ViewerAdded(_) => "viewer-added",
            Notification::ViewerRemoved(_) => "viewer-removed",
        }
    }
}

/// The topic of each kind of notification.
pub open spec fn topic_of(n: NotificationView) -> Seq<char> {
    match n {
        NotificationView::StreamsRemoved(_) => "streams-removed"@,
        NotificationView::UserInfoUpdated(_) => "user-info-updated"@,
        NotificationView::PublisherDisconnected => "publisher-disconnected"@,
        NotificationView::ViewerAdded(_) => "viewer-added"@,
        NotificationView::ViewerRemoved(_) => "viewer-removed"@,
    }
}

/// What the driver of the relay must do after the relay has handled a
/// message or a command.
#[derive(Debug, PartialEq, Eq)]
pub enum Reaction {
    /// Tell the shell.
    Notify(Notification),
    /// Write `message` to the send half of the viewer called `viewer`.
    ToViewer { viewer: String, message: MessageType },
    /// Write the message to the publisher's send half.
    ToPublisher(MessageType),
    /// Nothing: the message is not one that this side may send. It is
    /// handed back for the log.
    Ignored(MessageType),
}

/// Mathematical value of a [`Reaction`].
pub enum ReactionView {
    Notify(NotificationView),
    ToViewer { viewer: Seq<char>, message: MessageTypeView },
    ToPublisher(MessageTypeView),
    Ignored(MessageTypeView),
}

impl View for Reaction {
    type V = ReactionView;

    open spec fn view(&self) -> ReactionView {
        match *self {
            Reaction::Notify(n) => ReactionView::Notify(n@),
            Reaction::ToViewer { viewer, message } => ReactionView::ToViewer {
                viewer: viewer@,
                message: message@,
            },
            Reaction::ToPublisher(m) => ReactionView::ToPublisher(m@),
            Reaction::Ignored(m) => ReactionView::Ignored(m@),
        }
    }
}

/// The value of what a handler returns: a reaction or an error.
pub open spec fn outcome_view(r: Result<Reaction, RoutingError>) -> Result<
    ReactionView,
    RoutingError,
> {
    match r {
        Ok(reaction) => Ok(reaction@),
        Err(e) => Err(e),
    }
}

} // verus!
