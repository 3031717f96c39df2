//! The slot that holds the one publisher session, if a publisher is
//! connected.

use crate::ws::events::RoutingError;
use crate::ws::message::MessageType;
use crate::ws::DiscordSplittedConnection;
use vstd::prelude::*;

verus! {

/// At most one publisher session.
pub struct PublisherSession<S, R> {
    current: Option<DiscordSplittedConnection<S, R>>,
}

impl<S, R> View for PublisherSession<S, R> {
    type V = Option<DiscordSplittedConnection<S, R>>;

    closed spec fn view(&self) -> Option<DiscordSplittedConnection<S, R>> {
        self.current
    }
}

impl<S, R> PublisherSession<S, R> {
    /// A slot without a session.
    pub fn new() -> (r: Self)
        ensures
            r@ is None,
    {
        PublisherSession { current: None }
    }

    /// Whether a publisher is connected.
    pub fn is_active(&self) -> (r: bool)
        ensures
            r == (self@ is Some),
    {
        self.current.is_some()
    }

    /// The session, if a publisher is connected.
    pub fn get(&self) -> (r: Option<&DiscordSplittedConnection<S, R>>)
        ensures
            match r {
                Some(session) => self@ == Some(*session),
                None => self@ is None,
            },
    {
        self.current.as_ref()
    }

    /// Makes `session` the current one and hands out the one it replaces,
    /// whose send half the caller must close.
    pub fn replace(&mut self, session: DiscordSplittedConnection<S, R>) -> (former: Option<
        DiscordSplittedConnection<S, R>,
    >)
        ensures
            final(self)@ == Some(session),
            former == old(self)@,
    {
        let mut slot = Some(session);
        core::mem::swap(&mut slot, &mut self.current);
        slot
    }

    /// Empties the slot and hands out the session that was in it.
    pub fn take(&mut self) -> (former: Option<DiscordSplittedConnection<S, R>>)
        ensures
            final(self)@ is None,
            former == old(self)@,
    {
        let mut slot = None;
        core::mem::swap(&mut slot, &mut self.current);
        slot
    }

    /// Pairs `message` with the send half it must be written to; fails if
    /// no publisher is connected.
    pub fn send(&self, message: MessageType) -> (r: Result<(&S, MessageType), RoutingError>)
        ensures
            match r {
                Ok((sink, out)) => self@ is Some && *sink == self@->0.ws_sink && out == message,
                Err(e) => self@ is None && e == RoutingError::NoActivePublisher,
            },
    {
        match &self.current {
            Some(session) => Ok((&session.ws_sink, message)),
            None => Err(RoutingError::NoActivePublisher),
        }
    }
}

} // verus!
