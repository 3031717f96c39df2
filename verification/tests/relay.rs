use discord_source::ws::codec::encode;
use discord_source::ws::events::{IdentityConflict, Notification, Reaction, RoutingError};
use discord_source::ws::message::{
    AnswerOfferEvent, CaptureEvent, ICEEvent, MessageType, RemoveStreamEvent, UpdateUserInfoEvent,
    UserInfo,
};
use discord_source::ws::path::{route, viewer_id, Endpoint};
use discord_source::ws::{
    Accepted, DiscordSplittedConnection, DiscordStream, Rejected, WebConnection, WebSocketServer,
};

type Relay = WebSocketServer<u32, u32>;

fn session(n: u32) -> DiscordSplittedConnection<u32, u32> {
    DiscordSplittedConnection { ws_sink: n, ws_stream: n + 1 }
}

fn announce(stream_id: &str, nickname: &str) -> UpdateUserInfoEvent {
    UpdateUserInfoEvent {
        stream_id: stream_id.to_string(),
        user_id: format!("user-{}", stream_id),
        info: UserInfo { nickname: nickname.to_string(), stream_preview: "aGk=".to_string() },
    }
}

fn ice(stream_id: Option<&str>, candidate: &str) -> MessageType {
    MessageType::ICE(ICEEvent {
        stream_id: stream_id.map(|s| s.to_string()),
        candidate: candidate.to_string(),
    })
}

fn offer(stream_id: Option<&str>, sdp: &str) -> MessageType {
    MessageType::Offer(AnswerOfferEvent {
        stream_id: stream_id.map(|s| s.to_string()),
        sdp: sdp.to_string(),
    })
}

fn answer(stream_id: Option<&str>, sdp: &str) -> MessageType {
    MessageType::Answer(AnswerOfferEvent {
        stream_id: stream_id.map(|s| s.to_string()),
        sdp: sdp.to_string(),
    })
}

/// A relay with a publisher, viewer `abc` linked to stream `42`.
fn linked_relay() -> Relay {
    let mut relay = Relay::new();
    assert_eq!(relay.open_publisher(session(1)), None);
    assert!(relay.open_viewer("abc".to_string(), 10, 11).is_ok());
    assert!(relay.link("abc", "42".to_string()).is_ok());
    relay
}

#[test]
fn a_new_relay_is_empty() {
    let relay = Relay::new();
    assert!(relay.get_streams().is_empty());
    assert!(relay.get_targets().is_empty());
    assert_eq!(relay.publisher(), None);
    assert_eq!(relay.viewer("abc"), None);
}

#[test]
fn the_publisher_path_is_the_publishers() {
    assert_eq!(route("/discord"), Endpoint::Publisher);
}

#[test]
fn any_other_path_is_a_viewers() {
    assert_eq!(route("/abc"), Endpoint::Viewer("abc".to_string()));
    assert_eq!(route("/a/b/c"), Endpoint::Viewer("c".to_string()));
    assert_eq!(route("abc"), Endpoint::Viewer("abc".to_string()));
    assert_eq!(route("/discord/"), Endpoint::Viewer("".to_string()));
    assert_eq!(route("/Discord"), Endpoint::Viewer("Discord".to_string()));
    assert_eq!(route("/x/discord"), Endpoint::Viewer("discord".to_string()));
    assert_eq!(route("/"), Endpoint::Viewer("".to_string()));
    assert_eq!(route(""), Endpoint::Viewer("".to_string()));
}

#[test]
fn the_viewer_id_is_the_last_segment() {
    assert_eq!(viewer_id("/abc"), "abc");
    assert_eq!(viewer_id("/abc/"), "");
    assert_eq!(viewer_id("//x"), "x");
    assert_eq!(viewer_id("/caf\u{e9}/\u{1f600}z"), "\u{1f600}z");
    assert_eq!(viewer_id("/abc?x=1"), "abc?x=1");
}

#[test]
fn announcing_a_stream_puts_it_in_the_directory() {
    let mut relay = Relay::new();
    relay.open_publisher(session(1));
    let list = vec![announce("42", "Bob")];
    let reaction = relay.publisher_message(MessageType::UpdateUserInfo(list.clone()));
    assert_eq!(reaction, Ok(Reaction::Notify(Notification::UserInfoUpdated(list))));
    assert_eq!(
        relay.get_streams(),
        vec![(
            "42".to_string(),
            DiscordStream { stream_preview: "aGk=".to_string(), nickname: "Bob".to_string() }
        )]
    );
}

#[test]
fn a_later_announcement_replaces_an_earlier_one() {
    let mut relay = Relay::new();
    relay.open_publisher(session(1));
    let list = vec![announce("42", "Bob"), announce("43", "Eve"), announce("42", "Robert")];
    assert!(relay.publisher_message(MessageType::UpdateUserInfo(list)).is_ok());
    let streams = relay.get_streams();
    assert_eq!(streams.len(), 2);
    assert_eq!(streams[0].0, "42");
    assert_eq!(streams[0].1.nickname, "Robert");
    assert_eq!(streams[1].0, "43");
    assert_eq!(streams[1].1.nickname, "Eve");
}

#[test]
fn linking_asks_the_publisher_to_capture() {
    let mut relay = Relay::new();
    relay.open_publisher(session(1));
    assert_eq!(
        relay.open_viewer("abc".to_string(), 10, 11),
        Ok(Notification::ViewerAdded("abc".to_string()))
    );
    let reaction = relay.link("abc", "42".to_string()).unwrap();
    assert_eq!(
        reaction,
        Reaction::ToPublisher(MessageType::Capture(CaptureEvent { stream_id: "42".to_string() }))
    );
    match reaction {
        Reaction::ToPublisher(message) => {
            assert_eq!(encode(&message), "{\"type\":\"capture\",\"detail\":{\"streamId\":\"42\"}}")
        }
        other => panic!("unexpected reaction {:?}", other),
    }
    assert_eq!(relay.get_targets(), vec![("abc".to_string(), Some("42".to_string()))]);
}

#[test]
fn a_viewers_ice_goes_to_the_publisher_with_the_stream_filled_in() {
    let relay = linked_relay();
    let reaction = relay.viewer_message("abc", ice(None, "x")).unwrap();
    assert_eq!(reaction, Reaction::ToPublisher(ice(Some("42"), "x")));
}

#[test]
fn link_round_trip_on_the_wire() {
    let mut relay = Relay::new();
    relay.open_publisher(session(1));
    relay.open_viewer("viewerA".to_string(), 10, 11).unwrap();
    relay.link("viewerA", "42".to_string()).unwrap();
    let sent = discord_source::ws::codec::decode("{\"type\":\"ice\",\"detail\":{\"candidate\":\"c1\"}}")
        .unwrap();
    match relay.viewer_message("viewerA", sent) {
        Ok(Reaction::ToPublisher(message)) => assert_eq!(
            encode(&message),
            "{\"type\":\"ice\",\"detail\":{\"streamId\":\"42\",\"candidate\":\"c1\"}}"
        ),
        other => panic!("unexpected outcome {:?}", other),
    }
}

#[test]
fn a_viewers_own_stream_id_is_overwritten() {
    let relay = linked_relay();
    assert_eq!(
        relay.viewer_message("abc", ice(Some("99"), "x")),
        Ok(Reaction::ToPublisher(ice(Some("42"), "x")))
    );
    assert_eq!(
        relay.viewer_message("abc", answer(Some("99"), "sdp")),
        Ok(Reaction::ToPublisher(answer(Some("42"), "sdp")))
    );
    assert_eq!(
        relay.viewer_message("abc", answer(None, "sdp")),
        Ok(Reaction::ToPublisher(answer(Some("42"), "sdp")))
    );
}

#[test]
fn an_offer_goes_to_the_linked_viewer_as_it_is() {
    let mut relay = linked_relay();
    assert_eq!(
        relay.publisher_message(offer(Some("42"), "...")),
        Ok(Reaction::ToViewer { viewer: "abc".to_string(), message: offer(Some("42"), "...") })
    );
    assert_eq!(
        relay.publisher_message(ice(Some("42"), "c")),
        Ok(Reaction::ToViewer { viewer: "abc".to_string(), message: ice(Some("42"), "c") })
    );
}

#[test]
fn an_offer_for_a_stream_without_viewer_is_a_routing_miss() {
    let mut relay = linked_relay();
    assert_eq!(relay.publisher_message(offer(Some("43"), "...")), Err(RoutingError::NoLinkedViewer));
    assert_eq!(relay.publisher_message(ice(Some(""), "c")), Err(RoutingError::NoLinkedViewer));
    assert_eq!(relay.get_targets(), vec![("abc".to_string(), Some("42".to_string()))]);
    assert!(relay.publisher().is_some());
}

#[test]
fn an_offer_without_stream_id_is_ignored() {
    let mut relay = linked_relay();
    assert_eq!(
        relay.publisher_message(offer(None, "...")),
        Ok(Reaction::Ignored(offer(None, "...")))
    );
    assert_eq!(
        relay.publisher_message(ice(None, "c")),
        Ok(Reaction::Ignored(ice(None, "c")))
    );
}

#[test]
fn messages_of_the_wrong_side_are_ignored() {
    let mut relay = linked_relay();
    assert_eq!(
        relay.publisher_message(answer(Some("42"), "x")),
        Ok(Reaction::Ignored(answer(Some("42"), "x")))
    );
    assert_eq!(
        relay.publisher_message(MessageType::Unlink),
        Ok(Reaction::Ignored(MessageType::Unlink))
    );
    assert_eq!(
        relay.viewer_message("abc", offer(Some("42"), "x")),
        Ok(Reaction::Ignored(offer(Some("42"), "x")))
    );
    let removal = MessageType::Remove(vec![RemoveStreamEvent { stream_id: "42".to_string() }]);
    assert_eq!(relay.viewer_message("abc", removal.clone()), Ok(Reaction::Ignored(removal)));
    assert_eq!(
        relay.viewer_message("nobody", MessageType::Unlink),
        Ok(Reaction::Ignored(MessageType::Unlink))
    );
}

#[test]
fn a_second_connection_under_the_same_id_is_rejected() {
    let mut relay = linked_relay();
    assert_eq!(
        relay.open_viewer("abc".to_string(), 20, 21),
        Err(Rejected { reason: IdentityConflict::DuplicateId, ws_sink: 20, ws_stream: 21 })
    );
    assert_eq!(
        relay.viewer("abc"),
        Some(&WebConnection { ws_sink: 10, ws_stream: 11, linked_stream: Some("42".to_string()) })
    );
    assert_eq!(relay.get_targets().len(), 1);
    assert_eq!(
        relay.viewer_message("abc", ice(None, "x")),
        Ok(Reaction::ToPublisher(ice(Some("42"), "x")))
    );
}

#[test]
fn a_connection_without_id_is_rejected() {
    let mut relay = Relay::new();
    assert_eq!(
        relay.open_viewer(String::new(), 20, 21),
        Err(Rejected { reason: IdentityConflict::EmptyId, ws_sink: 20, ws_stream: 21 })
    );
    assert!(relay.get_targets().is_empty());
}

#[test]
fn connections_are_accepted_by_their_path() {
    let mut relay = Relay::new();
    assert_eq!(relay.accept_connection("/discord", 1, 2), Accepted::Publisher { replaced: None });
    assert_eq!(
        relay.accept_connection("/abc", 10, 11),
        Accepted::Viewer { notification: Notification::ViewerAdded("abc".to_string()) }
    );
    assert_eq!(
        relay.accept_connection("/abc", 20, 21),
        Accepted::Rejected(Rejected {
            reason: IdentityConflict::DuplicateId,
            ws_sink: 20,
            ws_stream: 21
        })
    );
    assert_eq!(
        relay.accept_connection("/", 30, 31),
        Accepted::Rejected(Rejected { reason: IdentityConflict::EmptyId, ws_sink: 30, ws_stream: 31 })
    );
    assert_eq!(
        relay.accept_connection("/discord", 3, 4),
        Accepted::Publisher {
            replaced: Some(DiscordSplittedConnection { ws_sink: 1, ws_stream: 2 })
        }
    );
    assert_eq!(relay.publisher(), Some(&DiscordSplittedConnection { ws_sink: 3, ws_stream: 4 }));
    assert_eq!(relay.get_targets(), vec![("abc".to_string(), None)]);
}

#[test]
fn a_second_publisher_replaces_the_first() {
    let mut relay = Relay::new();
    assert_eq!(relay.open_publisher(session(1)), None);
    assert!(relay.publisher_message(MessageType::UpdateUserInfo(vec![announce("42", "Bob")])).is_ok());
    assert_eq!(relay.open_publisher(session(5)), Some(session(1)));
    assert_eq!(relay.publisher(), Some(&session(5)));
    assert_eq!(relay.get_streams().len(), 1);
}

#[test]
fn when_the_publisher_drops_the_directory_is_emptied() {
    let mut relay = linked_relay();
    let list = vec![announce("42", "Bob"), announce("43", "Eve"), announce("44", "Ann")];
    assert!(relay.publisher_message(MessageType::UpdateUserInfo(list)).is_ok());
    assert_eq!(relay.get_streams().len(), 3);
    let (former, notification) = relay.publisher_closed();
    assert_eq!(former, Some(session(1)));
    assert_eq!(notification, Notification::PublisherDisconnected);
    assert!(relay.get_streams().is_empty());
    assert_eq!(relay.publisher(), None);
    assert_eq!(relay.get_targets(), vec![("abc".to_string(), Some("42".to_string()))]);
    assert_eq!(relay.viewer_message("abc", ice(None, "x")), Err(RoutingError::NoActivePublisher));
    assert_eq!(relay.viewer_message("abc", answer(None, "x")), Err(RoutingError::NoActivePublisher));
}

#[test]
fn closing_without_publisher_still_notifies_once() {
    let mut relay = Relay::new();
    assert_eq!(relay.publisher_closed(), (None, Notification::PublisherDisconnected));
}

#[test]
fn publisher_messages_without_session_change_nothing() {
    let mut relay = Relay::new();
    relay.open_viewer("abc".to_string(), 10, 11).unwrap();
    assert_eq!(
        relay.publisher_message(MessageType::UpdateUserInfo(vec![announce("42", "Bob")])),
        Err(RoutingError::NoActivePublisher)
    );
    assert_eq!(relay.publisher_message(offer(Some("42"), "x")), Err(RoutingError::NoActivePublisher));
    assert!(relay.get_streams().is_empty());
}

#[test]
fn a_removed_stream_leaves_the_directory() {
    let mut relay = Relay::new();
    relay.open_publisher(session(1));
    relay.open_viewer("abc".to_string(), 10, 11).unwrap();
    let list = vec![announce("42", "Bob"), announce("43", "Eve")];
    assert!(relay.publisher_message(MessageType::UpdateUserInfo(list)).is_ok());
    let removals = vec![
        RemoveStreamEvent { stream_id: "42".to_string() },
        RemoveStreamEvent { stream_id: "nope".to_string() },
    ];
    assert_eq!(
        relay.publisher_message(MessageType::Remove(removals.clone())),
        Ok(Reaction::Notify(Notification::StreamsRemoved(removals)))
    );
    let streams = relay.get_streams();
    assert_eq!(streams.len(), 1);
    assert_eq!(streams[0].0, "43");
    assert_eq!(relay.publisher_message(offer(Some("42"), "x")), Err(RoutingError::NoLinkedViewer));
}

#[test]
fn a_link_outlives_the_removal_of_its_stream() {
    let mut relay = linked_relay();
    assert!(relay.publisher_message(MessageType::UpdateUserInfo(vec![announce("42", "Bob")])).is_ok());
    let removals = vec![RemoveStreamEvent { stream_id: "42".to_string() }];
    assert!(relay.publisher_message(MessageType::Remove(removals)).is_ok());
    assert!(relay.get_streams().is_empty());
    assert_eq!(
        relay.publisher_message(offer(Some("42"), "x")),
        Ok(Reaction::ToViewer { viewer: "abc".to_string(), message: offer(Some("42"), "x") })
    );
}

#[test]
fn a_viewer_without_link_cannot_send() {
    let mut relay = Relay::new();
    relay.open_publisher(session(1));
    relay.open_viewer("abc".to_string(), 10, 11).unwrap();
    assert_eq!(relay.viewer_message("abc", ice(None, "x")), Err(RoutingError::NoLinkedStream));
    assert_eq!(relay.viewer_message("abc", answer(None, "x")), Err(RoutingError::NoLinkedStream));
}

#[test]
fn an_unknown_viewer_cannot_send() {
    let relay = linked_relay();
    assert_eq!(relay.viewer_message("xyz", ice(None, "x")), Err(RoutingError::UnknownViewer));
}

#[test]
fn link_needs_viewer_and_publisher() {
    let mut relay = Relay::new();
    assert_eq!(relay.link("abc", "42".to_string()), Err(RoutingError::UnknownViewer));
    relay.open_viewer("abc".to_string(), 10, 11).unwrap();
    assert_eq!(relay.link("abc", "42".to_string()), Err(RoutingError::NoActivePublisher));
    assert_eq!(relay.get_targets(), vec![("abc".to_string(), None)]);
    relay.open_publisher(session(1));
    assert_eq!(relay.link("xyz", "42".to_string()), Err(RoutingError::UnknownViewer));
    assert!(relay.link("abc", "42".to_string()).is_ok());
}

#[test]
fn a_new_link_replaces_the_old_one() {
    let mut relay = linked_relay();
    assert!(relay.link("abc", "43".to_string()).is_ok());
    assert_eq!(relay.get_targets(), vec![("abc".to_string(), Some("43".to_string()))]);
    assert_eq!(relay.publisher_message(offer(Some("42"), "x")), Err(RoutingError::NoLinkedViewer));
}

#[test]
fn unlink_tells_the_viewer_and_ends_the_capture() {
    let mut relay = linked_relay();
    assert_eq!(
        relay.unlink("abc"),
        Ok((
            Reaction::ToViewer { viewer: "abc".to_string(), message: MessageType::Unlink },
            Some(Reaction::ToPublisher(MessageType::EndCapture(CaptureEvent {
                stream_id: "42".to_string()
            })))
        ))
    );
    assert_eq!(relay.get_targets(), vec![("abc".to_string(), None)]);
}

#[test]
fn unlink_without_link_sends_no_end_capture() {
    let mut relay = Relay::new();
    relay.open_publisher(session(1));
    relay.open_viewer("viewerA".to_string(), 10, 11).unwrap();
    let before = relay.get_targets();
    assert_eq!(
        relay.unlink("viewerA"),
        Ok((Reaction::ToViewer { viewer: "viewerA".to_string(), message: MessageType::Unlink }, None))
    );
    assert_eq!(relay.get_targets(), before);
    let mut linked = linked_relay();
    assert!(linked.unlink("abc").is_ok());
    assert_eq!(
        linked.unlink("abc"),
        Ok((Reaction::ToViewer { viewer: "abc".to_string(), message: MessageType::Unlink }, None))
    );
}

#[test]
fn unlink_needs_viewer_and_publisher() {
    let mut relay = Relay::new();
    assert_eq!(relay.unlink("abc"), Err(RoutingError::UnknownViewer));
    let mut relay = linked_relay();
    relay.publisher_closed();
    assert_eq!(relay.unlink("abc"), Err(RoutingError::NoActivePublisher));
    assert_eq!(relay.get_targets(), vec![("abc".to_string(), Some("42".to_string()))]);
}

#[test]
fn a_viewer_that_closes_leaves_the_table() {
    let mut relay = linked_relay();
    relay.open_viewer("def".to_string(), 20, 21).unwrap();
    assert_eq!(
        relay.viewer_closed("abc"),
        Some((
            WebConnection { ws_sink: 10, ws_stream: 11, linked_stream: Some("42".to_string()) },
            Notification::ViewerRemoved("abc".to_string())
        ))
    );
    assert_eq!(relay.viewer_closed("abc"), None);
    assert_eq!(relay.get_targets(), vec![("def".to_string(), None)]);
    assert_eq!(relay.publisher_message(offer(Some("42"), "x")), Err(RoutingError::NoLinkedViewer));
    assert!(relay.open_viewer("abc".to_string(), 30, 31).is_ok());
}

#[test]
fn of_two_viewers_linked_to_one_stream_the_first_is_served() {
    let mut relay = Relay::new();
    relay.open_publisher(session(1));
    relay.open_viewer("b".to_string(), 10, 11).unwrap();
    relay.open_viewer("a".to_string(), 20, 21).unwrap();
    relay.link("a", "42".to_string()).unwrap();
    relay.link("b", "42".to_string()).unwrap();
    assert_eq!(
        relay.publisher_message(ice(Some("42"), "c")),
        Ok(Reaction::ToViewer { viewer: "b".to_string(), message: ice(Some("42"), "c") })
    );
}

#[test]
fn notifications_have_their_topics() {
    assert_eq!(Notification::StreamsRemoved(vec![]).topic(), "streams-removed");
    assert_eq!(Notification::UserInfoUpdated(vec![]).topic(), "user-info-updated");
    assert_eq!(Notification::PublisherDisconnected.topic(), "publisher-disconnected");
    assert_eq!(Notification::ViewerAdded("a".to_string()).topic(), "viewer-added");
    assert_eq!(Notification::ViewerRemoved("a".to_string()).topic(), "viewer-removed");
}
