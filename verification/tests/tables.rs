use discord_source::ws::connections::ConnectionTable;
use discord_source::ws::directory::StreamDirectory;
use discord_source::ws::events::RoutingError;
use discord_source::ws::message::MessageType;
use discord_source::ws::publisher::PublisherSession;
use discord_source::ws::{DiscordSplittedConnection, DiscordStream, WebConnection};

fn info(nickname: &str) -> DiscordStream {
    DiscordStream { stream_preview: format!("preview of {}", nickname), nickname: nickname.to_string() }
}

fn connection(n: u32) -> WebConnection<u32, u32> {
    WebConnection { ws_sink: n, ws_stream: n + 1, linked_stream: None }
}

#[test]
fn upsert_tells_whether_the_stream_was_new() {
    let mut directory = StreamDirectory::new();
    assert!(directory.is_empty());
    assert!(directory.upsert("42".to_string(), info("Bob")));
    assert!(!directory.upsert("42".to_string(), info("Robert")));
    assert!(directory.upsert("43".to_string(), info("Eve")));
    assert_eq!(directory.get("42"), Some(&info("Robert")));
    assert_eq!(directory.get("43"), Some(&info("Eve")));
    assert_eq!(directory.get("44"), None);
    assert!(directory.contains("42"));
    assert!(!directory.contains("4"));
    assert!(!directory.is_empty());
}

#[test]
fn upsert_then_remove_leaves_no_entry() {
    let mut directory = StreamDirectory::new();
    directory.upsert("41".to_string(), info("Ann"));
    directory.upsert("42".to_string(), info("Bob"));
    assert_eq!(directory.remove("42"), Some(info("Bob")));
    assert!(!directory.contains("42"));
    assert_eq!(directory.remove("42"), None);
    assert_eq!(directory.snapshot(), vec![("41".to_string(), info("Ann"))]);
}

#[test]
fn clear_empties_the_directory() {
    let mut directory = StreamDirectory::new();
    directory.upsert("41".to_string(), info("Ann"));
    directory.upsert("42".to_string(), info("Bob"));
    directory.clear();
    assert!(directory.is_empty());
    assert!(directory.snapshot().is_empty());
    assert!(directory.upsert("41".to_string(), info("Ann")));
}

#[test]
fn a_snapshot_does_not_follow_later_changes() {
    let mut directory = StreamDirectory::new();
    directory.upsert("41".to_string(), info("Ann"));
    let snapshot = directory.snapshot();
    directory.upsert("42".to_string(), info("Bob"));
    directory.remove("41");
    assert_eq!(snapshot, vec![("41".to_string(), info("Ann"))]);
    assert_eq!(directory.snapshot(), vec![("42".to_string(), info("Bob"))]);
}

#[test]
fn try_insert_refuses_an_id_in_use() {
    let mut table = ConnectionTable::new();
    assert_eq!(table.len(), 0);
    assert_eq!(table.try_insert("abc".to_string(), connection(1)), Ok(()));
    assert_eq!(table.try_insert("abc".to_string(), connection(5)), Err(connection(5)));
    assert_eq!(table.try_insert("abd".to_string(), connection(7)), Ok(()));
    assert_eq!(table.len(), 2);
    assert_eq!(table.get("abc"), Some(&connection(1)));
    assert!(table.contains("abd"));
    assert!(!table.contains("ab"));
}

#[test]
fn links_are_set_and_cleared() {
    let mut table = ConnectionTable::new();
    table.try_insert("a".to_string(), connection(1)).unwrap();
    table.try_insert("b".to_string(), connection(3)).unwrap();
    assert!(table.set_link("b", Some("42".to_string())));
    assert!(!table.set_link("c", Some("42".to_string())));
    assert_eq!(
        table.targets(),
        vec![("a".to_string(), None), ("b".to_string(), Some("42".to_string()))]
    );
    assert_eq!(
        table.get("b"),
        Some(&WebConnection { ws_sink: 3, ws_stream: 4, linked_stream: Some("42".to_string()) })
    );
    assert_eq!(table.clear_link("b"), Some("42".to_string()));
    assert_eq!(table.clear_link("b"), None);
    assert_eq!(table.clear_link("c"), None);
    assert!(table.set_link("a", None));
    assert_eq!(table.targets(), vec![("a".to_string(), None), ("b".to_string(), None)]);
}

#[test]
fn the_first_viewer_linked_to_a_stream_is_found() {
    let mut table = ConnectionTable::new();
    table.try_insert("a".to_string(), connection(1)).unwrap();
    table.try_insert("b".to_string(), connection(3)).unwrap();
    table.try_insert("c".to_string(), connection(5)).unwrap();
    assert_eq!(table.find_by_linked_stream("42"), None);
    table.set_link("c", Some("42".to_string()));
    table.set_link("b", Some("42".to_string()));
    table.set_link("a", Some("4".to_string()));
    let found = table.find_by_linked_stream("42");
    assert_eq!(found.map(|(id, c)| (id.clone(), c.ws_sink)), Some(("b".to_string(), 3)));
    assert_eq!(table.find_by_linked_stream("4").map(|(id, _)| id.clone()), Some("a".to_string()));
    assert_eq!(table.find_by_linked_stream(""), None);
}

#[test]
fn remove_hands_the_connection_out() {
    let mut table = ConnectionTable::new();
    table.try_insert("a".to_string(), connection(1)).unwrap();
    table.try_insert("b".to_string(), connection(3)).unwrap();
    table.try_insert("c".to_string(), connection(5)).unwrap();
    assert_eq!(table.remove("b"), Some(connection(3)));
    assert_eq!(table.remove("b"), None);
    assert_eq!(table.targets(), vec![("a".to_string(), None), ("c".to_string(), None)]);
    assert_eq!(table.try_insert("b".to_string(), connection(9)), Ok(()));
    assert_eq!(table.len(), 3);
}

#[test]
fn the_slot_holds_one_session() {
    let mut slot: PublisherSession<u32, u32> = PublisherSession::new();
    assert!(!slot.is_active());
    assert_eq!(slot.get(), None);
    assert_eq!(slot.take(), None);
    let first = DiscordSplittedConnection { ws_sink: 1, ws_stream: 2 };
    let second = DiscordSplittedConnection { ws_sink: 3, ws_stream: 4 };
    assert_eq!(slot.replace(first), None);
    assert!(slot.is_active());
    assert_eq!(slot.replace(second), Some(DiscordSplittedConnection { ws_sink: 1, ws_stream: 2 }));
    assert_eq!(slot.get(), Some(&DiscordSplittedConnection { ws_sink: 3, ws_stream: 4 }));
    assert_eq!(slot.take(), Some(DiscordSplittedConnection { ws_sink: 3, ws_stream: 4 }));
    assert!(!slot.is_active());
}

#[test]
fn send_needs_a_session() {
    let mut slot: PublisherSession<u32, u32> = PublisherSession::new();
    assert_eq!(slot.send(MessageType::Unlink), Err(RoutingError::NoActivePublisher));
    slot.replace(DiscordSplittedConnection { ws_sink: 1, ws_stream: 2 });
    assert_eq!(slot.send(MessageType::Unlink), Ok((&1, MessageType::Unlink)));
}
