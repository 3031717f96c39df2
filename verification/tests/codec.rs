use discord_source::ws::codec::{decode, decode_document, encode};
use discord_source::ws::json::Json;
use discord_source::ws::message::{
    AnswerOfferEvent, CaptureEvent, ICEEvent, MessageType, RemoveStreamEvent, UpdateUserInfoEvent,
    UserInfo,
};
use discord_source::ws::{handle_message, handle_read, Frame, Status};

fn ice(stream_id: Option<&str>, candidate: &str) -> MessageType {
    MessageType::ICE(ICEEvent {
        stream_id: stream_id.map(|s| s.to_string()),
        candidate: candidate.to_string(),
    })
}

fn update(stream_id: &str, user_id: &str, nickname: &str, preview: &str) -> UpdateUserInfoEvent {
    UpdateUserInfoEvent {
        stream_id: stream_id.to_string(),
        user_id: user_id.to_string(),
        info: UserInfo { nickname: nickname.to_string(), stream_preview: preview.to_string() },
    }
}

#[test]
fn ice_with_stream_id_is_written_in_declared_order() {
    assert_eq!(
        encode(&ice(Some("42"), "c1")),
        "{\"type\":\"ice\",\"detail\":{\"streamId\":\"42\",\"candidate\":\"c1\"}}"
    );
}

#[test]
fn ice_without_stream_id_is_written_with_null() {
    assert_eq!(
        encode(&ice(None, "c1")),
        "{\"type\":\"ice\",\"detail\":{\"streamId\":null,\"candidate\":\"c1\"}}"
    );
}

#[test]
fn answer_and_offer_are_written() {
    let answer = MessageType::Answer(AnswerOfferEvent {
        stream_id: Some("42".to_string()),
        sdp: "v=0".to_string(),
    });
    assert_eq!(
        encode(&answer),
        "{\"type\":\"answer\",\"detail\":{\"streamId\":\"42\",\"sdp\":\"v=0\"}}"
    );
    let offer = MessageType::Offer(AnswerOfferEvent { stream_id: None, sdp: "v=0".to_string() });
    assert_eq!(encode(&offer), "{\"type\":\"offer\",\"detail\":{\"streamId\":null,\"sdp\":\"v=0\"}}");
}

#[test]
fn capture_and_end_capture_are_written() {
    let capture = MessageType::Capture(CaptureEvent { stream_id: "42".to_string() });
    assert_eq!(encode(&capture), "{\"type\":\"capture\",\"detail\":{\"streamId\":\"42\"}}");
    let end = MessageType::EndCapture(CaptureEvent { stream_id: "42".to_string() });
    assert_eq!(encode(&end), "{\"type\":\"endCapture\",\"detail\":{\"streamId\":\"42\"}}");
}

#[test]
fn unlink_is_written_without_detail() {
    assert_eq!(encode(&MessageType::Unlink), "{\"type\":\"unlink\"}");
}

#[test]
fn remove_lists_are_written_with_commas_between_items() {
    assert_eq!(encode(&MessageType::Remove(vec![])), "{\"type\":\"remove\",\"detail\":[]}");
    let one = MessageType::Remove(vec![RemoveStreamEvent { stream_id: "1".to_string() }]);
    assert_eq!(encode(&one), "{\"type\":\"remove\",\"detail\":[{\"streamId\":\"1\"}]}");
    let three = MessageType::Remove(vec![
        RemoveStreamEvent { stream_id: "1".to_string() },
        RemoveStreamEvent { stream_id: "2".to_string() },
        RemoveStreamEvent { stream_id: "3".to_string() },
    ]);
    assert_eq!(
        encode(&three),
        "{\"type\":\"remove\",\"detail\":[{\"streamId\":\"1\"},{\"streamId\":\"2\"},{\"streamId\":\"3\"}]}"
    );
}

#[test]
fn update_user_info_is_written() {
    let message = MessageType::UpdateUserInfo(vec![
        update("42", "u1", "Bob", "aGk="),
        update("43", "u2", "Eve", ""),
    ]);
    assert_eq!(
        encode(&message),
        "{\"type\":\"updateUserInfo\",\"detail\":[\
         {\"streamId\":\"42\",\"userId\":\"u1\",\"info\":{\"nickname\":\"Bob\",\"streamPreview\":\"aGk=\"}},\
         {\"streamId\":\"43\",\"userId\":\"u2\",\"info\":{\"nickname\":\"Eve\",\"streamPreview\":\"\"}}]}"
    );
}

#[test]
fn strings_are_quoted_with_their_escapes() {
    let message = ice(Some("a\"b"), "line1\nline2\\end\ttab");
    assert_eq!(
        encode(&message),
        "{\"type\":\"ice\",\"detail\":{\"streamId\":\"a\\\"b\",\"candidate\":\"line1\\nline2\\\\end\\ttab\"}}"
    );
}

#[test]
fn non_ascii_text_is_written_as_it_is() {
    let message = MessageType::Capture(CaptureEvent { stream_id: "caf\u{e9} \u{1f600}".to_string() });
    assert_eq!(
        encode(&message),
        "{\"type\":\"capture\",\"detail\":{\"streamId\":\"caf\u{e9} \u{1f600}\"}}"
    );
}

#[test]
fn ice_without_stream_id_is_read() {
    assert_eq!(
        decode("{\"type\":\"ice\",\"detail\":{\"candidate\":\"c1\"}}"),
        Some(ice(None, "c1"))
    );
}

#[test]
fn ice_with_null_or_text_stream_id_is_read() {
    assert_eq!(
        decode("{\"type\":\"ice\",\"detail\":{\"streamId\":null,\"candidate\":\"c1\"}}"),
        Some(ice(None, "c1"))
    );
    assert_eq!(
        decode("{\"type\":\"ice\",\"detail\":{\"streamId\":\"42\",\"candidate\":\"c1\"}}"),
        Some(ice(Some("42"), "c1"))
    );
}

#[test]
fn members_may_come_in_any_order_and_with_blanks() {
    assert_eq!(
        decode(" { \"detail\" : { \"candidate\" : \"c1\" , \"streamId\" : \"42\" } , \"type\" : \"ice\" } "),
        Some(ice(Some("42"), "c1"))
    );
}

#[test]
fn escapes_are_resolved_when_reading() {
    assert_eq!(
        decode("{\"type\":\"ice\",\"detail\":{\"candidate\":\"a\\n\\u0062\\\"\"}}"),
        Some(ice(None, "a\nb\""))
    );
}

#[test]
fn every_kind_is_read() {
    assert_eq!(
        decode("{\"type\":\"remove\",\"detail\":[{\"streamId\":\"1\"},{\"streamId\":\"2\"}]}"),
        Some(MessageType::Remove(vec![
            RemoveStreamEvent { stream_id: "1".to_string() },
            RemoveStreamEvent { stream_id: "2".to_string() },
        ]))
    );
    assert_eq!(
        decode("{\"type\":\"answer\",\"detail\":{\"sdp\":\"v=0\"}}"),
        Some(MessageType::Answer(AnswerOfferEvent { stream_id: None, sdp: "v=0".to_string() }))
    );
    assert_eq!(
        decode("{\"type\":\"offer\",\"detail\":{\"streamId\":\"42\",\"sdp\":\"...\"}}"),
        Some(MessageType::Offer(AnswerOfferEvent {
            stream_id: Some("42".to_string()),
            sdp: "...".to_string(),
        }))
    );
    assert_eq!(
        decode("{\"type\":\"capture\",\"detail\":{\"streamId\":\"42\"}}"),
        Some(MessageType::Capture(CaptureEvent { stream_id: "42".to_string() }))
    );
    assert_eq!(
        decode("{\"type\":\"endCapture\",\"detail\":{\"streamId\":\"42\"}}"),
        Some(MessageType::EndCapture(CaptureEvent { stream_id: "42".to_string() }))
    );
    assert_eq!(decode("{\"type\":\"unlink\"}"), Some(MessageType::Unlink));
    assert_eq!(decode("{\"type\":\"unlink\",\"detail\":null}"), Some(MessageType::Unlink));
    assert_eq!(
        decode(
            "{\"type\":\"updateUserInfo\",\"detail\":[{\"streamId\":\"42\",\"userId\":\"u1\",\
             \"info\":{\"nickname\":\"Bob\",\"streamPreview\":\"aGk=\"}}]}"
        ),
        Some(MessageType::UpdateUserInfo(vec![update("42", "u1", "Bob", "aGk=")]))
    );
}

#[test]
fn unknown_members_are_passed_over() {
    assert_eq!(
        decode("{\"type\":\"capture\",\"detail\":{\"streamId\":\"42\",\"extra\":[1,2.5,true]},\"seq\":7}"),
        Some(MessageType::Capture(CaptureEvent { stream_id: "42".to_string() }))
    );
}

#[test]
fn malformed_text_is_not_a_message() {
    assert_eq!(decode(""), None);
    assert_eq!(decode("not json"), None);
    assert_eq!(decode("{\"type\":\"ice\""), None);
    assert_eq!(decode("[]"), None);
    assert_eq!(decode("\"ice\""), None);
    assert_eq!(decode("{}"), None);
    assert_eq!(decode("{\"detail\":{\"candidate\":\"c1\"}}"), None);
    assert_eq!(decode("{\"type\":7,\"detail\":{\"candidate\":\"c1\"}}"), None);
}

#[test]
fn unknown_kind_is_not_a_message() {
    assert_eq!(decode("{\"type\":\"hello\",\"detail\":{}}"), None);
    assert_eq!(decode("{\"type\":\"ICE\",\"detail\":{\"candidate\":\"c1\"}}"), None);
}

#[test]
fn payload_of_the_wrong_shape_is_not_a_message() {
    assert_eq!(decode("{\"type\":\"ice\"}"), None);
    assert_eq!(decode("{\"type\":\"ice\",\"detail\":{}}"), None);
    assert_eq!(decode("{\"type\":\"ice\",\"detail\":{\"candidate\":7}}"), None);
    assert_eq!(decode("{\"type\":\"ice\",\"detail\":{\"streamId\":7,\"candidate\":\"c\"}}"), None);
    assert_eq!(decode("{\"type\":\"capture\",\"detail\":{}}"), None);
    assert_eq!(decode("{\"type\":\"capture\",\"detail\":{\"streamId\":null}}"), None);
    assert_eq!(decode("{\"type\":\"remove\",\"detail\":{\"streamId\":\"1\"}}"), None);
    assert_eq!(decode("{\"type\":\"remove\",\"detail\":[{\"streamId\":\"1\"},{}]}"), None);
    assert_eq!(decode("{\"type\":\"unlink\",\"detail\":{}}"), None);
    assert_eq!(
        decode("{\"type\":\"updateUserInfo\",\"detail\":[{\"streamId\":\"42\",\"userId\":\"u1\"}]}"),
        None
    );
}

#[test]
fn what_is_written_is_read_back() {
    let messages = vec![
        MessageType::Remove(vec![RemoveStreamEvent { stream_id: "1".to_string() }]),
        ice(Some("4\"2"), "c\\1"),
        ice(None, "\u{1f600}"),
        MessageType::Answer(AnswerOfferEvent { stream_id: None, sdp: "a\r\nb".to_string() }),
        MessageType::Offer(AnswerOfferEvent { stream_id: Some("42".to_string()), sdp: "".to_string() }),
        MessageType::Capture(CaptureEvent { stream_id: "42".to_string() }),
        MessageType::EndCapture(CaptureEvent { stream_id: "42".to_string() }),
        MessageType::Unlink,
        MessageType::UpdateUserInfo(vec![update("42", "u1", "Bob", "aGk="), update("", "", "", "")]),
    ];
    for message in messages {
        assert_eq!(decode(&encode(&message)), Some(message));
    }
}

#[test]
fn a_document_is_read_without_any_text() {
    let document = Json::Object(vec![
        ("type".to_string(), Json::Text("ice".to_string())),
        (
            "detail".to_string(),
            Json::Object(vec![
                ("candidate".to_string(), Json::Text("c1".to_string())),
                ("streamId".to_string(), Json::Null),
            ]),
        ),
    ]);
    assert_eq!(decode_document(Some(&document)), Some(ice(None, "c1")));
    assert_eq!(decode_document(None), None);
    assert_eq!(decode_document(Some(&Json::Array(vec![]))), None);
    assert_eq!(decode_document(Some(&Json::Number)), None);
    assert_eq!(decode_document(Some(&Json::Bool(true))), None);
}

#[test]
fn the_first_member_of_a_name_decides() {
    let document = Json::Object(vec![
        ("type".to_string(), Json::Text("capture".to_string())),
        ("type".to_string(), Json::Text("unlink".to_string())),
        (
            "detail".to_string(),
            Json::Object(vec![("streamId".to_string(), Json::Text("42".to_string()))]),
        ),
    ]);
    assert_eq!(
        decode_document(Some(&document)),
        Some(MessageType::Capture(CaptureEvent { stream_id: "42".to_string() }))
    );
}

#[test]
fn a_close_frame_ends_the_connection() {
    assert_eq!(handle_message(Frame::Close), Status::Closed);
}

#[test]
fn a_read_without_frame_ends_the_connection() {
    assert_eq!(handle_read(None), Status::Closed);
    assert_eq!(handle_read(Some(Frame::Close)), Status::Closed);
    assert_eq!(
        handle_read(Some(Frame::Text("{\"type\":\"unlink\"}".to_string()))),
        Status::Message(MessageType::Unlink)
    );
    assert_eq!(handle_read(Some(Frame::Pong(vec![1]))), Status::Unhandled(Frame::Pong(vec![1])));
}

#[test]
fn a_text_frame_with_a_message_is_that_message() {
    let frame = Frame::Text("{\"type\":\"ice\",\"detail\":{\"candidate\":\"x\"}}".to_string());
    assert_eq!(handle_message(frame), Status::Message(ice(None, "x")));
}

#[test]
fn a_text_frame_without_a_message_is_handed_back() {
    let frame = Frame::Text("close".to_string());
    assert_eq!(handle_message(frame), Status::Unhandled(Frame::Text("close".to_string())));
}

#[test]
fn other_frames_are_handed_back_even_if_they_hold_a_message() {
    let bytes = "{\"type\":\"unlink\"}".as_bytes().to_vec();
    assert_eq!(
        handle_message(Frame::Binary(bytes.clone())),
        Status::Unhandled(Frame::Binary(bytes.clone()))
    );
    assert_eq!(
        handle_message(Frame::Ping(bytes.clone())),
        Status::Unhandled(Frame::Ping(bytes.clone()))
    );
    assert_eq!(handle_message(Frame::Pong(vec![])), Status::Unhandled(Frame::Pong(vec![])));
}
