//! The wire format: each message is a JSON object with its kind under
//! `type` and its payload under `detail`.
//!
//! Reading goes through a parsed document; writing frames the text here
//! and leaves only the quoting of strings to `serde_json`.

use crate::ws::json::{json_parsed, json_quote, json_quoted, parse_json, Json};
use crate::ws::message::{
    AnswerOfferEvent, AnswerOfferEventView, CaptureEvent, CaptureEventView, ICEEvent,
    ICEEventView, MessageType, MessageTypeView, RemoveStreamEvent, RemoveStreamEventView,
    UpdateUserInfoEvent, UpdateUserInfoEventView, UserInfo, UserInfoView, removals_view,
    updates_view,
};
use vstd::prelude::*;
use vstd::string::StringExecFns;

verus! {

/// The value of the first member of an object that is called `name`.
pub open spec fn member(fields: Seq<(String, Json)>, name: Seq<char>) -> Option<Json>
    decreases fields.len(),
{
    if fields.len() == 0 {
        None
    } else if fields[0].0@ == name {
        Some(fields[0].1)
    } else {
        member(fields.drop_first(), name)
    }
}

/// The text of a member that must be there and must be a string.
pub open spec fn text_of(value: Option<Json>) -> Option<Seq<char>> {
    match value {
        Some(Json::Text(s)) => Some(s@),
        _ => None,
    }
}

/// The text of a member that may be missing or `null`: `Some(None)` then,
/// and `None` where it is there and is no string.
pub open spec fn optional_text_of(value: Option<Json>) -> Option<Option<Seq<char>>> {
    match value {
        None => Some(None),
        Some(Json::Null) => Some(None),
        Some(Json::Text(s)) => Some(Some(s@)),
        _ => None,
    }
}

/// The members of a value that must be there and must be an object.
pub open spec fn members_of(value: Option<Json>) -> Option<Seq<(String, Json)>> {
    match value {
        Some(Json::Object(fields)) => Some(fields@),
        _ => None,
    }
}

/// `{"streamId": text}` as a removal.
pub open spec fn removal_of(value: Json) -> Option<RemoveStreamEventView> {
    match members_of(Some(value)) {
        Some(fields) => match text_of(member(fields, "streamId"@)) {
            Some(stream_id) => Some(RemoveStreamEventView { stream_id }),
            None => None,
        },
        None => None,
    }
}

/// `{"streamId": text}` as a request to capture.
pub open spec fn capture_of(value: Option<Json>) -> Option<CaptureEventView> {
    match members_of(value) {
        Some(fields) => match text_of(member(fields, "streamId"@)) {
            Some(stream_id) => Some(CaptureEventView { stream_id }),
            None => None,
        },
        None => None,
    }
}

/// `{"nickname": text, "streamPreview": text}` as what is known about a
/// stream.
pub open spec fn user_info_of(value: Option<Json>) -> Option<UserInfoView> {
    match members_of(value) {
        Some(fields) => match (
            text_of(member(fields, "nickname"@)),
            text_of(member(fields, "streamPreview"@)),
        ) {
            (Some(nickname), Some(stream_preview)) => Some(
                UserInfoView { nickname, stream_preview },
            ),
            _ => None,
        },
        None => None,
    }
}

/// `{"streamId": text, "userId": text, "info": {..}}` as an announcement.
pub open spec fn update_of(value: Json) -> Option<UpdateUserInfoEventView> {
    match members_of(Some(value)) {
        Some(fields) => match (
            text_of(member(fields, "streamId"@)),
            text_of(member(fields, "userId"@)),
            user_info_of(member(fields, "info"@)),
        ) {
            (Some(stream_id), Some(user_id), Some(info)) => Some(
                UpdateUserInfoEventView { stream_id, user_id, info },
            ),
            _ => None,
        },
        None => None,
    }
}

/// `{"streamId": text or nothing, "candidate": text}` as an ICE candidate.
pub open spec fn ice_of(value: Option<Json>) -> Option<ICEEventView> {
    match members_of(value) {
        Some(fields) => match (
            optional_text_of(member(fields, "streamId"@)),
            text_of(member(fields, "candidate"@)),
        ) {
            (Some(stream_id), Some(candidate)) => Some(ICEEventView { stream_id, candidate }),
            _ => None,
        },
        None => None,
    }
}

/// `{"streamId": text or nothing, "sdp": text}` as an offer or an answer.
pub open spec fn session_of(value: Option<Json>) -> Option<AnswerOfferEventView> {
    match members_of(value) {
        Some(fields) => match (
            optional_text_of(member(fields, "streamId"@)),
            text_of(member(fields, "sdp"@)),
        ) {
            (Some(stream_id), Some(sdp)) => Some(AnswerOfferEventView { stream_id, sdp }),
            _ => None,
        },
        None => None,
    }
}

/// A list of removals, if every item is one.
pub open spec fn removals_of(value: Option<Json>) -> Option<Seq<RemoveStreamEventView>> {
    match value {
        Some(Json::Array(items)) => if forall|i: int|
            0 <= i < items@.len() ==> removal_of(#[trigger] items@[i]) is Some {
            Some(Seq::new(items@.len(), |i: int| removal_of(items@[i])->0))
        } else {
            None
        },
        _ => None,
    }
}

/// A list of announcements, if every item is one.
pub open spec fn updates_of(value: Option<Json>) -> Option<Seq<UpdateUserInfoEventView>> {
    match value {
        Some(Json::Array(items)) => if forall|i: int|
            0 <= i < items@.len() ==> update_of(#[trigger] items@[i]) is Some {
            Some(Seq::new(items@.len(), |i: int| update_of(items@[i])->0))
        } else {
            None
        },
        _ => None,
    }
}

/// The message of kind `tag` with payload `detail`, if `tag` is a known
/// kind and the payload has the shape of that kind.
pub open spec fn message_of(tag: Seq<char>, detail: Option<Json>) -> Option<MessageTypeView> {
    if tag == "remove"@ {
        match removals_of(detail) {
            Some(list) => Some(MessageTypeView::Remove(list)),
            None => None,
        }
    } else if tag == "ice"@ {
        match ice_of(detail) {
            Some(e) => Some(MessageTypeView::ICE(e)),
            None => None,
        }
    } else if tag == "answer"@ {
        match session_of(detail) {
            Some(e) => Some(MessageTypeView::Answer(e)),
            None => None,
        }
    } else if tag == "offer"@ {
        match session_of(detail) {
            Some(e) => Some(MessageTypeView::Offer(e)),
            None => None,
        }
    } else if tag == "capture"@ {
        match capture_of(detail) {
            Some(e) => Some(MessageTypeView::Capture(e)),
            None => None,
        }
    } else if tag == "endCapture"@ {
        match capture_of(detail) {
            Some(e) => Some(MessageTypeView::EndCapture(e)),
            None => None,
        }
    } else if tag == "unlink"@ {
        match detail {
            None => Some(MessageTypeView::Unlink),
            Some(Json::Null) => Some(MessageTypeView::Unlink),
            _ => None,
        }
    } else if tag == "updateUserInfo"@ {
        match updates_of(detail) {
            Some(list) => Some(MessageTypeView::UpdateUserInfo(list)),
            None => None,
        }
    } else {
        None
    }
}

/// The message that a document stands for: `None` where the document is
/// missing, is no object, has no text under `type`, or does not have the
/// shape of its kind.
pub open spec fn decoded(document: Option<Json>) -> Option<MessageTypeView> {
    match members_of(document) {
        Some(fields) => match text_of(member(fields, "type"@)) {
            Some(tag) => message_of(tag, member(fields, "detail"@)),
            None => None,
        },
        None => None,
    }
}

/// Whether two texts are the same.
fn same_text(a: &str, b: &str) -> (r: bool)
    ensures
        r == (a@ == b@),
{
    a.to_owned() == b.to_owned()
}

/// The value of the first member called `name`.
fn find_member<'a>(fields: &'a Vec<(String, Json)>, name: &str) -> (r: Option<&'a Json>)
    ensures
        match r {
            Some(value) => member(fields@, name@) == Some(*value),
            None => member(fields@, name@) is None,
        },
{
    let mut i: usize = 0;
    proof {
        assert(fields@.skip(0) =~= fields@);
    }
    while i < fields.len()
        invariant
            i <= fields.len(),
            member(fields@, name@) == member(fields@.skip(i as int), name@),
        decreases fields.len() - i,
    {
        proof {
            assert(fields@.skip(i as int).drop_first() =~= fields@.skip(i + 1));
            assert(fields@.skip(i as int)[0] == fields@[i as int]);
        }
        if same_text(fields[i].0.as_str(), name) {
            return Some(&fields[i].1);
        }
        i += 1;
    }
    None
}

fn read_text(value: Option<&Json>) -> (r: Option<String>)
    ensures
        match r {
            Some(s) => text_of(deref_json(value)) == Some(s@),
            None => text_of(deref_json(value)) is None,
        },
{
    match value {
        Some(Json::Text(s)) => Some(s.clone()),
        _ => None,
    }
}

fn read_optional_text(value: Option<&Json>) -> (r: Option<Option<String>>)
    ensures
        match r {
            Some(Some(s)) => optional_text_of(deref_json(value)) == Some(Some(s@)),
            Some(None) => optional_text_of(deref_json(value)) == Some(None::<Seq<char>>),
            None => optional_text_of(deref_json(value)) is None,
        },
{
    match value {
        None => Some(None),
        Some(Json::Null) => Some(None),
        Some(Json::Text(s)) => Some(Some(s.clone())),
        _ => None,
    }
}

fn read_members<'a>(value: Option<&'a Json>) -> (r: Option<&'a Vec<(String, Json)>>)
    ensures
        match r {
            Some(fields) => members_of(deref_json(value)) == Some(fields@),
            None => members_of(deref_json(value)) is None,
        },
{
    match value {
        Some(Json::Object(fields)) => Some(fields),
        _ => None,
    }
}

/// The document behind an optional reference.
pub open spec fn deref_json(value: Option<&Json>) -> Option<Json> {
    match value {
        Some(j) => Some(*j),
        None => None,
    }
}

fn read_removal(value: &Json) -> (r: Option<RemoveStreamEvent>)
    ensures
        match r {
            Some(e) => removal_of(*value) == Some(e@),
            None => removal_of(*value) is None,
        },
{
    let fields = read_members(Some(value))?;
    let stream_id = read_text(find_member(fields, "streamId"))?;
    Some(RemoveStreamEvent { stream_id })
}

fn read_capture(value: Option<&Json>) -> (r: Option<CaptureEvent>)
    ensures
        match r {
            Some(e) => capture_of(deref_json(value)) == Some(e@),
            None => capture_of(deref_json(value)) is None,
        },
{
    let fields = read_members(value)?;
    let stream_id = read_text(find_member(fields, "streamId"))?;
    Some(CaptureEvent { stream_id })
}

fn read_user_info(value: Option<&Json>) -> (r: Option<UserInfo>)
    ensures
        match r {
            Some(e) => user_info_of(deref_json(value)) == Some(e@),
            None => user_info_of(deref_json(value)) is None,
        },
{
    let fields = read_members(value)?;
    let nickname = read_text(find_member(fields, "nickname"))?;
    let stream_preview = read_text(find_member(fields, "streamPreview"))?;
    Some(UserInfo { nickname, stream_preview })
}

fn read_update(value: &Json) -> (r: Option<UpdateUserInfoEvent>)
    ensures
        match r {
            Some(e) => update_of(*value) == Some(e@),
            None => update_of(*value) is None,
        },
{
    let fields = read_members(Some(value))?;
    let stream_id = read_text(find_member(fields, "streamId"))?;
    let user_id = read_text(find_member(fields, "userId"))?;
    let info = read_user_info(find_member(fields, "info"))?;
    Some(UpdateUserInfoEvent { stream_id, user_id, info })
}

fn read_ice(value: Option<&Json>) -> (r: Option<ICEEvent>)
    ensures
        match r {
            Some(e) => ice_of(deref_json(value)) == Some(e@),
            None => ice_of(deref_json(value)) is None,
        },
{
    let fields = read_members(value)?;
    let stream_id = read_optional_text(find_member(fields, "streamId"))?;
    let candidate = read_text(find_member(fields, "candidate"))?;
    Some(ICEEvent { stream_id, candidate })
}

fn read_session(value: Option<&Json>) -> (r: Option<AnswerOfferEvent>)
    ensures
        match r {
            Some(e) => session_of(deref_json(value)) == Some(e@),
            None => session_of(deref_json(value)) is None,
        },
{
    let fields = read_members(value)?;
    let stream_id = read_optional_text(find_member(fields, "streamId"))?;
    let sdp = read_text(find_member(fields, "sdp"))?;
    Some(AnswerOfferEvent { stream_id, sdp })
}

fn read_removals(value: Option<&Json>) -> (r: Option<Vec<RemoveStreamEvent>>)
    ensures
        match r {
            Some(list) => removals_of(deref_json(value)) == Some(removals_view(list@)),
            None => removals_of(deref_json(value)) is None,
        },
{
    match value {
        Some(Json::Array(items)) => {
            let mut out: Vec<RemoveStreamEvent> = Vec::new();
            let mut i: usize = 0;
            while i < items.len()
                invariant
                    i <= items.len(),
                    out@.len() == i,
                    deref_json(value) == Some(Json::Array(*items)),
                    forall|k: int|
                        0 <= k < i ==> removal_of(#[trigger] items@[k]) == Some(out@[k]@),
                decreases items.len() - i,
            {
                match read_removal(&items[i]) {
                    Some(e) => {
                        out.push(e);
                    },
                    None => {
                        assert(removal_of(items@[i as int]) is None);
                        return None;
                    },
                }
                i += 1;
            }
            proof {
                assert(removals_view(out@) =~= Seq::new(
                    items@.len(),
                    |i: int| removal_of(items@[i])->0,
                ));
            }
            Some(out)
        },
        _ => None,
    }
}

fn read_updates(value: Option<&Json>) -> (r: Option<Vec<UpdateUserInfoEvent>>)
    ensures
        match r {
            Some(list) => updates_of(deref_json(value)) == Some(updates_view(list@)),
            None => updates_of(deref_json(value)) is None,
        },
{
    match value {
        Some(Json::Array(items)) => {
            let mut out: Vec<UpdateUserInfoEvent> = Vec::new();
            let mut i: usize = 0;
            while i < items.len()
                invariant
                    i <= items.len(),
                    out@.len() == i,
                    deref_json(value) == Some(Json::Array(*items)),
                    forall|k: int|
                        0 <= k < i ==> update_of(#[trigger] items@[k]) == Some(out@[k]@),
                decreases items.len() - i,
            {
                match read_update(&items[i]) {
                    Some(e) => {
                        out.push(e);
                    },
                    None => {
                        assert(update_of(items@[i as int]) is None);
                        return None;
                    },
                }
                i += 1;
            }
            proof {
                assert(updates_view(out@) =~= Seq::new(
                    items@.len(),
                    |i: int| update_of(items@[i])->0,
                ));
            }
            Some(out)
        },
        _ => None,
    }
}

fn read_message(tag: &str, detail: Option<&Json>) -> (r: Option<MessageType>)
    ensures
        match r {
            Some(m) => message_of(tag@, deref_json(detail)) == Some(m@),
            None => message_of(tag@, deref_json(detail)) is None,
        },
{
    if same_text(tag, "remove") {
        Some(MessageType::Remove(read_removals(detail)?))
    } else if same_text(tag, "ice") {
        Some(MessageType::ICE(read_ice(detail)?))
    } else if same_text(tag, "answer") {
        Some(MessageType::Answer(read_session(detail)?))
    } else if same_text(tag, "offer") {
        Some(MessageType::Offer(read_session(detail)?))
    } else if same_text(tag, "capture") {
        Some(MessageType::Capture(read_capture(detail)?))
    } else if same_text(tag, "endCapture") {
        Some(MessageType::EndCapture(read_capture(detail)?))
    } else if same_text(tag, "unlink") {
        match detail {
            None => Some(MessageType::Unlink),
            Some(Json::Null) => Some(MessageType::Unlink),
            _ => None,
        }
    } else if same_text(tag, "updateUserInfo") {
        Some(MessageType::UpdateUserInfo(read_updates(detail)?))
    } else {
        None
    }
}

/// Reads the message that a parsed document stands for. A document that
/// stands for none is not an error: the caller drops it and goes on.
pub fn decode_document(document: Option<&Json>) -> (r: Option<MessageType>)
    ensures
        match r {
            Some(m) => decoded(deref_json(document)) == Some(m@),
            None => decoded(deref_json(document)) is None,
        },
{
    let fields = read_members(document)?;
    let tag = read_text(find_member(fields, "type"))?;
    read_message(tag.as_str(), find_member(fields, "detail"))
}

/// Reads the message that `text` stands for: the text is parsed as JSON
/// and the document is read as a message.
pub fn decode(text: &str) -> (r: Option<MessageType>)
    ensures
        match r {
            Some(m) => decoded(json_parsed(text@)) == Some(m@),
            None => decoded(json_parsed(text@)) is None,
        },
{
    let document = parse_json(text);
    decode_document(document.as_ref())
}

/// The JSON for an optional string: its literal, or `null`.
pub open spec fn quoted_or_null(text: Option<Seq<char>>) -> Seq<char> {
    match text {
        Some(t) => json_quoted(t),
        None => "null"@,
    }
}

/// The texts of `items`, with a comma between each two.
pub open spec fn joined(items: Seq<Seq<char>>) -> Seq<char>
    decreases items.len(),
{
    if items.len() == 0 {
        Seq::empty()
    } else if items.len() == 1 {
        items[0]
    } else {
        joined(items.drop_last()) + ","@ + items.last()
    }
}

/// The JSON for a removal.
pub open spec fn encoded_removal(e: RemoveStreamEventView) -> Seq<char> {
    "{\"streamId\":"@ + json_quoted(e.stream_id) + "}"@
}

/// The JSON for an announcement.
pub open spec fn encoded_update(e: UpdateUserInfoEventView) -> Seq<char> {
    "{\"streamId\":"@ + json_quoted(e.stream_id) + ",\"userId\":"@ + json_quoted(e.user_id)
        + ",\"info\":{\"nickname\":"@ + json_quoted(e.info.nickname) + ",\"streamPreview\":"@
        + json_quoted(e.info.stream_preview) + "}}"@
}

/// The JSON for a message: an object with the kind under `type` and the
/// payload, if the kind has one, under `detail`. Members stand in the order
/// in which the message declares them; nothing is put between tokens.
pub open spec fn encoded(m: MessageTypeView) -> Seq<char> {
    match m {
        MessageTypeView::Remove(list) => "{\"type\":\"remove\",\"detail\":["@ + joined(
            list.map_values(|e: RemoveStreamEventView| encoded_removal(e)),
        ) + "]}"@,
        MessageTypeView::ICE(e) => "{\"type\":\"ice\",\"detail\":{\"streamId\":"@
            + quoted_or_null(e.stream_id) + ",\"candidate\":"@ + json_quoted(e.candidate)
            + "}}"@,
        MessageTypeView::Answer(e) => "{\"type\":\"answer\",\"detail\":{\"streamId\":"@
            + quoted_or_null(e.stream_id) + ",\"sdp\":"@ + json_quoted(e.sdp) + "}}"@,
        MessageTypeView::Offer(e) => "{\"type\":\"offer\",\"detail\":{\"streamId\":"@
            + quoted_or_null(e.stream_id) + ",\"sdp\":"@ + json_quoted(e.sdp) + "}}"@,
        MessageTypeView::Capture(e) => "{\"type\":\"capture\",\"detail\":{\"streamId\":"@
            + json_quoted(e.stream_id) + "}}"@,
        MessageTypeView::EndCapture(e) => "{\"type\":\"endCapture\",\"detail\":{\"streamId\":"@
            + json_quoted(e.stream_id) + "}}"@,
        MessageTypeView::Unlink => "{\"type\":\"unlink\"}"@,
        MessageTypeView::UpdateUserInfo(list) => "{\"type\":\"updateUserInfo\",\"detail\":["@
            + joined(list.map_values(|e: UpdateUserInfoEventView| encoded_update(e))) + "]}"@,
    }
}

/// Appending one more item to a joined list puts a comma before it unless
/// it is the first.
pub proof fn lemma_joined_push(items: Seq<Seq<char>>, next: Seq<char>)
    ensures
        joined(items.push(next)) == if items.len() == 0 {
            next
        } else {
            joined(items) + ","@ + next
        },
{
    let grown = items.push(next);
    assert(grown.drop_last() =~= items);
    assert(grown.last() == next);
}

fn write_optional(out: &mut String, text: &Option<String>)
    ensures
        final(out)@ == old(out)@ + quoted_or_null(crate::ws::message::opt_text(*text)),
{
    match text {
        Some(t) => {
            let quoted = json_quote(t.as_str());
            out.append(quoted.as_str());
        },
        None => {
            out.append("null");
        },
    }
}

fn write_quoted(out: &mut String, text: &str)
    ensures
        final(out)@ == old(out)@ + json_quoted(text@),
{
    let quoted = json_quote(text);
    out.append(quoted.as_str());
}

fn write_removal(out: &mut String, e: &RemoveStreamEvent)
    ensures
        final(out)@ == old(out)@ + encoded_removal(e@),
{
    out.append("{\"streamId\":");
    write_quoted(out, e.stream_id.as_str());
    out.append("}");
    assert(out@ =~= old(out)@ + encoded_removal(e@));
}

fn write_update(out: &mut String, e: &UpdateUserInfoEvent)
    ensures
        final(out)@ == old(out)@ + encoded_update(e@),
{
    out.append("{\"streamId\":");
    write_quoted(out, e.stream_id.as_str());
    out.append(",\"userId\":");
    write_quoted(out, e.user_id.as_str());
    out.append(",\"info\":{\"nickname\":");
    write_quoted(out, e.info.nickname.as_str());
    out.append(",\"streamPreview\":");
    write_quoted(out, e.info.stream_preview.as_str());
    out.append("}}");
    assert(out@ =~= old(out)@ + encoded_update(e@));
}

fn write_session(out: &mut String, e: &AnswerOfferEvent)
    ensures
        final(out)@ == old(out)@ + quoted_or_null(e@.stream_id) + ",\"sdp\":"@ + json_quoted(
            e@.sdp,
        ) + "}}"@,
{
    write_optional(out, &e.stream_id);
    out.append(",\"sdp\":");
    write_quoted(out, e.sdp.as_str());
    out.append("}}");
}

fn write_capture(out: &mut String, e: &CaptureEvent)
    ensures
        final(out)@ == old(out)@ + json_quoted(e@.stream_id) + "}}"@,
{
    write_quoted(out, e.stream_id.as_str());
    out.append("}}");
}

/// Writes `message` as the text that goes on the wire.
pub fn encode(message: &MessageType) -> (r: String)
    ensures
        r@ == encoded(message@),
{
    let mut out = String::new();
    match message {
        MessageType::Remove(list) => {
            out.append("{\"type\":\"remove\",\"detail\":[");
            let ghost head = out@;
            let ghost texts = removals_view(list@).map_values(
                |e: RemoveStreamEventView| encoded_removal(e),
            );
            let mut i: usize = 0;
            while i < list.len()
                invariant
                    i <= list.len(),
                    head == "{\"type\":\"remove\",\"detail\":["@,
                    texts == removals_view(list@).map_values(
                        |e: RemoveStreamEventView| encoded_removal(e),
                    ),
                    out@ == head + joined(texts.take(i as int)),
                decreases list.len() - i,
            {
                proof {
                    lemma_joined_push(texts.take(i as int), texts[i as int]);
                    assert(texts.take(i as int).push(texts[i as int]) =~= texts.take(i + 1));
                }
                if i > 0 {
                    out.append(",");
                }
                write_removal(&mut out, &list[i]);
                proof {
                    assert(out@ =~= head + joined(texts.take(i + 1)));
                }
                i += 1;
            }
            out.append("]}");
            proof {
                assert(texts.take(list.len() as int) =~= texts);
                assert(out@ =~= encoded(message@));
            }
        },
        MessageType::UpdateUserInfo(list) => {
            out.append("{\"type\":\"updateUserInfo\",\"detail\":[");
            let ghost head = out@;
            let ghost texts = updates_view(list@).map_values(
                |e: UpdateUserInfoEventView| encoded_update(e),
            );
            let mut i: usize = 0;
            while i < list.len()
                invariant
                    i <= list.len(),
                    head == "{\"type\":\"updateUserInfo\",\"detail\":["@,
                    texts == updates_view(list@).map_values(
                        |e: UpdateUserInfoEventView| encoded_update(e),
                    ),
                    out@ == head + joined(texts.take(i as int)),
                decreases list.len() - i,
            {
                proof {
                    lemma_joined_push(texts.take(i as int), texts[i as int]);
                    assert(texts.take(i as int).push(texts[i as int]) =~= texts.take(i + 1));
                }
                if i > 0 {
                    out.append(",");
                }
                write_update(&mut out, &list[i]);
                proof {
                    assert(out@ =~= head + joined(texts.take(i + 1)));
                }
                i += 1;
            }
            out.append("]}");
            proof {
                assert(texts.take(list.len() as int) =~= texts);
                assert(out@ =~= encoded(message@));
            }
        },
        MessageType::ICE(e) => {
            out.append("{\"type\":\"ice\",\"detail\":{\"streamId\":");
            write_optional(&mut out, &e.stream_id);
            out.append(",\"candidate\":");
            write_quoted(&mut out, e.candidate.as_str());
            out.append("}}");
            assert(out@ =~= encoded(message@));
        },
        MessageType::Answer(e) => {
            out.append("{\"type\":\"answer\",\"detail\":{\"streamId\":");
            write_session(&mut out, e);
            assert(out@ =~= encoded(message@));
        },
        MessageType::Offer(e) => {
            out.append("{\"type\":\"offer\",\"detail\":{\"streamId\":");
            write_session(&mut out, e);
            assert(out@ =~= encoded(message@));
        },
        MessageType::Capture(e) => {
            out.append("{\"type\":\"capture\",\"detail\":{\"streamId\":");
            write_capture(&mut out, e);
            assert(out@ =~= encoded(message@));
        },
        MessageType::EndCapture(e) => {
            out.append("{\"type\":\"endCapture\",\"detail\":{\"streamId\":");
            write_capture(&mut out, e);
            assert(out@ =~= encoded(message@));
        },
        MessageType::Unlink => {
            out.append("{\"type\":\"unlink\"}");
            assert(out@ =~= encoded(message@));
        },
    }
    out
}

} // verus!
