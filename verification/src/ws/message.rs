//! The typed messages that travel between publisher, relay and viewers.
//!
//! Every type has a view: the same record with its strings as sequences of
//! characters. Contracts elsewhere in the crate speak about these views.

use vstd::prelude::*;

verus! {

/// Display name and preview picture of a stream, as the publisher reports them.
#[derive(Debug, PartialEq, Eq)]
pub struct UserInfo {
    pub nickname: String,
    /// base64 encoded image
    pub stream_preview: String,
}

/// Mathematical value of a [`UserInfo`].
pub struct UserInfoView {
    pub nickname: Seq<char>,
    pub stream_preview: Seq<char>,
}

impl View for UserInfo {
    type V = UserInfoView;

    open spec fn view(&self) -> UserInfoView {
        UserInfoView { nickname: self.nickname@, stream_preview: self.stream_preview@ }
    }
}

impl Clone for UserInfo {
    fn clone(&self) -> (r: Self)
        ensures
            r@ == self@,
    {
        UserInfo { nickname: self.nickname.clone(), stream_preview: self.stream_preview.clone() }
    }
}

/// One directory entry announced (or refreshed) by the publisher.
#[derive(Debug, PartialEq, Eq)]
pub struct UpdateUserInfoEvent {
    pub stream_id: String,
    pub user_id: String,
    pub info: UserInfo,
}

/// Mathematical value of an [`UpdateUserInfoEvent`].
pub struct UpdateUserInfoEventView {
    pub stream_id: Seq<char>,
    pub user_id: Seq<char>,
    pub info: UserInfoView,
}

impl View for UpdateUserInfoEvent {
    type V = UpdateUserInfoEventView;

    open spec fn view(&self) -> UpdateUserInfoEventView {
        UpdateUserInfoEventView {
            stream_id: self.stream_id@,
            user_id: self.user_id@,
            info: self.info@,
        }
    }
}

impl Clone for UpdateUserInfoEvent {
    fn clone(&self) -> (r: Self)
        ensures
            r@ == self@,
    {
        UpdateUserInfoEvent {
            stream_id: self.stream_id.clone(),
            user_id: self.user_id.clone(),
            info: self.info.clone(),
        }
    }
}

/// A stream the publisher no longer offers.
#[derive(Debug, PartialEq, Eq)]
pub struct RemoveStreamEvent {
    pub stream_id: String,
}

/// Mathematical value of a [`RemoveStreamEvent`].
pub struct RemoveStreamEventView {
    pub stream_id: Seq<char>,
}

impl View for RemoveStreamEvent {
    type V = RemoveStreamEventView;

    open spec fn view(&self) -> RemoveStreamEventView {
        RemoveStreamEventView { stream_id: self.stream_id@ }
    }
}

impl Clone for RemoveStreamEvent {
    fn clone(&self) -> (r: Self)
        ensures
            r@ == self@,
    {
        RemoveStreamEvent { stream_id: self.stream_id.clone() }
    }
}

/// An ICE candidate. The stream id is present on messages from the
/// publisher; on messages from a viewer the relay fills it in.
#[derive(Debug, PartialEq, Eq)]
pub struct ICEEvent {
    pub stream_id: Option<String>,
    pub candidate: String,
}

/// Mathematical value of an [`ICEEvent`].
pub struct ICEEventView {
    pub stream_id: Option<Seq<char>>,
    pub candidate: Seq<char>,
}

impl View for ICEEvent {
    type V = ICEEventView;

    open spec fn view(&self) -> ICEEventView {
        ICEEventView { stream_id: opt_text(self.stream_id), candidate: self.candidate@ }
    }
}

impl Clone for ICEEvent {
    fn clone(&self) -> (r: Self)
        ensures
            r@ == self@,
    {
        ICEEvent { stream_id: clone_opt_text(&self.stream_id), candidate: self.candidate.clone() }
    }
}

/// An SDP offer or answer. The stream id is present on messages from the
/// publisher; on messages from a viewer the relay fills it in.
#[derive(Debug, PartialEq, Eq)]
pub struct AnswerOfferEvent {
    pub stream_id: Option<String>,
    pub sdp: String,
}

/// Mathematical value of an [`AnswerOfferEvent`].
pub struct AnswerOfferEventView {
    pub stream_id: Option<Seq<char>>,
    pub sdp: Seq<char>,
}

impl View for AnswerOfferEvent {
    type V = AnswerOfferEventView;

    open spec fn view(&self) -> AnswerOfferEventView {
        AnswerOfferEventView { stream_id: opt_text(self.stream_id), sdp: self.sdp@ }
    }
}

impl Clone for AnswerOfferEvent {
    fn clone(&self) -> (r: Self)
        ensures
            r@ == self@,
    {
        AnswerOfferEvent { stream_id: clone_opt_text(&self.stream_id), sdp: self.sdp.clone() }
    }
}

/// Asks the publisher to start, or to stop, capturing one stream.
#[derive(Debug, PartialEq, Eq)]
pub struct CaptureEvent {
    pub stream_id: String,
}

/// Mathematical value of a [`CaptureEvent`].
pub struct CaptureEventView {
    pub stream_id: Seq<char>,
}

impl View for CaptureEvent {
    type V = CaptureEventView;

    open spec fn view(&self) -> CaptureEventView {
        CaptureEventView { stream_id: self.stream_id@ }
    }
}

impl Clone for CaptureEvent {
    fn clone(&self) -> (r: Self)
        ensures
            r@ == self@,
    {
        CaptureEvent { stream_id: self.stream_id.clone() }
    }
}

/// One message of the signalling protocol, one variant per `type` tag.
#[derive(Debug, PartialEq, Eq)]
pub enum MessageType {
    Remove(Vec<RemoveStreamEvent>),
    ICE(ICEEvent),
    Answer(AnswerOfferEvent),
    Offer(AnswerOfferEvent),
    Capture(CaptureEvent),
    EndCapture(CaptureEvent),
    Unlink,
    UpdateUserInfo(Vec<UpdateUserInfoEvent>),
}

/// Mathematical value of a [`MessageType`].
pub enum MessageTypeView {
    Remove(Seq<RemoveStreamEventView>),
    ICE(ICEEventView),
    Answer(AnswerOfferEventView),
    Offer(AnswerOfferEventView),
    Capture(CaptureEventView),
    EndCapture(CaptureEventView),
    Unlink,
    UpdateUserInfo(Seq<UpdateUserInfoEventView>),
}

impl View for MessageType {
    type V = MessageTypeView;

    open spec fn view(&self) -> MessageTypeView {
        match *self {
            MessageType::Remove(list) => MessageTypeView::Remove(removals_view(list@)),
            MessageType::ICE(e) => MessageTypeView::ICE(e@),
            MessageType::Answer(e) => MessageTypeView::Answer(e@),
            MessageType::Offer(e) => MessageTypeView::Offer(e@),
            MessageType::Capture(e) => MessageTypeView::Capture(e@),
            MessageType::EndCapture(e) => MessageTypeView::EndCapture(e@),
            MessageType::Unlink => MessageTypeView::Unlink,
            MessageType::UpdateUserInfo(list) => MessageTypeView::UpdateUserInfo(
                updates_view(list@),
            ),
        }
    }
}

impl Clone for MessageType {
    fn clone(&self) -> (r: Self)
        ensures
            r@ == self@,
    {
        match self {
            MessageType::Remove(list) => MessageType::Remove(clone_removals(list)),
            MessageType::ICE(e) => MessageType::ICE(e.clone()),
            MessageType::Answer(e) => MessageType::Answer(e.clone()),
            MessageType::Offer(e) => MessageType::Offer(e.clone()),
            MessageType::Capture(e) => MessageType::Capture(e.clone()),
            MessageType::EndCapture(e) => MessageType::EndCapture(e.clone()),
            MessageType::Unlink => MessageType::Unlink,
            MessageType::UpdateUserInfo(list) => MessageType::UpdateUserInfo(clone_updates(list)),
        }
    }
}

/// The text held by an optional string, if any.
pub open spec fn opt_text(s: Option<String>) -> Option<Seq<char>> {
    match s {
        Some(t) => Some(t@),
        None => None,
    }
}

/// The values of a list of removals, in order.
pub open spec fn removals_view(list: Seq<RemoveStreamEvent>) -> Seq<RemoveStreamEventView> {
    Seq::new(list.len(), |i: int| list[i]@)
}

/// The values of a list of directory updates, in order.
pub open spec fn updates_view(list: Seq<UpdateUserInfoEvent>) -> Seq<UpdateUserInfoEventView> {
    Seq::new(list.len(), |i: int| list[i]@)
}

/// Copies an optional string.
pub fn clone_opt_text(s: &Option<String>) -> (r: Option<String>)
    ensures
        opt_text(r) == opt_text(*s),
{
    match s {
        Some(t) => Some(t.clone()),
        None => None,
    }
}

/// Copies a list of removals, element by element.
pub fn clone_removals(list: &Vec<RemoveStreamEvent>) -> (r: Vec<RemoveStreamEvent>)
    ensures
        removals_view(r@) == removals_view(list@),
{
    let mut out: Vec<RemoveStreamEvent> = Vec::new();
    let mut i: usize = 0;
    while i < list.len()
        invariant
            i <= list.len(),
            out.len() == i,
            forall|k: int| 0 <= k < i ==> out[k]@ == list[k]@,
        decreases list.len() - i,
    {
        out.push(list[i].clone());
        i += 1;
    }
    assert(removals_view(out@) =~= removals_view(list@));
    out
}

/// Copies a list of directory updates, element by element.
pub fn clone_updates(list: &Vec<UpdateUserInfoEvent>) -> (r: Vec<UpdateUserInfoEvent>)
    ensures
        updates_view(r@) == updates_view(list@),
{
    let mut out: Vec<UpdateUserInfoEvent> = Vec::new();
    let mut i: usize = 0;
    while i < list.len()
        invariant
            i <= list.len(),
            out.len() == i,
            forall|k: int| 0 <= k < i ==> out[k]@ == list[k]@,
        decreases list.len() - i,
    {
        out.push(list[i].clone());
        i += 1;
    }
    assert(updates_view(out@) =~= updates_view(list@));
    out
}

} // verus!
