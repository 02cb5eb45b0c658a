use crate::names::{queue_name, queue_name_of};
use vstd::prelude::*;

verus! {

/// A queue as the user sees it in a listing.
#[derive(Debug, Clone, PartialEq, Eq)]
pub struct QueueInfo {
    /// The last path segment of the queue's URL.
    pub name: String,
    /// The URL by which the service knows the queue.
    pub url: String,
}

/// A [`QueueInfo`] with its texts as sequences of characters.
pub struct QueueInfoView {
    pub name: Seq<char>,
    pub url: Seq<char>,
}

impl View for QueueInfo {
    type V = QueueInfoView;

    open spec fn view(&self) -> QueueInfoView {
        QueueInfoView { name: self.name@, url: self.url@ }
    }
}

impl DeepView for QueueInfo {
    type V = QueueInfoView;

    open spec fn deep_view(&self) -> QueueInfoView {
        self@
    }
}

/// A message as the service delivered it: every field may be missing.
#[derive(Debug, Clone, PartialEq, Eq)]
pub struct ReceivedMessage {
    pub message_id: Option<String>,
    pub body: Option<String>,
    pub receipt_handle: Option<String>,
}

/// A [`ReceivedMessage`] with its texts as sequences of characters.
pub struct ReceivedMessageView {
    pub message_id: Option<Seq<char>>,
    pub body: Option<Seq<char>>,
    pub receipt_handle: Option<Seq<char>>,
}

impl View for ReceivedMessage {
    type V = ReceivedMessageView;

    open spec fn view(&self) -> ReceivedMessageView {
        ReceivedMessageView {
            message_id: self.message_id.deep_view(),
            body: self.body.deep_view(),
            receipt_handle: self.receipt_handle.deep_view(),
        }
    }
}

impl DeepView for ReceivedMessage {
    type V = ReceivedMessageView;

    open spec fn deep_view(&self) -> ReceivedMessageView {
        self@
    }
}

/// A message as the user sees it.
#[derive(Debug, Clone, PartialEq, Eq)]
pub struct Message {
    /// The identifier that the service gave the message; empty if it gave none.
    pub id: String,
    /// The message text; empty if the service sent none.
    pub body: String,
    /// The token that acknowledges this delivery, where the service issued one.
    pub receipt_handle: Option<String>,
}

/// A [`Message`] with its texts as sequences of characters.
pub struct MessageView {
    pub id: Seq<char>,
    pub body: Seq<char>,
    pub receipt_handle: Option<Seq<char>>,
}

impl View for Message {
    type V = MessageView;

    open spec fn view(&self) -> MessageView {
        MessageView {
            id: self.id@,
            body: self.body@,
            receipt_handle: self.receipt_handle.deep_view(),
        }
    }
}

impl DeepView for Message {
    type V = MessageView;

    open spec fn deep_view(&self) -> MessageView {
        self@
    }
}

/// The text of an optional field, empty where the field is missing.
pub open spec fn text_or_empty(text: Option<Seq<char>>) -> Seq<char> {
    match text {
        Some(t) => t,
        None => Seq::empty(),
    }
}

/// The listing entry of the queue at `url`.
pub open spec fn queue_info_of(url: Seq<char>) -> QueueInfoView {
    QueueInfoView { name: queue_name_of(url), url }
}

/// The listing of the queues at `urls`, in the same order.
pub open spec fn queue_infos_of(urls: Seq<Seq<char>>) -> Seq<QueueInfoView> {
    urls.map_values(|url: Seq<char>| queue_info_of(url))
}

/// The message that the user sees for a delivered one.
pub open spec fn message_of(received: ReceivedMessageView) -> MessageView {
    MessageView {
        id: text_or_empty(received.message_id),
        body: text_or_empty(received.body),
        receipt_handle: received.receipt_handle,
    }
}

/// The messages that the user sees for the delivered ones, in the same order.
pub open spec fn messages_of(received: Seq<ReceivedMessageView>) -> Seq<MessageView> {
    received.map_values(|one: ReceivedMessageView| message_of(one))
}

/// Returns the text of an optional field, or an empty text where it is missing.
pub fn text_or_default(text: Option<String>) -> (out: String)
    ensures
        out@ == text_or_empty(text.deep_view()),
{
    match text {
        Some(t) => t,
        None => String::new(),
    }
}

impl QueueInfo {
    /// Describes the queue at `url`, naming it by the URL's last path segment.
    pub fn from_url(url: String) -> (info: QueueInfo)
        ensures
            info@ == queue_info_of(url@),
    {
        let name = queue_name(url.as_str());
        QueueInfo { name, url }
    }
}

impl ReceivedMessage {
    /// Turns a delivered message into the record shown to the user: a missing
    /// identifier or body becomes empty, the receipt handle is kept as it is.
    pub fn into_message(self) -> (message: Message)
        ensures
            message@ == message_of(self@),
    {
        Message {
            id: text_or_default(self.message_id),
            body: text_or_default(self.body),
            receipt_handle: self.receipt_handle,
        }
    }
}

/// Describes each queue of a listing, in the order in which the service gave
/// the URLs.
pub fn queue_infos(urls: Vec<String>) -> (infos: Vec<QueueInfo>)
    ensures
        infos.deep_view() == queue_infos_of(urls.deep_view()),
{
    let ghost all = urls@;
    let mut infos: Vec<QueueInfo> = Vec::new();
    for url in it: urls.into_iter()
        invariant
            it.seq() == all,
            infos.len() == it.index(),
            forall|k: int| 0 <= k < infos.len() ==> (#[trigger] infos[k])@ == queue_info_of(all[k]@),
    {
        infos.push(QueueInfo::from_url(url));
    }
    assert(infos.deep_view() =~= queue_infos_of(urls.deep_view()));
    infos
}

/// Turns each delivered message into the record shown to the user, in the
/// order of delivery.
pub fn messages(received: Vec<ReceivedMessage>) -> (out: Vec<Message>)
    ensures
        out.deep_view() == messages_of(received.deep_view()),
{
    let ghost all = received@;
    let mut out: Vec<Message> = Vec::new();
    for one in it: received.into_iter()
        invariant
            it.seq() == all,
            out.len() == it.index(),
            forall|k: int| 0 <= k < out.len() ==> (#[trigger] out[k])@ == message_of(all[k]@),
    {
        out.push(one.into_message());
    }
    assert(out.deep_view() =~= messages_of(received.deep_view()));
    out
}

} // verus!
