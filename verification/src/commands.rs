use crate::error::{QueueError, QueueErrorView};
use crate::records::{
    messages, messages_of, queue_infos, queue_infos_of, text_or_default, text_or_empty, Message,
    MessageView, QueueInfo, ReceivedMessage, ReceivedMessageView,
};
use crate::session::Session;
use vstd::prelude::*;

verus! {

/// How long a receive call waits for messages before it returns empty-handed,
/// in seconds.
pub const RECEIVE_WAIT_SECONDS: i32 = 5;

/// Asks the service to create a queue.
#[derive(Debug, Clone, PartialEq, Eq)]
pub struct CreateQueueRequest {
    pub queue_name: String,
}

/// A [`CreateQueueRequest`] with its text as a sequence of characters.
pub struct CreateQueueRequestView {
    pub queue_name: Seq<char>,
}

impl View for CreateQueueRequest {
    type V = CreateQueueRequestView;

    open spec fn view(&self) -> CreateQueueRequestView {
        CreateQueueRequestView { queue_name: self.queue_name@ }
    }
}

/// Asks the service to put one message on a queue.
#[derive(Debug, Clone, PartialEq, Eq)]
pub struct SendMessageRequest {
    pub queue_url: String,
    pub message_body: String,
}

/// A [`SendMessageRequest`] with its texts as sequences of characters.
pub struct SendMessageRequestView {
    pub queue_url: Seq<char>,
    pub message_body: Seq<char>,
}

impl View for SendMessageRequest {
    type V = SendMessageRequestView;

    open spec fn view(&self) -> SendMessageRequestView {
        SendMessageRequestView { queue_url: self.queue_url@, message_body: self.message_body@ }
    }
}

/// Asks the service for the messages that wait on a queue.
#[derive(Debug, Clone, PartialEq, Eq)]
pub struct ReceiveMessagesRequest {
    pub queue_url: String,
    /// The most messages that one call may deliver.
    pub max_number_of_messages: i32,
    /// How long the service may hold the call while the queue is empty.
    pub wait_time_seconds: i32,
}

/// A [`ReceiveMessagesRequest`] with its text as a sequence of characters.
pub struct ReceiveMessagesRequestView {
    pub queue_url: Seq<char>,
    pub max_number_of_messages: i32,
    pub wait_time_seconds: i32,
}

impl View for ReceiveMessagesRequest {
    type V = ReceiveMessagesRequestView;

    open spec fn view(&self) -> ReceiveMessagesRequestView {
        ReceiveMessagesRequestView {
            queue_url: self.queue_url@,
            max_number_of_messages: self.max_number_of_messages,
            wait_time_seconds: self.wait_time_seconds,
        }
    }
}

/// Asks the service to remove a delivered message from its queue.
#[derive(Debug, Clone, PartialEq, Eq)]
pub struct DeleteMessageRequest {
    pub queue_url: String,
    /// The token that the service issued when it delivered the message.
    pub receipt_handle: String,
}

/// A [`DeleteMessageRequest`] with its texts as sequences of characters.
pub struct DeleteMessageRequestView {
    pub queue_url: Seq<char>,
    pub receipt_handle: Seq<char>,
}

impl View for DeleteMessageRequest {
    type V = DeleteMessageRequestView;

    open spec fn view(&self) -> DeleteMessageRequestView {
        DeleteMessageRequestView { queue_url: self.queue_url@, receipt_handle: self.receipt_handle@ }
    }
}

/// Starts a listing of all queues: hands out the client to ask, or reports
/// that none is configured. The request itself carries nothing.
pub fn list_queues<C: Clone>(session: &Session<C>) -> (outcome: Result<C, QueueError>)
    ensures
        match outcome {
            Ok(client) => session@.hands_out(client),
            Err(error) => session@.turns_away(error),
        },
{
    session.get_client()
}

/// Starts the creation of the queue `queue_name`: hands out the client and
/// the request to send, or reports that no client is configured. The name
/// goes out as given; the service decides whether it is acceptable.
pub fn create_queue<C: Clone>(session: &Session<C>, queue_name: String) -> (outcome: Result<
    (C, CreateQueueRequest),
    QueueError,
>)
    ensures
        match outcome {
            Ok((client, request)) => {
                &&& session@.hands_out(client)
                &&& request@ == CreateQueueRequestView { queue_name: queue_name@ }
            },
            Err(error) => session@.turns_away(error),
        },
{
    let client = session.get_client()?;
    Ok((client, CreateQueueRequest { queue_name }))
}

/// Starts the sending of `message_body` to the queue at `queue_url`: hands
/// out the client and the request to send, or reports that no client is
/// configured.
pub fn send_message<C: Clone>(
    session: &Session<C>,
    queue_url: String,
    message_body: String,
) -> (outcome: Result<(C, SendMessageRequest), QueueError>)
    ensures
        match outcome {
            Ok((client, request)) => {
                &&& session@.hands_out(client)
                &&& request@ == SendMessageRequestView {
                    queue_url: queue_url@,
                    message_body: message_body@,
                }
            },
            Err(error) => session@.turns_away(error),
        },
{
    let client = session.get_client()?;
    Ok((client, SendMessageRequest { queue_url, message_body }))
}

/// Starts a poll of the queue at `queue_url` for up to `max_messages`
/// messages: hands out the client and the request to send, or reports that no
/// client is configured. The request lets the service wait
/// [`RECEIVE_WAIT_SECONDS`] for a message to arrive, and no longer.
pub fn receive_messages<C: Clone>(
    session: &Session<C>,
    queue_url: String,
    max_messages: i32,
) -> (outcome: Result<(C, ReceiveMessagesRequest), QueueError>)
    ensures
        match outcome {
            Ok((client, request)) => {
                &&& session@.hands_out(client)
                &&& request@ == ReceiveMessagesRequestView {
                    queue_url: queue_url@,
                    max_number_of_messages: max_messages,
                    wait_time_seconds: RECEIVE_WAIT_SECONDS,
                }
            },
            Err(error) => session@.turns_away(error),
        },
{
    let client = session.get_client()?;
    Ok(
        (
            client,
            ReceiveMessagesRequest {
                queue_url,
                max_number_of_messages: max_messages,
                wait_time_seconds: RECEIVE_WAIT_SECONDS,
            },
        ),
    )
}

/// Starts the removal of the message delivered under `receipt_handle` from
/// the queue at `queue_url`: hands out the client and the request to send, or
/// reports that no client is configured.
pub fn delete_message<C: Clone>(
    session: &Session<C>,
    queue_url: String,
    receipt_handle: String,
) -> (outcome: Result<(C, DeleteMessageRequest), QueueError>)
    ensures
        match outcome {
            Ok((client, request)) => {
                &&& session@.hands_out(client)
                &&& request@ == DeleteMessageRequestView {
                    queue_url: queue_url@,
                    receipt_handle: receipt_handle@,
                }
            },
            Err(error) => session@.turns_away(error),
        },
{
    let client = session.get_client()?;
    Ok((client, DeleteMessageRequest { queue_url, receipt_handle }))
}

/// The error that a failed remote call becomes.
pub fn remote_failure(detail: String) -> (error: QueueError)
    ensures
        error@ == QueueErrorView::RemoteOperationFailed(detail@),
{
    QueueError::RemoteOperationFailed(detail)
}

/// Finishes a listing: the service's queue URLs become listing entries, in
/// the same order; its failure becomes the error to report.
pub fn listed_queues(reply: Result<Vec<String>, String>) -> (outcome: Result<
    Vec<QueueInfo>,
    QueueError,
>)
    ensures
        match reply {
            Ok(urls) => outcome matches Ok(infos) && infos.deep_view() == queue_infos_of(
                urls.deep_view(),
            ),
            Err(detail) => outcome matches Err(error) && error@
                == QueueErrorView::RemoteOperationFailed(detail@),
        },
{
    match reply {
        Ok(urls) => Ok(queue_infos(urls)),
        Err(detail) => Err(remote_failure(detail)),
    }
}

/// Finishes the creation of a queue: the result is the new queue's URL,
/// empty where the service named none; its failure becomes the error to
/// report.
pub fn created_queue(reply: Result<Option<String>, String>) -> (outcome: Result<String, QueueError>)
    ensures
        match reply {
            Ok(queue_url) => outcome matches Ok(url) && url@ == text_or_empty(queue_url.deep_view()),
            Err(detail) => outcome matches Err(error) && error@
                == QueueErrorView::RemoteOperationFailed(detail@),
        },
{
    match reply {
        Ok(queue_url) => Ok(text_or_default(queue_url)),
        Err(detail) => Err(remote_failure(detail)),
    }
}

/// Finishes the sending of a message: the result is the identifier that the
/// service gave it, empty where it gave none; its failure becomes the error
/// to report.
pub fn sent_message(reply: Result<Option<String>, String>) -> (outcome: Result<String, QueueError>)
    ensures
        match reply {
            Ok(message_id) => outcome matches Ok(id) && id@ == text_or_empty(
                message_id.deep_view(),
            ),
            Err(detail) => outcome matches Err(error) && error@
                == QueueErrorView::RemoteOperationFailed(detail@),
        },
{
    match reply {
        Ok(message_id) => Ok(text_or_default(message_id)),
        Err(detail) => Err(remote_failure(detail)),
    }
}

/// Finishes a poll: every delivered message becomes a record for the user,
/// in the order of delivery; the service's failure becomes the error to
/// report.
pub fn received_messages(reply: Result<Vec<ReceivedMessage>, String>) -> (outcome: Result<
    Vec<Message>,
    QueueError,
>)
    ensures
        match reply {
            Ok(delivered) => outcome matches Ok(shown) && shown.deep_view() == messages_of(
                delivered.deep_view(),
            ),
            Err(detail) => outcome matches Err(error) && error@
                == QueueErrorView::RemoteOperationFailed(detail@),
        },
{
    match reply {
        Ok(delivered) => Ok(messages(delivered)),
        Err(detail) => Err(remote_failure(detail)),
    }
}

/// Finishes the removal of a message: nothing comes back on success; the
/// service's failure becomes the error to report.
pub fn deleted_message(reply: Result<(), String>) -> (outcome: Result<(), QueueError>)
    ensures
        match reply {
            Ok(_) => outcome is Ok,
            Err(detail) => outcome matches Err(error) && error@
                == QueueErrorView::RemoteOperationFailed(detail@),
        },
{
    match reply {
        Ok(_) => Ok(()),
        Err(detail) => Err(remote_failure(detail)),
    }
}

/// Where the service delivers no more messages than the request allows, a
/// limit of zero shows the user an empty list.
pub proof fn lemma_limit_of_zero_shows_nothing(
    request: ReceiveMessagesRequestView,
    delivered: Seq<ReceivedMessageView>,
)
    requires
        request.max_number_of_messages == 0,
        delivered.len() <= request.max_number_of_messages,
    ensures
        messages_of(delivered) == Seq::<MessageView>::empty(),
{
    assert(messages_of(delivered) =~= Seq::<MessageView>::empty());
}

} // verus!
