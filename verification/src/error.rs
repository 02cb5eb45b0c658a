use vstd::prelude::*;

verus! {

/// What a command reports when no client has been configured.
pub const NOT_CONFIGURED_MESSAGE: &'static str = "SQS not configured";

/// Why a command did not produce a result.
#[derive(Debug, Clone, PartialEq, Eq)]
pub enum QueueError {
    /// No client has been configured yet.
    NotConfigured,
    /// The remote call failed; the text is the service's own description.
    RemoteOperationFailed(String),
}

/// A [`QueueError`] with its text as a sequence of characters.
pub enum QueueErrorView {
    NotConfigured,
    RemoteOperationFailed(Seq<char>),
}

impl View for QueueError {
    type V = QueueErrorView;

    open spec fn view(&self) -> QueueErrorView {
        match self {
            QueueError::NotConfigured => QueueErrorView::NotConfigured,
            QueueError::RemoteOperationFailed(detail) => QueueErrorView::RemoteOperationFailed(
                detail@,
            ),
        }
    }
}

impl QueueErrorView {
    /// The single line of text that the user is shown for this error.
    pub open spec fn message(self) -> Seq<char> {
        match self {
            QueueErrorView::NotConfigured => NOT_CONFIGURED_MESSAGE@,
            QueueErrorView::RemoteOperationFailed(detail) => detail,
        }
    }
}

impl QueueError {
    /// Renders the error as the text shown to the user: a fixed line when no
    /// client is configured, the service's description otherwise.
    pub fn message(&self) -> (text: String)
        ensures
            text@ == self@.message(),
    {
        match self {
            QueueError::NotConfigured => NOT_CONFIGURED_MESSAGE.to_owned(),
            QueueError::RemoteOperationFailed(detail) => detail.clone(),
        }
    }
}

} // verus!
