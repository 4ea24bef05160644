//! Failures, and the one channel through which a widget surfaces them.
use vstd::prelude::*;

verus! {

/// A failure of an operation of the console.
#[derive(Debug, PartialEq, Eq)]
pub enum TaskError {
    /// The network operation itself failed: the transport, or the server's
    /// answer.
    Network(String),
    /// A local condition failed before any network operation was issued.
    Validation(String),
}

/// A failure, over texts.
pub enum ErrorView {
    Network(Seq<char>),
    Validation(Seq<char>),
}

impl View for TaskError {
    type V = ErrorView;

    open spec fn view(&self) -> ErrorView {
        match self {
            TaskError::Network(message) => ErrorView::Network(message@),
            TaskError::Validation(message) => ErrorView::Validation(message@),
        }
    }
}

impl DeepView for TaskError {
    type V = ErrorView;

    open spec fn deep_view(&self) -> ErrorView {
        self@
    }
}

impl Clone for TaskError {
    fn clone(&self) -> (copy: Self)
        ensures
            copy == *self,
    {
        match self {
            TaskError::Network(message) => TaskError::Network(message.clone()),
            TaskError::Validation(message) => TaskError::Validation(message.clone()),
        }
    }
}

impl ErrorView {
    /// The text of the failure.
    pub open spec fn message(self) -> Seq<char> {
        match self {
            ErrorView::Network(message) => message,
            ErrorView::Validation(message) => message,
        }
    }

    /// The failure of a submission that is refused because the widget still
    /// has an operation in flight.
    pub open spec fn busy() -> ErrorView {
        ErrorView::Validation("An operation is still in progress"@)
    }
}

impl TaskError {
    /// The text of the failure.
    pub fn message(&self) -> (text: &String)
        ensures
            text@ == self@.message(),
    {
        match self {
            TaskError::Network(message) => message,
            TaskError::Validation(message) => message,
        }
    }

    /// The failure of a submission that is refused because the widget still
    /// has an operation in flight.
    pub fn busy() -> (error: Self)
        ensures
            error@ == ErrorView::busy(),
    {
        TaskError::Validation("An operation is still in progress".to_owned())
    }

    /// Whether the failure came from the network.
    pub fn is_network(&self) -> (network: bool)
        ensures
            network == (self@ is Network),
    {
        match self {
            TaskError::Network(_) => true,
            TaskError::Validation(_) => false,
        }
    }
}

/// Where a widget's failures go: each one is kept as the widget's last error,
/// to be shown in place, and handed on for the widget's owner. Both always
/// happen.
pub struct ErrorSink {
    last_error: Option<TaskError>,
}

impl View for ErrorSink {
    type V = Option<ErrorView>;

    closed spec fn view(&self) -> Option<ErrorView> {
        self.last_error.deep_view()
    }
}

impl ErrorSink {
    /// A sink that has seen no failure.
    pub fn new() -> (sink: Self)
        ensures
            sink@ is None,
    {
        ErrorSink { last_error: None }
    }

    /// The last failure surfaced, if any.
    pub fn last_error(&self) -> (last: &Option<TaskError>)
        ensures
            last.deep_view() == self@,
    {
        &self.last_error
    }

    /// Surfaces a failure: keeps it as the last error, and returns it for the
    /// owner.
    pub fn surface(&mut self, error: TaskError) -> (forwarded: TaskError)
        ensures
            final(self)@ == Some(error@),
            forwarded == error,
    {
        self.last_error = Some(error.clone());
        error
    }

    /// Forgets the last failure.
    pub fn clear(&mut self)
        ensures
            final(self)@ is None,
    {
        self.last_error = None;
    }
}

} // verus!
