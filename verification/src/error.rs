//! The errors with which an execution can end.

use vstd::prelude::*;

verus! {

/// What went wrong, as far as a caller needs to tell failures apart.
#[derive(Clone, Copy, Debug, PartialEq, Eq, Structural)]
pub enum ErrorKind {
    /// The request names something that the current configuration lacks: a
    /// monitor, a network of that monitor, or a registered network.
    NotFound,
    /// Any other failure: a chain kind without a client, or a collaborator
    /// that failed.
    ExecutionError,
}

/// Key and value pairs as mathematical values.
pub open spec fn pairs(list: Seq<(String, String)>) -> Seq<(Seq<char>, Seq<char>)> {
    Seq::new(list.len(), |i: int| (list[i].0@, list[i].1@))
}

/// What an error tells beyond its kind, as a mathematical value.
pub struct ErrorContextView {
    pub message: Seq<char>,
    pub metadata: Option<Seq<(Seq<char>, Seq<char>)>>,
}

/// What an error tells beyond its kind: a message for people and, where
/// there is any, structured key and value pairs.
#[derive(Debug, PartialEq, Eq)]
pub struct ErrorContext {
    pub message: String,
    pub metadata: Option<Vec<(String, String)>>,
}

/// Optional key and value pairs as mathematical values.
pub open spec fn metadata_view(
    metadata: Option<Vec<(String, String)>>,
) -> Option<Seq<(Seq<char>, Seq<char>)>> {
    match metadata {
        Some(list) => Some(pairs(list@)),
        None => None,
    }
}

impl View for ErrorContext {
    type V = ErrorContextView;

    open spec fn view(&self) -> ErrorContextView {
        ErrorContextView { message: self.message@, metadata: metadata_view(self.metadata) }
    }
}

/// An error as a mathematical value.
pub struct ErrorView {
    pub kind: ErrorKind,
    pub context: ErrorContextView,
}

/// The error of a kind with a message and, where there is any, metadata.
pub open spec fn error_of(
    kind: ErrorKind,
    message: Seq<char>,
    metadata: Option<Seq<(Seq<char>, Seq<char>)>>,
) -> ErrorView {
    ErrorView { kind, context: ErrorContextView { message, metadata } }
}

/// The error of kind `NotFound` that carries `message` and nothing else.
pub open spec fn not_found(message: Seq<char>) -> ErrorView {
    error_of(ErrorKind::NotFound, message, None)
}

/// The error of kind `ExecutionError` that carries `message` and nothing else.
pub open spec fn execution_error(message: Seq<char>) -> ErrorView {
    error_of(ErrorKind::ExecutionError, message, None)
}

/// The one thing an execution returns when it fails.
#[derive(Debug, PartialEq, Eq)]
pub enum MonitorExecutionError {
    NotFound(ErrorContext),
    ExecutionError(ErrorContext),
}

impl View for MonitorExecutionError {
    type V = ErrorView;

    open spec fn view(&self) -> ErrorView {
        match self {
            MonitorExecutionError::NotFound(context) => ErrorView {
                kind: ErrorKind::NotFound,
                context: context@,
            },
            MonitorExecutionError::ExecutionError(context) => ErrorView {
                kind: ErrorKind::ExecutionError,
                context: context@,
            },
        }
    }
}

impl MonitorExecutionError {
    /// An error of kind `NotFound`.
    pub fn not_found(message: String, metadata: Option<Vec<(String, String)>>) -> (error: Self)
        ensures
            error@ == error_of(ErrorKind::NotFound, message@, metadata_view(metadata)),
    {
        MonitorExecutionError::NotFound(ErrorContext { message, metadata })
    }

    /// An error of kind `ExecutionError`.
    pub fn execution_error(
        message: String,
        metadata: Option<Vec<(String, String)>>,
    ) -> (error: Self)
        ensures
            error@ == error_of(ErrorKind::ExecutionError, message@, metadata_view(metadata)),
    {
        MonitorExecutionError::ExecutionError(ErrorContext { message, metadata })
    }

    /// The kind of this error.
    pub fn kind(&self) -> (kind: ErrorKind)
        ensures
            kind == self@.kind,
    {
        match self {
            MonitorExecutionError::NotFound(_) => ErrorKind::NotFound,
            MonitorExecutionError::ExecutionError(_) => ErrorKind::ExecutionError,
        }
    }

    /// Whether this error is of kind `NotFound`.
    pub fn is_not_found(&self) -> (yes: bool)
        ensures
            yes == (self@.kind == ErrorKind::NotFound),
    {
        match self {
            MonitorExecutionError::NotFound(_) => true,
            MonitorExecutionError::ExecutionError(_) => false,
        }
    }

    /// The message of this error.
    pub fn message(&self) -> (message: &String)
        ensures
            message@ == self@.context.message,
    {
        match self {
            MonitorExecutionError::NotFound(context) => &context.message,
            MonitorExecutionError::ExecutionError(context) => &context.message,
        }
    }
}

/// What an execution returns: a value, or the error it ended with.
pub type ExecutionResult<T> = Result<T, MonitorExecutionError>;

} // verus!
