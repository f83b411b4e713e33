//! What can go wrong, by the layer in which it goes wrong.

use vstd::prelude::*;
use vstd::std_specs::convert::FromSpecImpl;
use vstd::string::StringExecFns;

verus! {

/// The request never got an answer that could be read.
#[derive(Clone, Copy, Debug, PartialEq, Eq, Structural)]
pub enum TransportError {
    /// No connection to the endpoint came about: it refused, could not be
    /// found, or kept silent until the connection deadline passed.
    Unreachable,
    /// The endpoint was reached, and its answer did not come before the
    /// answer deadline.
    Timeout,
    /// The answer is larger than the configured ceiling.
    Oversized,
    /// The request path does not begin with a slash.
    InvalidPath,
}

/// The answer could not be understood.
#[derive(Clone, Copy, Debug, PartialEq, Eq, Structural)]
pub enum DecodeError {
    /// The answer is not a JSON text.
    MalformedJson,
    /// The envelope's `type` is none of `sync`, `async` and `error`.
    UnknownEnvelopeKind,
    /// A member is missing or of the wrong kind, or a type whose schema is known
    /// in full has a member that the schema lacks.
    SchemaMismatch,
    /// A status code outside the known enumeration.
    UnknownStatus(u64),
}

/// The daemon answered, and the answer is that the work did not succeed.
#[derive(Clone, Debug, PartialEq, Eq)]
pub enum OperationError {
    /// The daemon reports a failure, with its own description.
    Failed(String),
    /// The operation was canceled on the daemon's side.
    Canceled,
    /// The wait ended before the operation did. The operation goes on.
    TimedOut,
}

/// The configuration names no usable endpoint.
#[derive(Clone, Copy, Debug, PartialEq, Eq, Structural)]
pub enum ConfigError {
    UnresolvableEndpoint,
}

/// Any error of this crate.
#[derive(Clone, Debug, PartialEq, Eq)]
pub enum ErrorImpl {
    Transport(TransportError),
    Decode(DecodeError),
    Operation(OperationError),
    Config(ConfigError),
}

#[derive(Clone, Debug, PartialEq, Eq)]
pub struct Error(pub Box<ErrorImpl>);

pub ghost enum OperationErrorView {
    Failed(Seq<char>),
    Canceled,
    TimedOut,
}

pub ghost enum ErrorView {
    Transport(TransportError),
    Decode(DecodeError),
    Operation(OperationErrorView),
    Config(ConfigError),
}

impl View for OperationError {
    type V = OperationErrorView;

    open spec fn view(&self) -> OperationErrorView {
        match self {
            OperationError::Failed(detail) => OperationErrorView::Failed(detail@),
            OperationError::Canceled => OperationErrorView::Canceled,
            OperationError::TimedOut => OperationErrorView::TimedOut,
        }
    }
}

impl View for ErrorImpl {
    type V = ErrorView;

    open spec fn view(&self) -> ErrorView {
        match self {
            ErrorImpl::Transport(e) => ErrorView::Transport(*e),
            ErrorImpl::Decode(e) => ErrorView::Decode(*e),
            ErrorImpl::Operation(e) => ErrorView::Operation(e@),
            ErrorImpl::Config(e) => ErrorView::Config(*e),
        }
    }
}

impl View for Error {
    type V = ErrorView;

    open spec fn view(&self) -> ErrorView {
        (*self.0)@
    }
}

/// The text that describes an error to a reader.
pub open spec fn error_text(error: ErrorView) -> Seq<char> {
    match error {
        ErrorView::Transport(TransportError::Unreachable) => "endpoint unreachable"@,
        ErrorView::Transport(TransportError::Timeout) => "request timed out"@,
        ErrorView::Transport(TransportError::Oversized) => "response too large"@,
        ErrorView::Transport(TransportError::InvalidPath) => "request path must begin with a slash"@,
        ErrorView::Decode(DecodeError::MalformedJson) => "response is not JSON"@,
        ErrorView::Decode(DecodeError::UnknownEnvelopeKind) => "unknown response type"@,
        ErrorView::Decode(DecodeError::SchemaMismatch) => "response does not match the schema"@,
        ErrorView::Decode(DecodeError::UnknownStatus(_)) => "unknown status code"@,
        ErrorView::Operation(OperationErrorView::Failed(detail)) => "operation failed: "@ + detail,
        ErrorView::Operation(OperationErrorView::Canceled) => "operation canceled"@,
        ErrorView::Operation(OperationErrorView::TimedOut) => "timed out waiting for operation"@,
        ErrorView::Config(ConfigError::UnresolvableEndpoint) => "endpoint cannot be resolved"@,
    }
}

impl Error {
    pub fn new(err: ErrorImpl) -> (r: Self)
        ensures
            r == Error(Box::new(err)),
            r@ == err@,
    {
        Self(Box::new(err))
    }

    /// The error itself, by layer.
    pub fn kind(&self) -> (r: &ErrorImpl)
        ensures
            r@ == self@,
    {
        &*self.0
    }

    /// The description of the error, as a reader sees it.
    pub fn message(&self) -> (r: String)
        ensures
            r@ == error_text(self@),
    {
        match &*self.0 {
            ErrorImpl::Transport(TransportError::Unreachable) => String::from_str(
                "endpoint unreachable",
            ),
            ErrorImpl::Transport(TransportError::Timeout) => String::from_str("request timed out"),
            ErrorImpl::Transport(TransportError::Oversized) => String::from_str(
                "response too large",
            ),
            ErrorImpl::Transport(TransportError::InvalidPath) => String::from_str(
                "request path must begin with a slash",
            ),
            ErrorImpl::Decode(DecodeError::MalformedJson) => String::from_str(
                "response is not JSON",
            ),
            ErrorImpl::Decode(DecodeError::UnknownEnvelopeKind) => String::from_str(
                "unknown response type",
            ),
            ErrorImpl::Decode(DecodeError::SchemaMismatch) => String::from_str(
                "response does not match the schema",
            ),
            ErrorImpl::Decode(DecodeError::UnknownStatus(_)) => String::from_str(
                "unknown status code",
            ),
            ErrorImpl::Operation(OperationError::Failed(detail)) => String::from_str(
                "operation failed: ",
            ).concat(detail.as_str()),
            ErrorImpl::Operation(OperationError::Canceled) => String::from_str(
                "operation canceled",
            ),
            ErrorImpl::Operation(OperationError::TimedOut) => String::from_str(
                "timed out waiting for operation",
            ),
            ErrorImpl::Config(ConfigError::UnresolvableEndpoint) => String::from_str(
                "endpoint cannot be resolved",
            ),
        }
    }
}

impl From<TransportError> for Error {
    fn from(cause: TransportError) -> (r: Self) {
        Error::new(ErrorImpl::Transport(cause))
    }
}

impl FromSpecImpl<TransportError> for Error {
    open spec fn obeys_from_spec() -> bool {
        true
    }

    open spec fn from_spec(cause: TransportError) -> Self {
        Error(Box::new(ErrorImpl::Transport(cause)))
    }
}

impl From<DecodeError> for Error {
    fn from(cause: DecodeError) -> (r: Self) {
        Error::new(ErrorImpl::Decode(cause))
    }
}

impl FromSpecImpl<DecodeError> for Error {
    open spec fn obeys_from_spec() -> bool {
        true
    }

    open spec fn from_spec(cause: DecodeError) -> Self {
        Error(Box::new(ErrorImpl::Decode(cause)))
    }
}

impl From<OperationError> for Error {
    fn from(cause: OperationError) -> (r: Self) {
        Error::new(ErrorImpl::Operation(cause))
    }
}

impl FromSpecImpl<OperationError> for Error {
    open spec fn obeys_from_spec() -> bool {
        true
    }

    open spec fn from_spec(cause: OperationError) -> Self {
        Error(Box::new(ErrorImpl::Operation(cause)))
    }
}

impl From<ConfigError> for Error {
    fn from(cause: ConfigError) -> (r: Self) {
        Error::new(ErrorImpl::Config(cause))
    }
}

impl FromSpecImpl<ConfigError> for Error {
    open spec fn obeys_from_spec() -> bool {
        true
    }

    open spec fn from_spec(cause: ConfigError) -> Self {
        Error(Box::new(ErrorImpl::Config(cause)))
    }
}

/// The view of a result whose error is a decode error.
pub open spec fn viewed<T: View>(r: Result<T, DecodeError>) -> Result<T::V, DecodeError> {
    match r {
        Ok(value) => Ok(value@),
        Err(e) => Err(e),
    }
}

/// The view of a result whose error is any error of this crate.
pub open spec fn outcome_view<T: View>(r: Result<T, Error>) -> Result<T::V, ErrorView> {
    match r {
        Ok(value) => Ok(value@),
        Err(e) => Err(e@),
    }
}

} // verus!
