use nlxd::error::{
    ConfigError, DecodeError, Error, ErrorImpl, OperationError, TransportError,
};

#[test]
fn an_error_holds_what_it_was_made_from() {
    let error = Error::new(ErrorImpl::Decode(DecodeError::UnknownStatus(999)));
    assert_eq!(error.kind(), &ErrorImpl::Decode(DecodeError::UnknownStatus(999)));
    let error = Error::new(ErrorImpl::Operation(OperationError::Failed("disk full".to_string())));
    assert_eq!(error.kind(), &ErrorImpl::Operation(OperationError::Failed("disk full".to_string())));
}

#[test]
fn errors_of_each_layer_become_errors_of_the_crate() {
    assert_eq!(
        Error::from(TransportError::Unreachable),
        Error::new(ErrorImpl::Transport(TransportError::Unreachable))
    );
    assert_eq!(
        Error::from(DecodeError::MalformedJson),
        Error::new(ErrorImpl::Decode(DecodeError::MalformedJson))
    );
    assert_eq!(
        Error::from(OperationError::TimedOut),
        Error::new(ErrorImpl::Operation(OperationError::TimedOut))
    );
    assert_eq!(
        Error::from(ConfigError::UnresolvableEndpoint),
        Error::new(ErrorImpl::Config(ConfigError::UnresolvableEndpoint))
    );
}

#[test]
fn every_error_describes_itself() {
    let text = |e: ErrorImpl| Error::new(e).message();
    assert_eq!(text(ErrorImpl::Transport(TransportError::Unreachable)), "endpoint unreachable");
    assert_eq!(text(ErrorImpl::Transport(TransportError::Timeout)), "request timed out");
    assert_eq!(text(ErrorImpl::Transport(TransportError::Oversized)), "response too large");
    assert_eq!(
        text(ErrorImpl::Transport(TransportError::InvalidPath)),
        "request path must begin with a slash"
    );
    assert_eq!(text(ErrorImpl::Decode(DecodeError::MalformedJson)), "response is not JSON");
    assert_eq!(text(ErrorImpl::Decode(DecodeError::UnknownEnvelopeKind)), "unknown response type");
    assert_eq!(
        text(ErrorImpl::Decode(DecodeError::SchemaMismatch)),
        "response does not match the schema"
    );
    assert_eq!(text(ErrorImpl::Decode(DecodeError::UnknownStatus(7))), "unknown status code");
    assert_eq!(
        text(ErrorImpl::Operation(OperationError::Failed("disk full".to_string()))),
        "operation failed: disk full"
    );
    assert_eq!(text(ErrorImpl::Operation(OperationError::Canceled)), "operation canceled");
    assert_eq!(
        text(ErrorImpl::Operation(OperationError::TimedOut)),
        "timed out waiting for operation"
    );
    assert_eq!(
        text(ErrorImpl::Config(ConfigError::UnresolvableEndpoint)),
        "endpoint cannot be resolved"
    );
}
