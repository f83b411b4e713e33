//! Requests as they are handed to the transport.
//!
//! A request is built the same way for both kinds of endpoint. Only three things
//! depend on the endpoint: the authority in front of the path, the socket to
//! dial, and whether TLS applies.

use crate::client::Timeout;
use crate::endpoint::{Endpoint, EndpointView};
use crate::error::TransportError;
use crate::json::{rendered_json, Json, JsonView};
use vstd::prelude::*;
use vstd::string::{StrSliceExecFns, StringExecFns};

verus! {

/// The method of a request.
#[derive(Clone, Copy, Debug, PartialEq, Eq, Structural)]
pub enum Method {
    Get,
    Post,
    Put,
    Patch,
    Delete,
}

/// What TLS has to do for a request.
#[derive(Clone, Copy, Debug, PartialEq, Eq, Structural)]
pub enum Tls {
    /// The request goes over a local socket: there is no TLS.
    NotApplicable,
    /// The peer's certificate is verified.
    Verified,
    /// The peer's certificate is not verified. Only the configuration can ask
    /// for this.
    Unverified,
}

/// A request, ready to be sent.
#[derive(Debug, PartialEq, Eq)]
pub struct Request {
    pub method: Method,
    /// Scheme and host. On a local socket this is a fixed placeholder, which
    /// the daemon ignores.
    pub authority: String,
    /// The path, beginning with a slash.
    pub path: String,
    /// The document to send, if any.
    pub body: Option<Json>,
    /// The socket to dial; `None` for a network connection.
    pub socket: Option<String>,
    pub tls: Tls,
    pub timeout: Timeout,
}

pub ghost struct RequestView {
    pub method: Method,
    pub authority: Seq<char>,
    pub path: Seq<char>,
    pub body: Option<JsonView>,
    pub socket: Option<Seq<char>>,
    pub tls: Tls,
    pub timeout: Timeout,
}

impl View for Request {
    type V = RequestView;

    open spec fn view(&self) -> RequestView {
        RequestView {
            method: self.method,
            authority: self.authority@,
            path: self.path@,
            body: match self.body {
                Some(json) => Some(json@),
                None => None,
            },
            socket: match self.socket {
                Some(path) => Some(path@),
                None => None,
            },
            tls: self.tls,
            timeout: self.timeout,
        }
    }
}

/// The authority that stands in for a host on a local socket.
pub open spec fn socket_authority() -> Seq<char> {
    "http://lxd"@
}

/// The word for a method on the request line.
pub open spec fn method_word(method: Method) -> Seq<char> {
    match method {
        Method::Get => "GET"@,
        Method::Post => "POST"@,
        Method::Put => "PUT"@,
        Method::Patch => "PATCH"@,
        Method::Delete => "DELETE"@,
    }
}

/// Whether a path begins with a slash.
pub open spec fn rooted(path: Seq<char>) -> bool {
    path.len() > 0 && path[0] == '/'
}

/// The authority of requests to an endpoint.
pub open spec fn authority_of(endpoint: EndpointView) -> Seq<char> {
    match endpoint {
        EndpointView::Http(host) => host,
        EndpointView::UnixSocket(_) => socket_authority(),
    }
}

/// The socket to dial for an endpoint.
pub open spec fn socket_of(endpoint: EndpointView) -> Option<Seq<char>> {
    match endpoint {
        EndpointView::Http(_) => None,
        EndpointView::UnixSocket(path) => Some(path),
    }
}

/// What TLS has to do on an endpoint, given whether the configuration asks for
/// verification.
pub open spec fn tls_of(endpoint: EndpointView, verify: bool) -> Tls {
    match endpoint {
        EndpointView::UnixSocket(_) => Tls::NotApplicable,
        EndpointView::Http(_) => if verify {
            Tls::Verified
        } else {
            Tls::Unverified
        },
    }
}

/// The request for a method, a path and a body on an endpoint.
pub open spec fn request_for(
    endpoint: EndpointView,
    verify: bool,
    timeout: Timeout,
    method: Method,
    path: Seq<char>,
    body: Option<JsonView>,
) -> RequestView {
    RequestView {
        method,
        authority: authority_of(endpoint),
        path,
        body,
        socket: socket_of(endpoint),
        tls: tls_of(endpoint, verify),
        timeout,
    }
}

/// The bytes of the body of a request: the JSON text of its document, and
/// nothing where it has none.
pub open spec fn body_bytes(request: RequestView) -> Seq<u8> {
    match request.body {
        Some(json) => rendered_json(json),
        None => Seq::empty(),
    }
}

/// The request line: the method's word, a space, and the path.
pub open spec fn request_line(request: RequestView) -> Seq<char> {
    method_word(request.method) + " "@ + request.path
}

impl Method {
    /// The word for the method on the request line.
    pub fn as_str(&self) -> (r: &'static str)
        ensures
            r@ == method_word(*self),
    {
        match self {
            Method::Get => "GET",
            Method::Post => "POST",
            Method::Put => "PUT",
            Method::Patch => "PATCH",
            Method::Delete => "DELETE",
        }
    }
}

/// Whether a path begins with a slash.
pub fn is_rooted(path: &str) -> (r: bool)
    ensures
        r == rooted(path@),
{
    path.unicode_len() > 0 && path.get_char(0) == '/'
}

impl Request {
    /// Builds the request for an endpoint. A path that does not begin with a
    /// slash is refused; no slash is put in front of it.
    pub fn build(
        endpoint: &Endpoint,
        verify: bool,
        timeout: Timeout,
        method: Method,
        path: &str,
        body: Option<Json>,
    ) -> (r: Result<Request, TransportError>)
        ensures
            match r {
                Ok(request) => rooted(path@) && request@ == request_for(
                    endpoint@,
                    verify,
                    timeout,
                    method,
                    path@,
                    match body {
                        Some(json) => Some(json@),
                        None => None,
                    },
                ),
                Err(e) => !rooted(path@) && e == TransportError::InvalidPath,
            },
    {
        if !is_rooted(path) {
            return Err(TransportError::InvalidPath);
        }
        let path = String::from_str(path);
        match endpoint {
            Endpoint::Http(host) => Ok(
                Request {
                    method,
                    authority: host.clone(),
                    path,
                    body,
                    socket: None,
                    tls: if verify {
                        Tls::Verified
                    } else {
                        Tls::Unverified
                    },
                    timeout,
                },
            ),
            Endpoint::UnixSocket(socket) => Ok(
                Request {
                    method,
                    authority: String::from_str("http://lxd"),
                    path,
                    body,
                    socket: Some(socket.clone()),
                    tls: Tls::NotApplicable,
                    timeout,
                },
            ),
        }
    }

    /// The address of the request: authority and path.
    pub fn uri(&self) -> (r: String)
        ensures
            r@ == self@.authority + self@.path,
    {
        self.authority.clone().concat(self.path.as_str())
    }

    /// The bytes of the body, as they go over the wire.
    pub fn body(&self) -> (r: Vec<u8>)
        ensures
            r@ == body_bytes(self@),
    {
        match &self.body {
            Some(json) => json.to_bytes(),
            None => Vec::new(),
        }
    }

    /// The request line: method and path.
    pub fn line(&self) -> (r: String)
        ensures
            r@ == request_line(self@),
    {
        String::from_str(self.method.as_str()).concat(" ").concat(self.path.as_str())
    }
}

/// How sending a request went wrong, as the transport reports it.
#[derive(Clone, Copy, Debug, PartialEq, Eq, Structural)]
pub enum Failure {
    /// Nothing listens at the endpoint, or the endpoint does not exist.
    Refused,
    /// No connection came about before the connection deadline.
    ConnectTimedOut,
    /// The peer closed the connection.
    Reset,
    /// The answer did not come before the answer deadline.
    TimedOut,
}

/// The error that a failure of the transport is reported as. An endpoint that
/// cannot be connected to is unreachable, whether it refuses or keeps silent;
/// only an answer that is late is a timeout.
pub open spec fn transport_error(failure: Failure) -> TransportError {
    match failure {
        Failure::Refused => TransportError::Unreachable,
        Failure::ConnectTimedOut => TransportError::Unreachable,
        Failure::Reset => TransportError::Unreachable,
        Failure::TimedOut => TransportError::Timeout,
    }
}

/// Which deadline passed, where the transport says only that one did,
/// `elapsed_ms` after the request was begun: the answer deadline if its time is
/// up, and otherwise the connection deadline, the only other one there is.
pub open spec fn passed_deadline(elapsed_ms: u64, timeout: Timeout) -> Failure {
    if elapsed_ms >= timeout.server_timeout_seconds * 1000 {
        Failure::TimedOut
    } else {
        Failure::ConnectTimedOut
    }
}

/// Whether a request may be sent once more after a failure: only after a reset
/// connection, only if it has not been sent again before, and only if nothing
/// of its body had gone out.
pub open spec fn may_retry(failure: Failure, retries: u32, body_bytes_sent: usize) -> bool {
    failure == Failure::Reset && retries == 0 && body_bytes_sent == 0
}

impl Failure {
    /// The error to report for this failure.
    pub fn error(self) -> (r: TransportError)
        ensures
            r == transport_error(self),
    {
        match self {
            Failure::Refused => TransportError::Unreachable,
            Failure::ConnectTimedOut => TransportError::Unreachable,
            Failure::Reset => TransportError::Unreachable,
            Failure::TimedOut => TransportError::Timeout,
        }
    }

    /// Tells which deadline passed when the transport gave up `elapsed_ms`
    /// after it began.
    pub fn deadline(elapsed_ms: u64, timeout: Timeout) -> (r: Failure)
        ensures
            r == passed_deadline(elapsed_ms, timeout),
    {
        let seconds: u64 = timeout.server_timeout_seconds.into();
        if elapsed_ms >= seconds * 1000 {
            Failure::TimedOut
        } else {
            Failure::ConnectTimedOut
        }
    }
}

/// A request that fails before its answer deadline never ends in a timeout: it
/// is reported as unreachable, whatever the transport said of it.
pub proof fn lemma_silence_is_unreachable(failure: Failure, elapsed_ms: u64, timeout: Timeout)
    requires
        elapsed_ms < timeout.server_timeout_seconds * 1000,
    ensures
        transport_error(passed_deadline(elapsed_ms, timeout)) == TransportError::Unreachable,
        failure != Failure::TimedOut ==> transport_error(failure) == TransportError::Unreachable,
{
}

/// Decides whether to send a request again after a failure. `retries` counts
/// how often this request has been sent again already.
pub fn should_retry(failure: Failure, retries: u32, body_bytes_sent: usize) -> (r: bool)
    ensures
        r == may_retry(failure, retries, body_bytes_sent),
{
    match failure {
        Failure::Reset => retries == 0 && body_bytes_sent == 0,
        _ => false,
    }
}

/// No request is ever sent more than twice.
pub proof fn lemma_at_most_one_retry(failure: Failure, retries: u32, body_bytes_sent: usize)
    requires
        retries >= 1,
    ensures
        !may_retry(failure, retries, body_bytes_sent),
{
}

/// Whether a response body of `length` bytes is within the ceiling, if one is
/// set.
pub open spec fn within_ceiling(length: usize, ceiling: Option<usize>) -> bool {
    match ceiling {
        Some(most) => length <= most,
        None => true,
    }
}

/// Refuses a response body that is larger than the ceiling.
pub fn check_size(length: usize, ceiling: Option<usize>) -> (r: Result<(), TransportError>)
    ensures
        r == if within_ceiling(length, ceiling) {
            Ok::<(), TransportError>(())
        } else {
            Err(TransportError::Oversized)
        },
{
    match ceiling {
        Some(most) => if length <= most {
            Ok(())
        } else {
            Err(TransportError::Oversized)
        },
        None => Ok(()),
    }
}

/// For a network endpoint and a local socket, two requests that are otherwise
/// alike differ in nothing but the authority, the socket to dial and TLS:
/// method, path and body are the same, and with them the request line and the
/// bytes of the body.
pub proof fn lemma_transport_changes_authority_only(
    host: Seq<char>,
    socket: Seq<char>,
    verify: bool,
    timeout: Timeout,
    method: Method,
    path: Seq<char>,
    body: Option<JsonView>,
)
    ensures
        ({
            let network = request_for(
                EndpointView::Http(host),
                verify,
                timeout,
                method,
                path,
                body,
            );
            let local = request_for(
                EndpointView::UnixSocket(socket),
                verify,
                timeout,
                method,
                path,
                body,
            );
            &&& request_line(network) == request_line(local)
            &&& body_bytes(network) == body_bytes(local)
            &&& network.body == local.body
            &&& network.timeout == local.timeout
            &&& network.authority == host
            &&& local.authority == socket_authority()
            &&& local == RequestView {
                authority: local.authority,
                socket: local.socket,
                tls: local.tls,
                ..network
            }
        }),
{
}

} // verus!
