//! The client: its configuration, the requests it makes and what it takes
//! from the answers.
//!
//! A client here sends nothing. For each call of the daemon's API it has one
//! function that builds the request and one that reads the bytes that came
//! back; whoever owns the connection carries the one to the daemon and the
//! other back.

use crate::endpoint::{resolved_socket, Endpoint, EndpointView, Environment};
use crate::envelope::{decode, response_of, Envelope, EnvelopeView};
use crate::error::{
    outcome_view, DecodeError, Error, ErrorImpl, ErrorView, OperationError, OperationErrorView,
    TransportError,
};
use crate::fields::texts_view;
use crate::images::Image;
use crate::instance::{new_instance_json, Instance, NewInstance};
use crate::json::{parsed_json, Json, JsonView};
use crate::operation::{cancelable, Operation, OperationView};
use crate::request::{check_size, request_for, rooted, within_ceiling, Method, Request, RequestView};
use crate::resource::{Names, Resource};
use vstd::prelude::*;
use vstd::string::StringExecFns;

verus! {

/// The version of the daemon's API.
#[derive(Clone, Copy, Debug, PartialEq, Eq, Structural)]
pub enum LxdAPIVersion {
    V1_0,
}

impl Default for LxdAPIVersion {
    fn default() -> (r: Self)
        ensures
            r == LxdAPIVersion::V1_0,
    {
        LxdAPIVersion::V1_0
    }
}

impl LxdAPIVersion {
    /// The first segment of every path of this version.
    pub open spec fn segment(self) -> Seq<char> {
        match self {
            LxdAPIVersion::V1_0 => "/1.0"@,
        }
    }

    pub fn to_url_segment(&self) -> (r: &'static str)
        ensures
            r@ == self.segment(),
    {
        match self {
            LxdAPIVersion::V1_0 => "/1.0",
        }
    }
}

/// The two deadlines of a request, in seconds.
#[derive(Clone, Copy, Debug, PartialEq, Eq, Structural)]
pub struct Timeout {
    /// How long the daemon may take to answer.
    pub server_timeout_seconds: u32,
    /// How long connecting may take.
    pub connection_timeout_seconds: u32,
}

impl Timeout {
    pub fn new(server_timeout_seconds: u32, connection_timeout_seconds: u32) -> (r: Self)
        ensures
            r == (Timeout { server_timeout_seconds, connection_timeout_seconds }),
    {
        Self { server_timeout_seconds, connection_timeout_seconds }
    }

    pub fn from_seconds(timeout: u32) -> (r: Self)
        ensures
            r == (Timeout { server_timeout_seconds: timeout, connection_timeout_seconds: timeout }),
    {
        Self::new(timeout, timeout)
    }
}

impl Default for Timeout {
    fn default() -> (r: Self)
        ensures
            r == (Timeout { server_timeout_seconds: 60, connection_timeout_seconds: 60 }),
    {
        Self { server_timeout_seconds: 60, connection_timeout_seconds: 60 }
    }
}

/// The segment of every version begins with a slash, and so does every path
/// that begins with the segment.
pub proof fn lemma_segment_is_rooted(version: LxdAPIVersion)
    ensures
        rooted(version.segment()),
        forall|rest: Seq<char>| rooted(#[trigger] (version.segment() + rest)),
{
    reveal_strlit("/1.0");
}

/// What a client is built from.
#[derive(Clone, Debug, PartialEq, Eq)]
pub struct ClientConfig {
    pub endpoint: Endpoint,
    pub version: LxdAPIVersion,
    /// Whether the daemon's certificate is verified.
    pub verify: bool,
    pub timeout: Timeout,
    pub project: String,
}

/// A client of one daemon. Nothing in it changes once it is built.
#[derive(Clone, Debug, PartialEq, Eq)]
pub struct Client {
    pub endpoint: Endpoint,
    pub version: LxdAPIVersion,
    pub verify: bool,
    pub timeout: Timeout,
    pub project: String,
    /// The largest response body that is read; `None` for no ceiling.
    pub ceiling: Option<usize>,
}

pub ghost struct ClientConfigView {
    pub endpoint: EndpointView,
    pub version: LxdAPIVersion,
    pub verify: bool,
    pub timeout: Timeout,
    pub project: Seq<char>,
}

pub ghost struct ClientView {
    pub endpoint: EndpointView,
    pub version: LxdAPIVersion,
    pub verify: bool,
    pub timeout: Timeout,
    pub project: Seq<char>,
    pub ceiling: Option<usize>,
}

impl View for ClientConfig {
    type V = ClientConfigView;

    open spec fn view(&self) -> ClientConfigView {
        ClientConfigView {
            endpoint: self.endpoint@,
            version: self.version,
            verify: self.verify,
            timeout: self.timeout,
            project: self.project@,
        }
    }
}

impl View for Client {
    type V = ClientView;

    open spec fn view(&self) -> ClientView {
        ClientView {
            endpoint: self.endpoint@,
            version: self.version,
            verify: self.verify,
            timeout: self.timeout,
            project: self.project@,
            ceiling: self.ceiling,
        }
    }
}

/// The configuration that is used where nothing but the endpoint is chosen:
/// the first version of the API, verified certificates, deadlines of a minute,
/// and the project `default`.
pub open spec fn default_config(endpoint: EndpointView) -> ClientConfigView {
    ClientConfigView {
        endpoint,
        version: LxdAPIVersion::V1_0,
        verify: true,
        timeout: Timeout { server_timeout_seconds: 60, connection_timeout_seconds: 60 },
        project: "default"@,
    }
}

impl ClientConfig {
    /// The default configuration for an endpoint.
    pub fn for_endpoint(endpoint: Endpoint) -> (r: ClientConfig)
        ensures
            r@ == default_config(endpoint@),
    {
        ClientConfig {
            endpoint,
            version: LxdAPIVersion::default(),
            verify: true,
            timeout: Timeout::default(),
            project: String::from_str("default"),
        }
    }

    /// The default configuration for the local daemon, whose socket the
    /// environment names.
    pub fn from_environment(environment: &Environment) -> (r: ClientConfig)
        ensures
            r@ == default_config(
                EndpointView::UnixSocket(resolved_socket(environment@)),
            ),
    {
        ClientConfig::for_endpoint(Endpoint::resolve(None, environment))
    }
}

/// The request of a client for a method, a path and a body.
pub open spec fn client_request(
    client: ClientView,
    method: Method,
    path: Seq<char>,
    body: Option<JsonView>,
) -> Result<RequestView, ErrorView> {
    if rooted(path) {
        Ok(request_for(client.endpoint, client.verify, client.timeout, method, path, body))
    } else {
        Err(ErrorView::Transport(TransportError::InvalidPath))
    }
}

/// What a client makes of the bytes of a response body: too many bytes are
/// refused unread; the rest is read as an envelope around a `T`.
pub open spec fn received<T: Resource>(client: ClientView, bytes: Seq<u8>) -> Result<
    EnvelopeView<T::V>,
    ErrorView,
> {
    if !within_ceiling(bytes.len() as usize, client.ceiling) {
        Err(ErrorView::Transport(TransportError::Oversized))
    } else {
        match response_of::<T>(parsed_json(bytes)) {
            Ok(envelope) => Ok(envelope),
            Err(e) => Err(ErrorView::Decode(e)),
        }
    }
}

/// The result that an answer carries, for a call that is answered at once. An
/// error of the daemon is a failure with the daemon's message; an operation in
/// place of the result does not fit the call.
pub open spec fn sync_result<V>(answer: Result<EnvelopeView<V>, ErrorView>) -> Result<
    V,
    ErrorView,
> {
    match answer {
        Ok(EnvelopeView::Sync { metadata }) => Ok(metadata),
        Ok(EnvelopeView::Async { .. }) => Err(ErrorView::Decode(DecodeError::SchemaMismatch)),
        Ok(EnvelopeView::Error { message, .. }) => Err(
            ErrorView::Operation(OperationErrorView::Failed(message)),
        ),
        Err(e) => Err(e),
    }
}

/// The operation that an answer carries, whether the daemon sent it as the
/// result or as work that goes on.
pub open spec fn operation_result(answer: Result<EnvelopeView<OperationView>, ErrorView>)
    -> Result<OperationView, ErrorView> {
    match answer {
        Ok(EnvelopeView::Sync { metadata }) => Ok(metadata),
        Ok(EnvelopeView::Async { operation }) => Ok(operation),
        Ok(EnvelopeView::Error { message, .. }) => Err(
            ErrorView::Operation(OperationErrorView::Failed(message)),
        ),
        Err(e) => Err(e),
    }
}

/// How an attempt to cancel an operation ended.
#[derive(Clone, Copy, Debug, PartialEq, Eq, Structural)]
pub enum CancelOutcome {
    /// The daemon took the request.
    Requested,
    /// Nothing was canceled: the operation had ended, does not allow it, or the
    /// request did not get through. This is no error.
    NoOp,
}

/// How an attempt to cancel ended, given the answer to the request.
pub open spec fn cancel_outcome(answer: Result<EnvelopeView<JsonView>, ErrorView>)
    -> CancelOutcome {
    match answer {
        Ok(EnvelopeView::Sync { .. }) => CancelOutcome::Requested,
        Ok(EnvelopeView::Async { .. }) => CancelOutcome::Requested,
        _ => CancelOutcome::NoOp,
    }
}

/// The request that asks the daemon to cancel an operation; none for an
/// operation that cannot be canceled any more, or not at all.
pub open spec fn cancel_request_for(client: ClientView, operation: OperationView) -> Result<
    Option<RequestView>,
    ErrorView,
> {
    if !cancelable(operation) {
        Ok(None)
    } else {
        match client_request(client, Method::Delete, operation.location, None) {
            Ok(request) => Ok(Some(request)),
            Err(e) => Err(e),
        }
    }
}

/// The view of an answer as a client hands it out.
pub open spec fn answer_view<T: View>(answer: Result<Envelope<T>, Error>) -> Result<
    EnvelopeView<T::V>,
    ErrorView,
> {
    match answer {
        Ok(envelope) => Ok(envelope@),
        Err(e) => Err(e@),
    }
}

/// Takes the result out of an answer to a call that is answered at once.
pub fn take_sync<T: View>(answer: Result<Envelope<T>, Error>) -> (r: Result<T, Error>)
    ensures
        outcome_view(r) == sync_result(answer_view(answer)),
{
    match answer {
        Ok(Envelope::Sync { metadata }) => Ok(metadata),
        Ok(Envelope::Async { .. }) => Err(
            Error::new(ErrorImpl::Decode(DecodeError::SchemaMismatch)),
        ),
        Ok(Envelope::Error { message, .. }) => Err(
            Error::new(ErrorImpl::Operation(OperationError::Failed(message))),
        ),
        Err(e) => Err(e),
    }
}

/// Takes the operation out of an answer.
pub fn take_operation(answer: Result<Envelope<Operation>, Error>) -> (r: Result<Operation, Error>)
    ensures
        outcome_view(r) == operation_result(answer_view(answer)),
{
    match answer {
        Ok(Envelope::Sync { metadata }) => Ok(metadata),
        Ok(Envelope::Async { operation }) => Ok(operation),
        Ok(Envelope::Error { message, .. }) => Err(
            Error::new(ErrorImpl::Operation(OperationError::Failed(message))),
        ),
        Err(e) => Err(e),
    }
}

impl Client {
    /// Builds a client. Every configuration is accepted: whether the endpoint
    /// can be reached shows when a request is sent.
    pub fn new(config: ClientConfig) -> (r: Result<Self, Error>)
        ensures
            r matches Ok(client) && client@ == (ClientView {
                endpoint: config@.endpoint,
                version: config@.version,
                verify: config@.verify,
                timeout: config@.timeout,
                project: config@.project,
                ceiling: None,
            }),
    {
        Ok(
            Self {
                endpoint: config.endpoint,
                version: config.version,
                timeout: config.timeout,
                project: config.project,
                verify: config.verify,
                ceiling: None,
            },
        )
    }

    /// The same client, reading no response body of more than `bytes` bytes.
    pub fn with_ceiling(self, bytes: usize) -> (r: Self)
        ensures
            r@ == (ClientView { ceiling: Some(bytes), ..self@ }),
    {
        Self { ceiling: Some(bytes), ..self }
    }

    /// Builds a request. The path must begin with a slash: one that does not
    /// is refused, not mended.
    pub fn request(&self, method: Method, path: &str, body: Option<Json>) -> (r: Result<
        Request,
        Error,
    >)
        ensures
            outcome_view(r) == client_request(
                self@,
                method,
                path@,
                match body {
                    Some(json) => Some(json@),
                    None => None,
                },
            ),
    {
        match Request::build(&self.endpoint, self.verify, self.timeout, method, path, body) {
            Ok(request) => Ok(request),
            Err(e) => Err(Error::new(ErrorImpl::Transport(e))),
        }
    }

    /// Builds the request that reads `path`.
    pub fn get(&self, path: &str) -> (r: Result<Request, Error>)
        ensures
            outcome_view(r) == client_request(self@, Method::Get, path@, None),
    {
        self.request(Method::Get, path, None)
    }

    /// Reads the bytes of a response body as an envelope around a `T`.
    pub fn receive<T: Resource>(&self, raw: &[u8]) -> (r: Result<Envelope<T>, Error>)
        ensures
            answer_view(r) == received::<T>(self@, raw@),
    {
        match check_size(raw.len(), self.ceiling) {
            Ok(()) => {},
            Err(e) => {
                return Err(Error::new(ErrorImpl::Transport(e)));
            },
        }
        match decode::<T>(raw) {
            Ok(envelope) => Ok(envelope),
            Err(e) => Err(Error::new(ErrorImpl::Decode(e))),
        }
    }

    /// The request that checks that the daemon is there: it reads the root of
    /// the API.
    pub fn connect_request(&self) -> (r: Result<Request, Error>)
        ensures
            r is Ok,
            outcome_view(r) == client_request(
                self@,
                Method::Get,
                self.version.segment(),
                None,
            ),
    {
        proof {
            lemma_segment_is_rooted(self.version);
        }
        self.get(self.version.to_url_segment())
    }

    /// Reads the answer to `connect_request`. Any result will do; an error of
    /// the daemon and an answer that cannot be read are reported.
    pub fn connect(&self, raw: &[u8]) -> (r: Result<(), Error>)
        ensures
            match r {
                Ok(()) => sync_result(received::<Json>(self@, raw@)) is Ok,
                Err(e) => sync_result(received::<Json>(self@, raw@)) == Err::<JsonView, ErrorView>(
                    e@,
                ),
            },
    {
        match take_sync(self.receive::<Json>(raw)) {
            Ok(_) => Ok(()),
            Err(e) => Err(e),
        }
    }

    /// The request that lists the instances.
    pub fn instances_request(&self) -> (r: Result<Request, Error>)
        ensures
            r is Ok,
            outcome_view(r) == client_request(
                self@,
                Method::Get,
                self.version.segment() + "/instances"@,
                None,
            ),
    {
        let path = String::from_str(self.version.to_url_segment()).concat("/instances");
        proof {
            lemma_segment_is_rooted(self.version);
        }
        self.get(path.as_str())
    }

    /// Reads the answer to `instances_request`: the identifiers of the
    /// instances, not the instances. Each is fetched by a call of its own.
    pub fn instances(&self, raw: &[u8]) -> (r: Result<Vec<String>, Error>)
        ensures
            match r {
                Ok(names) => sync_result(received::<Names>(self@, raw@)) == Ok::<
                    Seq<Seq<char>>,
                    ErrorView,
                >(texts_view(names@)),
                Err(e) => sync_result(received::<Names>(self@, raw@)) == Err::<
                    Seq<Seq<char>>,
                    ErrorView,
                >(e@),
            },
    {
        match take_sync(self.receive::<Names>(raw)) {
            Ok(names) => Ok(names.0),
            Err(e) => Err(e),
        }
    }

    /// The request that fetches one instance by its name.
    pub fn get_instance_request(&self, name: &str) -> (r: Result<Request, Error>)
        ensures
            r is Ok,
            outcome_view(r) == client_request(
                self@,
                Method::Get,
                self.version.segment() + "/instances/"@ + name@,
                None,
            ),
    {
        let path = String::from_str(self.version.to_url_segment()).concat("/instances/").concat(
            name,
        );
        proof {
            lemma_segment_is_rooted(self.version);
        }
        self.get(path.as_str())
    }

    /// Reads the answer to `get_instance_request`.
    pub fn get_instance(&self, raw: &[u8]) -> (r: Result<Instance, Error>)
        ensures
            outcome_view(r) == sync_result(received::<Instance>(self@, raw@)),
    {
        take_sync(self.receive::<Instance>(raw))
    }

    /// The request that lists the images.
    pub fn images_request(&self) -> (r: Result<Request, Error>)
        ensures
            r is Ok,
            outcome_view(r) == client_request(
                self@,
                Method::Get,
                self.version.segment() + "/images"@,
                None,
            ),
    {
        let path = String::from_str(self.version.to_url_segment()).concat("/images");
        proof {
            lemma_segment_is_rooted(self.version);
        }
        self.get(path.as_str())
    }

    /// Reads the answer to `images_request`: the identifiers of the images.
    pub fn images(&self, raw: &[u8]) -> (r: Result<Vec<String>, Error>)
        ensures
            match r {
                Ok(names) => sync_result(received::<Names>(self@, raw@)) == Ok::<
                    Seq<Seq<char>>,
                    ErrorView,
                >(texts_view(names@)),
                Err(e) => sync_result(received::<Names>(self@, raw@)) == Err::<
                    Seq<Seq<char>>,
                    ErrorView,
                >(e@),
            },
    {
        match take_sync(self.receive::<Names>(raw)) {
            Ok(names) => Ok(names.0),
            Err(e) => Err(e),
        }
    }

    /// The request that fetches one image by its fingerprint.
    pub fn get_image_request(&self, fingerprint: &str) -> (r: Result<Request, Error>)
        ensures
            r is Ok,
            outcome_view(r) == client_request(
                self@,
                Method::Get,
                self.version.segment() + "/images/"@ + fingerprint@,
                None,
            ),
    {
        let path = String::from_str(self.version.to_url_segment()).concat("/images/").concat(
            fingerprint,
        );
        proof {
            lemma_segment_is_rooted(self.version);
        }
        self.get(path.as_str())
    }

    /// Reads the answer to `get_image_request`.
    pub fn get_image(&self, raw: &[u8]) -> (r: Result<Image, Error>)
        ensures
            outcome_view(r) == sync_result(received::<Image>(self@, raw@)),
    {
        take_sync(self.receive::<Image>(raw))
    }

    /// The request that creates an instance.
    pub fn create_instance_request(&self, instance: &NewInstance) -> (r: Result<Request, Error>)
        ensures
            r is Ok,
            outcome_view(r) == client_request(
                self@,
                Method::Post,
                self.version.segment() + "/instances"@,
                Some(new_instance_json(instance@)),
            ),
    {
        let path = String::from_str(self.version.to_url_segment()).concat("/instances");
        proof {
            lemma_segment_is_rooted(self.version);
        }
        self.request(Method::Post, path.as_str(), Some(instance.encode()))
    }

    /// Reads the answer to `create_instance_request`: the operation that
    /// creates the instance, as the daemon first reports it. The instance is
    /// there once that operation has succeeded.
    pub fn create_instance(&self, raw: &[u8]) -> (r: Result<Operation, Error>)
        ensures
            outcome_view(r) == operation_result(
                received::<Operation>(self@, raw@),
            ),
    {
        take_operation(self.receive::<Operation>(raw))
    }

    /// The request that fetches an operation again.
    pub fn operation_request(&self, location: &str) -> (r: Result<Request, Error>)
        ensures
            outcome_view(r) == client_request(self@, Method::Get, location@, None),
    {
        self.get(location)
    }

    /// Reads the answer to `operation_request`.
    pub fn operation(&self, raw: &[u8]) -> (r: Result<Operation, Error>)
        ensures
            outcome_view(r) == operation_result(
                received::<Operation>(self@, raw@),
            ),
    {
        take_operation(self.receive::<Operation>(raw))
    }

    /// The request that asks the daemon to cancel an operation, if there is
    /// any point in asking. Waiting never cancels by itself: a caller whose
    /// wait timed out decides whether to send this.
    pub fn cancel_request(&self, operation: &Operation) -> (r: Result<Option<Request>, Error>)
        ensures
            match r {
                Ok(Some(request)) => cancel_request_for(self@, operation@) == Ok::<
                    Option<RequestView>,
                    ErrorView,
                >(Some(request@)),
                Ok(None) => cancel_request_for(self@, operation@) == Ok::<
                    Option<RequestView>,
                    ErrorView,
                >(None),
                Err(e) => cancel_request_for(self@, operation@) == Err::<
                    Option<RequestView>,
                    ErrorView,
                >(e@),
            },
    {
        if !operation.can_cancel() {
            return Ok(None);
        }
        match self.request(Method::Delete, operation.location.as_str(), None) {
            Ok(request) => Ok(Some(request)),
            Err(e) => Err(e),
        }
    }

    /// Reads the answer to `cancel_request`. A refusal is reported as a
    /// cancellation that did nothing, not as an error.
    pub fn cancel(&self, raw: &[u8]) -> (r: CancelOutcome)
        ensures
            r == cancel_outcome(received::<Json>(self@, raw@)),
    {
        match self.receive::<Json>(raw) {
            Ok(Envelope::Sync { .. }) => CancelOutcome::Requested,
            Ok(Envelope::Async { .. }) => CancelOutcome::Requested,
            _ => CancelOutcome::NoOp,
        }
    }
}

/// An answer that says that work goes on yields the operation as the daemon
/// reported it, whatever its status: a failure that the operation records is
/// for the tracker to surface, and is no decode error.
pub proof fn lemma_operation_is_handed_on(client: ClientView, bytes: Seq<u8>)
    requires
        received::<Operation>(client, bytes) matches Ok(EnvelopeView::Async { .. }),
    ensures
        operation_result(received::<Operation>(client, bytes)) == Ok::<OperationView, ErrorView>(
            received::<Operation>(client, bytes)->Ok_0->Async_operation,
        ),
{
}

} // verus!
