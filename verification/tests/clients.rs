use nlxd::client::{
    take_operation, take_sync, CancelOutcome, Client, ClientConfig, LxdAPIVersion, Timeout,
};
use nlxd::endpoint::{Endpoint, Environment};
use nlxd::envelope::Envelope;
use nlxd::error::{
    DecodeError, Error, ErrorImpl, OperationError, TransportError,
};
use nlxd::instance::{InstanceSource, InstanceType, NewInstance};
use nlxd::images::RemoteImageProtocol;
use nlxd::json::Json;
use nlxd::operation::Operation;
use nlxd::request::{Method, Tls};
use nlxd::resource::Names;
use nlxd::tracker::{PollPolicy, Step, Tracker};
use nlxd::types::ResourceStatus;

fn local() -> Client {
    Client::new(ClientConfig::for_endpoint(Endpoint::UnixSocket("/run/lxd.sock".to_string())))
        .unwrap()
}

fn remote() -> Client {
    Client::new(ClientConfig::for_endpoint(Endpoint::Http("https://lxd.example:8443".to_string())))
        .unwrap()
}

fn operation_answer(kind: &str, status_code: u64, err: &str) -> Vec<u8> {
    format!(
        "{{\"type\": \"{}\", \"status\": \"Operation created\", \"status_code\": 100, \
         \"metadata\": {{\"id\": \"op1\", \"class\": \"task\", \
         \"created_at\": \"2024-01-02T03:04:05Z\", \"updated_at\": \"2024-01-02T03:04:05Z\", \
         \"description\": \"Creating instance\", \"err\": \"{}\", \
         \"location\": \"/1.0/operations/op1\", \"may_cancel\": true, \"metadata\": null, \
         \"resources\": {{}}, \"status_code\": {}}}}}",
        kind, err, status_code
    )
    .into_bytes()
}

fn decode_error(kind: DecodeError) -> Error {
    Error::new(ErrorImpl::Decode(kind))
}

#[test]
fn the_default_configuration_is_the_documented_one() {
    let config = ClientConfig::for_endpoint(Endpoint::Http("http://localhost:8080".to_string()));
    assert_eq!(config.endpoint, Endpoint::Http("http://localhost:8080".to_string()));
    assert_eq!(config.version, LxdAPIVersion::V1_0);
    assert!(config.verify);
    assert_eq!(config.timeout, Timeout::from_seconds(60));
    assert_eq!(config.project, "default");
    assert_eq!(LxdAPIVersion::default(), LxdAPIVersion::V1_0);
    assert_eq!(LxdAPIVersion::V1_0.to_url_segment(), "/1.0");
}

#[test]
fn the_environment_names_the_socket_of_the_default_client() {
    let environment = Environment {
        socket: None,
        dir: Some("/tmp/x".to_string()),
        snap_socket_exists: true,
    };
    let config = ClientConfig::from_environment(&environment);
    assert_eq!(config.endpoint, Endpoint::UnixSocket("/tmp/x/unix.socket".to_string()));
    assert_eq!(config.project, "default");
}

#[test]
fn a_client_keeps_its_configuration() {
    let config = ClientConfig {
        endpoint: Endpoint::Http("https://h".to_string()),
        version: LxdAPIVersion::V1_0,
        verify: false,
        timeout: Timeout::new(3, 4),
        project: "lab".to_string(),
    };
    let client = Client::new(config).unwrap();
    assert_eq!(client.endpoint, Endpoint::Http("https://h".to_string()));
    assert!(!client.verify);
    assert_eq!(client.timeout, Timeout::new(3, 4));
    assert_eq!(client.project, "lab");
    assert_eq!(client.ceiling, None);
    assert_eq!(client.with_ceiling(4096).ceiling, Some(4096));
}

#[test]
fn listing_instances_reads_the_collection() {
    let request = local().instances_request().unwrap();
    assert_eq!(request.method, Method::Get);
    assert_eq!(request.path, "/1.0/instances");
    assert_eq!(request.uri(), "http://lxd/1.0/instances");
    assert_eq!(request.body, None);
    assert_eq!(request.socket, Some("/run/lxd.sock".to_string()));
    assert_eq!(remote().instances_request().unwrap().uri(), "https://lxd.example:8443/1.0/instances");
    assert_eq!(remote().images_request().unwrap().uri(), "https://lxd.example:8443/1.0/images");
    assert_eq!(remote().connect_request().unwrap().uri(), "https://lxd.example:8443/1.0");
}

#[test]
fn requests_of_a_client_carry_its_settings() {
    let config = ClientConfig {
        endpoint: Endpoint::Http("https://h".to_string()),
        version: LxdAPIVersion::V1_0,
        verify: false,
        timeout: Timeout::new(3, 4),
        project: "lab".to_string(),
    };
    let request = Client::new(config).unwrap().get("/1.0").unwrap();
    assert_eq!(request.tls, Tls::Unverified);
    assert_eq!(request.timeout, Timeout::new(3, 4));
    assert_eq!(remote().get("/1.0").unwrap().tls, Tls::Verified);
    assert_eq!(local().get("/1.0").unwrap().tls, Tls::NotApplicable);
}

#[test]
fn a_listing_gives_identifiers() {
    let raw = b"{\"type\": \"sync\", \"status\": \"Success\", \"status_code\": 200, \
                \"metadata\": [\"a\", \"b\"]}";
    assert_eq!(local().instances(raw), Ok(vec!["a".to_string(), "b".to_string()]));
    assert_eq!(local().images(raw), Ok(vec!["a".to_string(), "b".to_string()]));
}

#[test]
fn one_resource_is_fetched_by_its_name() {
    let request = local().get_instance_request("c1").unwrap();
    assert_eq!(request.method, Method::Get);
    assert_eq!(request.path, "/1.0/instances/c1");
    assert_eq!(request.uri(), "http://lxd/1.0/instances/c1");
    assert_eq!(request.body, None);
    assert_eq!(
        remote().get_instance_request("c1").unwrap().uri(),
        "https://lxd.example:8443/1.0/instances/c1"
    );
    let request = local().get_image_request("06b86454720d").unwrap();
    assert_eq!(request.method, Method::Get);
    assert_eq!(request.uri(), "http://lxd/1.0/images/06b86454720d");
    assert_eq!(local().get_instance_request("").unwrap().path, "/1.0/instances/");
}

#[test]
fn a_path_of_the_caller_must_begin_with_a_slash() {
    assert_eq!(
        local().get("1.0/instances"),
        Err(Error::new(ErrorImpl::Transport(TransportError::InvalidPath)))
    );
    assert_eq!(
        local().operation_request("operations/op1"),
        Err(Error::new(ErrorImpl::Transport(TransportError::InvalidPath)))
    );
}

#[test]
fn an_error_of_the_daemon_is_a_failure_with_its_message() {
    let raw = b"{\"type\": \"error\", \"status\": \"Failure\", \"status_code\": 404, \
                \"metadata\": \"Instance not found\"}";
    let expected =
        Error::new(ErrorImpl::Operation(OperationError::Failed("Instance not found".to_string())));
    assert_eq!(local().instances(raw), Err(expected.clone()));
    assert_eq!(local().get_instance(raw), Err(expected.clone()));
    assert_eq!(local().get_image(raw), Err(expected.clone()));
    assert_eq!(local().create_instance(raw), Err(expected.clone()));
    assert_eq!(local().connect(raw), Err(expected));
}

#[test]
fn an_answer_that_cannot_be_read_is_a_decode_error() {
    assert_eq!(local().instances(b"not json"), Err(decode_error(DecodeError::MalformedJson)));
    let raw = b"{\"type\": \"event\", \"status\": \"Success\", \"status_code\": 200, \
                \"metadata\": []}";
    assert_eq!(local().instances(raw), Err(decode_error(DecodeError::UnknownEnvelopeKind)));
    let raw = b"{\"type\": \"sync\", \"status\": \"Success\", \"status_code\": 200, \
                \"metadata\": {}}";
    assert_eq!(local().instances(raw), Err(decode_error(DecodeError::SchemaMismatch)));
}

#[test]
fn an_operation_in_place_of_a_listing_does_not_fit() {
    assert_eq!(
        local().instances(&operation_answer("async", 103, "")),
        Err(decode_error(DecodeError::SchemaMismatch))
    );
}

#[test]
fn an_answer_over_the_ceiling_is_not_read() {
    let raw = b"{\"type\": \"sync\", \"status\": \"Success\", \"status_code\": 200, \
                \"metadata\": []}";
    let small = local().with_ceiling(10);
    assert_eq!(
        small.instances(raw),
        Err(Error::new(ErrorImpl::Transport(TransportError::Oversized)))
    );
    assert_eq!(
        small.receive::<Names>(b"garbage beyond ten bytes"),
        Err(Error::new(ErrorImpl::Transport(TransportError::Oversized)))
    );
    assert_eq!(local().with_ceiling(raw.len()).instances(raw), Ok(vec![]));
}

#[test]
fn connecting_accepts_any_result() {
    let raw = b"{\"type\": \"sync\", \"status\": \"Success\", \"status_code\": 200, \
                \"metadata\": {\"api_version\": \"1.0\", \"auth\": \"trusted\"}}";
    assert_eq!(local().connect(raw), Ok(()));
    assert_eq!(local().connect(b"{}"), Err(decode_error(DecodeError::SchemaMismatch)));
}

#[test]
fn creating_from_a_local_image_names_the_image_in_the_body() {
    let instance = NewInstance::default_with_image("ubuntu/22.04".to_string());
    let request = local().create_instance_request(&instance).unwrap();
    assert_eq!(request.method, Method::Post);
    assert_eq!(request.path, "/1.0/instances");
    let body = request.body.unwrap();
    let source = body.get("source").unwrap();
    assert_eq!(source.get("type"), Some(&Json::text("image")));
    assert_eq!(source.get("alias"), Some(&Json::text("ubuntu/22.04")));
    assert_eq!(source.get("server"), None);
    assert_eq!(body.get("type"), Some(&Json::text("container")));
    assert_eq!(body.get("name"), Some(&Json::text("")));
}

#[test]
fn every_kind_of_source_has_its_own_members() {
    let names = |source: InstanceSource| -> Vec<String> {
        source.encode().as_members().unwrap().iter().map(|(k, _)| k.clone()).collect::<Vec<_>>()
    };
    assert_eq!(names(InstanceSource::Empty), vec!["type"]);
    assert_eq!(InstanceSource::Empty.encode().get("type"), Some(&Json::text("none")));
    assert_eq!(
        names(InstanceSource::Image { alias: "a".to_string() }),
        vec!["type", "alias"]
    );
    let remote = InstanceSource::RemoteImage {
        alias: "jammy".to_string(),
        server: "https://images.example".to_string(),
        protocol: RemoteImageProtocol::Simplestreams,
        secret: None,
    };
    assert_eq!(names(remote.clone()), vec!["type", "alias", "server", "protocol"]);
    assert_eq!(remote.encode().get("type"), Some(&Json::text("image")));
    assert_eq!(remote.encode().get("protocol"), Some(&Json::text("simplestreams")));
    let secret = InstanceSource::RemoteImage {
        alias: "jammy".to_string(),
        server: "https://images.example".to_string(),
        protocol: RemoteImageProtocol::Lxd,
        secret: Some("s3cr3t".to_string()),
    };
    assert_eq!(names(secret.clone()), vec!["type", "alias", "server", "protocol", "secret"]);
    assert_eq!(secret.encode().get("secret"), Some(&Json::text("s3cr3t")));
    assert_eq!(secret.encode().get("protocol"), Some(&Json::text("lxd")));
    let copy = InstanceSource::Copy { source: "c1".to_string(), refresh: true };
    assert_eq!(names(copy.clone()), vec!["type", "source", "refresh"]);
    assert_eq!(copy.encode().get("type"), Some(&Json::text("copy")));
    assert_eq!(copy.encode().get("refresh"), Some(&Json::Bool(true)));
    let migration = InstanceSource::Migration {
        operation: "https://other/1.0/operations/x".to_string(),
        certificate: "PEM".to_string(),
    };
    assert_eq!(names(migration.clone()), vec!["type", "mode", "operation", "certificate"]);
    assert_eq!(migration.encode().get("type"), Some(&Json::text("migration")));
    assert_eq!(migration.encode().get("mode"), Some(&Json::text("pull")));
}

#[test]
fn a_new_virtual_machine_says_so() {
    let instance = NewInstance {
        name: "vm1".to_string(),
        instance_type: InstanceType::VirtualMachine,
        source: InstanceSource::Empty,
    };
    let body = instance.encode();
    assert_eq!(body.get("name"), Some(&Json::text("vm1")));
    assert_eq!(body.get("type"), Some(&Json::text("virtual-machine")));
}

#[test]
fn creation_is_followed_from_created_over_running_to_success() {
    let client = local();
    let first = client.create_instance(&operation_answer("async", 100, "")).unwrap();
    assert_eq!(first.status, ResourceStatus::OperationCreated);
    let mut tracker = Tracker::new(first.handle(), PollPolicy::fixed(50), Some(10_000));
    assert_eq!(tracker.observe(first, 0), Step::Sleep { millis: 50 });
    let request = client.operation_request(tracker.handle.location.as_str()).unwrap();
    assert_eq!(request.uri(), "http://lxd/1.0/operations/op1");
    let second = client.operation(&operation_answer("sync", 103, "")).unwrap();
    assert_eq!(tracker.observe(second, 50), Step::Sleep { millis: 50 });
    let third = client.operation(&operation_answer("sync", 200, "")).unwrap();
    match tracker.observe(third, 100) {
        Step::Done { outcome: Ok(operation) } => assert_eq!(operation.err, ""),
        other => panic!("not done: {:?}", other),
    }
}

#[test]
fn a_failed_creation_surfaces_the_failure_not_a_decode_error() {
    let client = local();
    let operation = client.create_instance(&operation_answer("async", 400, "disk full")).unwrap();
    let mut tracker = Tracker::new(operation.handle(), PollPolicy::fixed(50), Some(0));
    assert_eq!(
        tracker.observe(operation, 0),
        Step::Done { outcome: Err(OperationError::Failed("disk full".to_string())) }
    );
}

#[test]
fn canceling_is_asked_for_only_where_it_can_work() {
    let client = local();
    let running = client.operation(&operation_answer("sync", 103, "")).unwrap();
    let request = client.cancel_request(&running).unwrap().unwrap();
    assert_eq!(request.method, Method::Delete);
    assert_eq!(request.path, "/1.0/operations/op1");
    let done = client.operation(&operation_answer("sync", 200, "")).unwrap();
    assert_eq!(client.cancel_request(&done), Ok(None));
}

#[test]
fn a_cancellation_that_is_refused_is_no_error() {
    let client = local();
    let accepted = b"{\"type\": \"sync\", \"status\": \"Success\", \"status_code\": 200, \
                     \"metadata\": {}}";
    assert_eq!(client.cancel(accepted), CancelOutcome::Requested);
    let refused = b"{\"type\": \"error\", \"status\": \"Failure\", \"status_code\": 400, \
                    \"metadata\": \"This operation can't be cancelled\"}";
    assert_eq!(client.cancel(refused), CancelOutcome::NoOp);
    assert_eq!(client.cancel(b"gone"), CancelOutcome::NoOp);
}

#[test]
fn results_and_operations_are_taken_out_of_answers() {
    let names = Names(vec!["a".to_string()]);
    assert_eq!(take_sync(Ok(Envelope::Sync { metadata: names.clone() })), Ok(names));
    let failed: Result<Envelope<Names>, Error> =
        Err(Error::new(ErrorImpl::Transport(TransportError::Timeout)));
    assert_eq!(take_sync(failed), Err(Error::new(ErrorImpl::Transport(TransportError::Timeout))));
    let refused: Result<Envelope<Operation>, Error> =
        Ok(Envelope::Error { code: 500, message: "boom".to_string() });
    assert_eq!(
        take_operation(refused),
        Err(Error::new(ErrorImpl::Operation(OperationError::Failed("boom".to_string()))))
    );
}
