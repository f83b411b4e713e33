use nlxd::client::Timeout;
use nlxd::endpoint::Endpoint;
use nlxd::error::TransportError;
use nlxd::json::Json;
use nlxd::request::{check_size, is_rooted, should_retry, Failure, Method, Request, Tls};

fn network() -> Endpoint {
    Endpoint::Http("https://lxd.example:8443".to_string())
}

fn local() -> Endpoint {
    Endpoint::UnixSocket("/var/snap/lxd/common/lxd/unix.socket".to_string())
}

fn body() -> Option<Json> {
    Some(Json::object(vec![("name".to_string(), Json::text("c1"))]))
}

#[test]
fn both_transports_get_the_same_request_but_for_the_authority() {
    let timeout = Timeout::new(30, 5);
    for method in [Method::Get, Method::Post, Method::Put, Method::Patch, Method::Delete] {
        let over_network =
            Request::build(&network(), true, timeout, method, "/1.0/instances", body()).unwrap();
        let over_socket =
            Request::build(&local(), true, timeout, method, "/1.0/instances", body()).unwrap();
        assert_eq!(over_network.line(), over_socket.line());
        assert_eq!(over_network.method, over_socket.method);
        assert_eq!(over_network.path, over_socket.path);
        assert_eq!(over_network.body, over_socket.body);
        assert_eq!(over_network.body(), over_socket.body());
        assert_eq!(over_network.body(), b"{\"name\":\"c1\"}".to_vec());
        assert_eq!(over_network.timeout, over_socket.timeout);
        assert_eq!(over_network.authority, "https://lxd.example:8443");
        assert_eq!(over_socket.authority, "http://lxd");
    }
}

#[test]
fn a_request_names_its_transport() {
    let timeout = Timeout::from_seconds(7);
    let over_network =
        Request::build(&network(), true, timeout, Method::Get, "/1.0", None).unwrap();
    assert_eq!(
        over_network,
        Request {
            method: Method::Get,
            authority: "https://lxd.example:8443".to_string(),
            path: "/1.0".to_string(),
            body: None,
            socket: None,
            tls: Tls::Verified,
            timeout: Timeout { server_timeout_seconds: 7, connection_timeout_seconds: 7 },
        }
    );
    let over_socket = Request::build(&local(), true, timeout, Method::Get, "/1.0", None).unwrap();
    assert_eq!(over_socket.socket, Some("/var/snap/lxd/common/lxd/unix.socket".to_string()));
    assert_eq!(over_socket.tls, Tls::NotApplicable);
}

#[test]
fn only_the_configuration_turns_verification_off() {
    let timeout = Timeout::default();
    let unverified =
        Request::build(&network(), false, timeout, Method::Get, "/1.0", None).unwrap();
    assert_eq!(unverified.tls, Tls::Unverified);
    let socket = Request::build(&local(), false, timeout, Method::Get, "/1.0", None).unwrap();
    assert_eq!(socket.tls, Tls::NotApplicable);
}

#[test]
fn a_path_without_a_leading_slash_is_refused_not_mended() {
    let timeout = Timeout::default();
    for path in ["1.0/instances", "", " /1.0", "instances/"] {
        assert_eq!(
            Request::build(&network(), true, timeout, Method::Get, path, None),
            Err(TransportError::InvalidPath)
        );
        assert_eq!(
            Request::build(&local(), true, timeout, Method::Get, path, None),
            Err(TransportError::InvalidPath)
        );
        assert!(!is_rooted(path));
    }
    assert!(is_rooted("/"));
    assert!(is_rooted("/1.0"));
}

#[test]
fn the_address_is_authority_and_path() {
    let timeout = Timeout::default();
    let over_network =
        Request::build(&network(), true, timeout, Method::Get, "/1.0/images", None).unwrap();
    assert_eq!(over_network.uri(), "https://lxd.example:8443/1.0/images");
    let over_socket =
        Request::build(&local(), true, timeout, Method::Get, "/1.0/images", None).unwrap();
    assert_eq!(over_socket.uri(), "http://lxd/1.0/images");
}

#[test]
fn the_request_line_is_method_and_path() {
    let timeout = Timeout::default();
    let request =
        Request::build(&local(), true, timeout, Method::Delete, "/1.0/operations/x", None)
            .unwrap();
    assert_eq!(request.line(), "DELETE /1.0/operations/x");
    assert_eq!(Method::Get.as_str(), "GET");
    assert_eq!(Method::Post.as_str(), "POST");
    assert_eq!(Method::Put.as_str(), "PUT");
    assert_eq!(Method::Patch.as_str(), "PATCH");
    assert_eq!(Method::Delete.as_str(), "DELETE");
}

#[test]
fn timeouts_are_built_as_given() {
    assert_eq!(
        Timeout::new(1, 2),
        Timeout { server_timeout_seconds: 1, connection_timeout_seconds: 2 }
    );
    assert_eq!(
        Timeout::from_seconds(9),
        Timeout { server_timeout_seconds: 9, connection_timeout_seconds: 9 }
    );
    assert_eq!(
        Timeout::default(),
        Timeout { server_timeout_seconds: 60, connection_timeout_seconds: 60 }
    );
}

#[test]
fn only_a_reset_connection_is_tried_again_and_only_once() {
    assert!(should_retry(Failure::Reset, 0, 0));
    assert!(!should_retry(Failure::Reset, 1, 0));
    assert!(!should_retry(Failure::Reset, 2, 0));
    assert!(!should_retry(Failure::Reset, 0, 1));
    assert!(!should_retry(Failure::Refused, 0, 0));
    assert!(!should_retry(Failure::ConnectTimedOut, 0, 0));
    assert!(!should_retry(Failure::TimedOut, 0, 0));
}

#[test]
fn failures_of_the_transport_have_their_errors() {
    assert_eq!(Failure::Refused.error(), TransportError::Unreachable);
    assert_eq!(Failure::ConnectTimedOut.error(), TransportError::Unreachable);
    assert_eq!(Failure::Reset.error(), TransportError::Unreachable);
    assert_eq!(Failure::TimedOut.error(), TransportError::Timeout);
}

#[test]
fn an_endpoint_that_keeps_silent_is_unreachable() {
    let timeout = Timeout::new(60, 5);
    assert_eq!(Failure::deadline(5_000, timeout), Failure::ConnectTimedOut);
    assert_eq!(Failure::deadline(5_000, timeout).error(), TransportError::Unreachable);
    assert_eq!(Failure::deadline(0, timeout), Failure::ConnectTimedOut);
    assert_eq!(Failure::deadline(59_999, timeout), Failure::ConnectTimedOut);
}

#[test]
fn an_answer_that_is_late_is_a_timeout() {
    let timeout = Timeout::new(60, 5);
    assert_eq!(Failure::deadline(60_000, timeout), Failure::TimedOut);
    assert_eq!(Failure::deadline(60_000, timeout).error(), TransportError::Timeout);
    assert_eq!(Failure::deadline(u64::MAX, timeout), Failure::TimedOut);
    assert_eq!(Failure::deadline(0, Timeout::new(0, 5)), Failure::TimedOut);
    assert_eq!(
        Failure::deadline(4_294_967_295_000, Timeout::from_seconds(u32::MAX)),
        Failure::TimedOut
    );
    assert_eq!(
        Failure::deadline(4_294_967_294_999, Timeout::from_seconds(u32::MAX)),
        Failure::ConnectTimedOut
    );
}

#[test]
fn a_request_without_a_document_has_no_body() {
    let request =
        Request::build(&local(), true, Timeout::default(), Method::Get, "/1.0", None).unwrap();
    assert!(request.body().is_empty());
}

#[test]
fn a_body_over_the_ceiling_is_refused() {
    assert_eq!(check_size(0, None), Ok(()));
    assert_eq!(check_size(usize::MAX, None), Ok(()));
    assert_eq!(check_size(10, Some(10)), Ok(()));
    assert_eq!(check_size(11, Some(10)), Err(TransportError::Oversized));
    assert_eq!(check_size(1, Some(0)), Err(TransportError::Oversized));
}
