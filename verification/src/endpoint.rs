//! Where the daemon listens.

use vstd::prelude::*;
use vstd::string::{StrSliceExecFns, StringExecFns};

verus! {

/// The target of every request of a client.
#[derive(Clone, Debug, PartialEq, Eq)]
pub enum Endpoint {
    /// A network address, scheme included, as in `https://host:8443`.
    Http(String),
    /// The path of a Unix domain socket.
    UnixSocket(String),
}

pub ghost enum EndpointView {
    Http(Seq<char>),
    UnixSocket(Seq<char>),
}

impl View for Endpoint {
    type V = EndpointView;

    open spec fn view(&self) -> EndpointView {
        match self {
            Endpoint::Http(host) => EndpointView::Http(host@),
            Endpoint::UnixSocket(path) => EndpointView::UnixSocket(path@),
        }
    }
}

/// What the process environment says about the daemon's socket, read once by
/// whoever builds the client.
#[derive(Clone, Debug, PartialEq, Eq)]
pub struct Environment {
    /// The value of `LXD_SOCKET`, if the variable is set.
    pub socket: Option<String>,
    /// The value of `LXD_DIR`, if the variable is set.
    pub dir: Option<String>,
    /// Whether the socket of the snap package exists on disk.
    pub snap_socket_exists: bool,
}

pub ghost struct EnvironmentView {
    pub socket: Option<Seq<char>>,
    pub dir: Option<Seq<char>>,
    pub snap_socket_exists: bool,
}

/// The view of an optional string.
pub open spec fn optional_text(text: Option<String>) -> Option<Seq<char>> {
    match text {
        Some(s) => Some(s@),
        None => None,
    }
}

impl View for Environment {
    type V = EnvironmentView;

    open spec fn view(&self) -> EnvironmentView {
        EnvironmentView {
            socket: optional_text(self.socket),
            dir: optional_text(self.dir),
            snap_socket_exists: self.snap_socket_exists,
        }
    }
}

/// The socket of the daemon as the snap package installs it.
pub open spec fn snap_socket() -> Seq<char> {
    "/var/snap/lxd/common/lxd/unix.socket"@
}

/// The socket of the daemon as a distribution package installs it. The two
/// packagings presently share one path.
pub open spec fn package_socket() -> Seq<char> {
    "/var/snap/lxd/common/lxd/unix.socket"@
}

/// The name of the socket within the daemon's directory.
pub open spec fn socket_file() -> Seq<char> {
    "unix.socket"@
}

/// A value that counts only where it is set and not empty.
pub open spec fn nonempty(value: Option<Seq<char>>) -> Option<Seq<char>> {
    match value {
        Some(text) => if text.len() > 0 {
            Some(text)
        } else {
            None
        },
        None => None,
    }
}

/// The path of `name` within the directory `dir`: one slash between them, none
/// added where `dir` already ends in one.
pub open spec fn joined(dir: Seq<char>, name: Seq<char>) -> Seq<char> {
    if dir.len() > 0 && dir.last() == '/' {
        dir + name
    } else {
        dir + "/"@ + name
    }
}

/// The socket path that the environment calls for: the socket variable where
/// it is set and not empty; else the socket file within the directory variable,
/// where that is set and not empty; else the snap package's socket where it
/// exists; else the distribution package's socket, whether it exists or not.
pub open spec fn resolved_socket(environment: EnvironmentView) -> Seq<char> {
    match nonempty(environment.socket) {
        Some(socket) => socket,
        None => match nonempty(environment.dir) {
            Some(dir) => joined(dir, socket_file()),
            None => if environment.snap_socket_exists {
                snap_socket()
            } else {
                package_socket()
            },
        },
    }
}

/// The endpoint of a client: the one that was configured, or else the socket
/// that the environment calls for.
pub open spec fn resolved_endpoint(explicit: Option<EndpointView>, environment: EnvironmentView)
    -> EndpointView {
    match explicit {
        Some(endpoint) => endpoint,
        None => EndpointView::UnixSocket(resolved_socket(environment)),
    }
}

/// Passes on a value that is set and not empty.
pub fn nonempty_value(value: Option<String>) -> (r: Option<String>)
    ensures
        optional_text(r) == nonempty(optional_text(value)),
{
    match value {
        Some(text) => {
            if text.as_str().unicode_len() == 0 {
                None
            } else {
                Some(text)
            }
        },
        None => None,
    }
}

/// Appends `name` to the directory `dir`.
pub fn join(dir: &str, name: &str) -> (r: String)
    ensures
        r@ == joined(dir@, name@),
{
    let length = dir.unicode_len();
    let path = String::from_str(dir);
    if length > 0 && dir.get_char(length - 1) == '/' {
        path.concat(name)
    } else {
        path.concat("/").concat(name)
    }
}

/// The socket of the daemon as the snap package installs it.
pub fn snap_socket_path() -> (r: String)
    ensures
        r@ == snap_socket(),
{
    String::from_str("/var/snap/lxd/common/lxd/unix.socket")
}

/// The socket of the daemon as a distribution package installs it.
pub fn package_socket_path() -> (r: String)
    ensures
        r@ == package_socket(),
{
    String::from_str("/var/snap/lxd/common/lxd/unix.socket")
}

impl Endpoint {
    /// The socket path that the environment calls for. This never fails:
    /// whether anything listens there shows when a request is sent.
    pub fn socket_path(environment: &Environment) -> (r: String)
        ensures
            r@ == resolved_socket(environment@),
    {
        match nonempty_value(environment.socket.clone()) {
            Some(socket) => socket,
            None => match nonempty_value(environment.dir.clone()) {
                Some(dir) => join(dir.as_str(), "unix.socket"),
                None => {
                    if environment.snap_socket_exists {
                        snap_socket_path()
                    } else {
                        package_socket_path()
                    }
                },
            },
        }
    }

    /// The endpoint of a client: `explicit` where one is configured, else the
    /// socket that the environment calls for.
    pub fn resolve(explicit: Option<Endpoint>, environment: &Environment) -> (r: Endpoint)
        ensures
            r@ == resolved_endpoint(
                match explicit {
                    Some(endpoint) => Some(endpoint@),
                    None => None,
                },
                environment@,
            ),
    {
        match explicit {
            Some(endpoint) => endpoint,
            None => Endpoint::UnixSocket(Endpoint::socket_path(environment)),
        }
    }
}

/// With the socket variable unset or empty and the directory variable set and
/// not empty, the socket is the socket file within that directory, whether or
/// not the snap package's socket exists.
pub proof fn lemma_directory_decides(environment: EnvironmentView)
    requires
        nonempty(environment.socket) is None,
        nonempty(environment.dir) is Some,
    ensures
        resolved_socket(environment) == joined(environment.dir->Some_0, socket_file()),
        resolved_socket(environment) == resolved_socket(
            EnvironmentView { snap_socket_exists: !environment.snap_socket_exists, ..environment },
        ),
{
}

/// A socket variable that is set and not empty decides alone.
pub proof fn lemma_socket_decides(environment: EnvironmentView, other: EnvironmentView)
    requires
        nonempty(environment.socket) is Some,
        other.socket == environment.socket,
    ensures
        resolved_socket(environment) == environment.socket->Some_0,
        resolved_socket(other) == resolved_socket(environment),
{
}

} // verus!
