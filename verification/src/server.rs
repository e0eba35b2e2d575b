//! Where the server listens.
use vstd::prelude::*;

verus! {

/// The permissions given to the server's Unix socket (`rwxrwxr-x`).
pub const SOCKET_MODE: u32 = 0o775;

/// The arguments of the `serve` command: a TCP port or the path of a Unix
/// socket.
pub struct ServeArgs {
    port: Option<u16>,
    uds: Option<String>,
}

/// Where the server listens.
#[derive(Debug, Clone)]
pub enum ListenTarget {
    /// TCP on every interface, at this port.
    Tcp(u16),
    /// A Unix socket at this path.
    Unix(String),
}

impl ServeArgs {
    /// The port, where one is given.
    pub closed spec fn spec_port(&self) -> Option<u16> {
        self.port
    }

    /// The socket path, as characters, where one is given.
    pub closed spec fn spec_uds(&self) -> Option<Seq<char>> {
        match self.uds {
            Some(p) => Some(p@),
            None => None,
        }
    }

    /// The arguments as given on the command line.
    pub fn new(port: Option<u16>, uds: Option<String>) -> (a: Self)
        ensures
            a.spec_port() == port,
            a.spec_uds() == (match uds {
                Some(p) => Some(p@),
                None => None,
            }),
    {
        ServeArgs { port, uds }
    }

    /// Where to listen: the port where one is given, else the socket path
    /// where one is given, else nowhere.
    pub fn listen_target(&self) -> (t: Option<ListenTarget>)
        ensures
            match self.spec_port() {
                Some(port) => t matches Some(ListenTarget::Tcp(p)) && p == port,
                None => match self.spec_uds() {
                    Some(path) => t matches Some(ListenTarget::Unix(p)) && p@ == path,
                    None => t is None,
                },
            },
    {
        match self.port {
            Some(port) => Some(ListenTarget::Tcp(port)),
            None => match &self.uds {
                Some(path) => Some(ListenTarget::Unix(path.clone())),
                None => None,
            },
        }
    }
}

} // verus!
