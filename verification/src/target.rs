//! The connect target: which remote endpoint to reach.

use vstd::prelude::*;
use vstd::std_specs::convert::FromSpecImpl;

verus! {

/// A socket address that needs no resolution, as plain numbers.
#[derive(Clone, Copy, Debug, PartialEq, Eq, Structural)]
pub enum SocketAddress {
    /// An IPv4 address, its four octets read as one big-endian number, and a port.
    V4 { ipv4: u32, port: u16 },
    /// An IPv6 address, its sixteen octets read as one big-endian number, with
    /// its port, flow information and scope.
    V6 { ipv6: u128, port: u16, flowinfo: u32, scope_id: u32 },
}

/// A remote endpoint: a host name, and optionally a port that overrides the
/// default one and an address that was resolved beforehand.
///
/// A target carries no connection state. The builder methods consume it and
/// hand back the changed target.
#[derive(Debug)]
pub struct Connect {
    /// The host name; it may be empty.
    pub host: String,
    /// The port to use in place of the default one.
    pub port: Option<u16>,
    /// The address to dial without resolving the host.
    pub addr: Option<SocketAddress>,
}

/// What a [`Connect`] says, with the host as a sequence of characters.
pub struct ConnectView {
    pub host: Seq<char>,
    pub port: Option<u16>,
    pub addr: Option<SocketAddress>,
}

impl View for Connect {
    type V = ConnectView;

    open spec fn view(&self) -> ConnectView {
        ConnectView { host: self.host@, port: self.port, addr: self.addr }
    }
}

impl Connect {
    /// A target for `host`, with no port override and no resolved address.
    /// Every host is accepted, the empty one too.
    pub fn new(host: &str) -> (target: Connect)
        ensures
            target@ == (ConnectView { host: host@, port: None, addr: None }),
    {
        Connect { host: host.to_owned(), port: None, addr: None }
    }

    /// The same target with `port` as its port override.
    pub fn set_port(self, port: u16) -> (target: Connect)
        ensures
            target == (Connect { port: Some(port), ..self }),
    {
        Connect { host: self.host, port: Some(port), addr: self.addr }
    }

    /// The same target with `addr` as its resolved address; `None` removes it.
    pub fn set_addr(self, addr: Option<SocketAddress>) -> (target: Connect)
        ensures
            target == (Connect { addr, ..self }),
    {
        Connect { host: self.host, port: self.port, addr }
    }

    /// The host name.
    pub fn host(&self) -> (host: &str)
        ensures
            host@ == self@.host,
    {
        self.host.as_str()
    }

    /// The port override, if there is one.
    pub fn port(&self) -> (port: Option<u16>)
        ensures
            port == self.port,
    {
        self.port
    }

    /// The resolved address, if there is one.
    pub fn addr(&self) -> (addr: Option<SocketAddress>)
        ensures
            addr == self.addr,
    {
        self.addr
    }
}

impl Clone for Connect {
    fn clone(&self) -> (copy: Connect)
        ensures
            copy == *self,
    {
        Connect { host: self.host.clone(), port: self.port, addr: self.addr }
    }
}

impl From<String> for Connect {
    /// A target for `host` alone.
    fn from(host: String) -> (target: Connect) {
        Connect { host, port: None, addr: None }
    }
}

impl FromSpecImpl<String> for Connect {
    open spec fn obeys_from_spec() -> bool {
        true
    }

    open spec fn from_spec(host: String) -> Connect {
        Connect { host, port: None, addr: None }
    }
}

impl From<(String, u16)> for Connect {
    /// A target for a host and the port to use with it.
    fn from(pair: (String, u16)) -> (target: Connect) {
        Connect { host: pair.0, port: Some(pair.1), addr: None }
    }
}

impl FromSpecImpl<(String, u16)> for Connect {
    open spec fn obeys_from_spec() -> bool {
        true
    }

    open spec fn from_spec(pair: (String, u16)) -> Connect {
        Connect { host: pair.0, port: Some(pair.1), addr: None }
    }
}

} // verus!
