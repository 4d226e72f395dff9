//! The configuration value that a document decodes to.

use vstd::prelude::*;

verus! {

/// The listener a server opens. A configuration holds exactly one of the two
/// modes; a port that the document leaves out is `None`.
#[derive(Debug, Clone, Copy, PartialEq, Eq)]
pub enum Listen {
    /// Plain HTTP on one TCP port.
    Http { tcp_port: u16 },
    /// HTTPS on one TCP port, with an optional TCP port that redirects plain
    /// HTTP to it and an optional UDP port.
    Https { tcp_port_http_redirect: Option<u16>, tcp_port: u16, udp_port: Option<u16> },
}

/// A server's configuration.
#[derive(Debug, Clone, Copy, PartialEq, Eq)]
pub struct Server {
    pub listen: Listen,
}

} // verus!
