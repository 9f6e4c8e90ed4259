//! The session multiplexer's verified face: the channel-open request the
//! connection machine hands to the shared secure-shell session, and the
//! handshake policy the session's key-check callback applies.
//!
//! The session itself — transport handshake, password authentication, the
//! channel-open round-trip under its lock — is an outside collaborator;
//! the surrounding program performs those calls and reports back whether a
//! channel came up.

use vstd::prelude::*;
use crate::protocol::IpV4;

verus! {

/// Everything the shared session needs to negotiate one forwarded channel:
/// the resolved target with its port, and the origin endpoint reported to
/// the remote side.
#[derive(Debug, Clone, Copy, PartialEq, Eq, Structural)]
pub struct ChannelOpenRequest {
    pub target: IpV4,
    pub port: u16,
    pub origin: IpV4,
    pub origin_port: u16,
}

/// The origin endpoint every forwarded channel reports: the loopback
/// address, port 80.
pub open spec fn connect_request_spec(target: IpV4, port: u16) -> ChannelOpenRequest {
    ChannelOpenRequest {
        target,
        port,
        origin: IpV4 { o0: 127, o1: 0, o2: 0, o3: 0 },
        origin_port: 80,
    }
}

/// Builds the channel-open request for a resolved target and port.
pub fn connect_request(target: IpV4, port: u16) -> (r: ChannelOpenRequest)
    ensures
        r == connect_request_spec(target, port),
{
    ChannelOpenRequest {
        target,
        port,
        origin: IpV4 { o0: 127, o1: 0, o2: 0, o3: 0 },
        origin_port: 80,
    }
}

/// The client side of the shared session's handshake, as far as it decides
/// anything: the server-key policy.
#[derive(Debug, Clone, Copy, PartialEq, Eq, Structural)]
pub struct Client {}

impl Client {
    /// Whether a presented server key is accepted: always — the session
    /// trusts whatever key the server shows, a documented simplification.
    pub fn accepts_server_key(&self) -> (r: bool)
        ensures
            r,
    {
        true
    }
}

} // verus!
