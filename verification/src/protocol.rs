//! The SOCKS5 handshake engine: greeting handling, request parsing and the
//! success reply, together with the wire-level constants and errors.
//!
//! The request parser works on a complete message buffer; the caller reads
//! the bytes off the socket and hands them in unchanged.

use vstd::prelude::*;

verus! {

/// Protocol version this server speaks.
pub const SOCKS_VERSION: u8 = 0x05;
/// The only supported command: CONNECT.
pub const CMD_CONNECT: u8 = 0x01;
/// Address type: IPv4 literal.
pub const ATYP_IPV4: u8 = 0x01;
/// Address type: length-prefixed domain name.
pub const ATYP_DOMAIN: u8 = 0x03;
/// Address type: IPv6 literal (recognized, deliberately rejected).
pub const ATYP_IPV6: u8 = 0x04;

/// Longest domain name a request may carry. The address block is read into
/// one bounded 128-byte buffer holding the length prefix, the name and the
/// two port bytes, so a name longer than 125 bytes is refused as
/// `NameTooLong` rather than truncated.
pub const MAX_NAME_LEN: usize = 125;

/// Why a greeting or request was refused. Every variant is fatal to the
/// connection: it is closed without a SOCKS5 failure reply.
#[derive(Debug, Clone, Copy, PartialEq, Eq, Structural)]
pub enum ProtocolError {
    /// Version byte of the request is not 0x05.
    BadVersion,
    /// Command byte is not CONNECT.
    UnsupportedCommand,
    /// Address-type byte names no form this server accepts.
    UnsupportedAddressType,
    /// The length-prefixed name exceeds `MAX_NAME_LEN`.
    NameTooLong,
    /// The buffer ends before the bytes its own framing promises.
    Truncated,
}

/// An IPv4 address as four plain octets.
#[derive(Debug, Clone, Copy, PartialEq, Eq, Structural)]
pub struct IpV4 {
    pub o0: u8,
    pub o1: u8,
    pub o2: u8,
    pub o3: u8,
}

/// Where a request asks to connect.
#[derive(Debug, PartialEq, Eq)]
pub enum SocksTarget {
    /// A domain name still to be resolved, as its raw bytes.
    Domain(Vec<u8>),
    /// An IPv4 literal; the resolver is bypassed.
    Ip(IpV4),
}

/// The mathematical shape of a target: the name as a sequence.
pub enum TargetModel {
    Domain(Seq<u8>),
    Ip(IpV4),
}

impl View for SocksTarget {
    type V = TargetModel;

    open spec fn view(&self) -> TargetModel {
        match self {
            SocksTarget::Domain(name) => TargetModel::Domain(name@),
            SocksTarget::Ip(a) => TargetModel::Ip(*a),
        }
    }
}

/// A parsed request: parsed once, immutable thereafter.
#[derive(Debug, PartialEq, Eq)]
pub struct SocksRequest {
    pub version: u8,
    pub command: u8,
    pub address_type: u8,
    pub target: SocksTarget,
    pub port: u16,
}

/// The mathematical shape of a parsed request.
pub struct RequestModel {
    pub version: u8,
    pub command: u8,
    pub address_type: u8,
    pub target: TargetModel,
    pub port: u16,
}

impl View for SocksRequest {
    type V = RequestModel;

    open spec fn view(&self) -> RequestModel {
        RequestModel {
            version: self.version,
            command: self.command,
            address_type: self.address_type,
            target: self.target@,
            port: self.port,
        }
    }
}

/// A well-formed greeting: version 0x05, then a method count matched by at
/// least that many method bytes.
pub open spec fn valid_greeting(b: Seq<u8>) -> bool {
    &&& b.len() >= 2
    &&& b[0] == SOCKS_VERSION
    &&& b.len() >= 2 + b[1]
}

/// The reply to every greeting: version 0x05, method 0x00 (no
/// authentication), independent of the offered method list — a documented
/// simplification, not a negotiation.
pub open spec fn greeting_reply_spec() -> Seq<u8> {
    seq![SOCKS_VERSION, 0x00u8]
}

/// Builds the greeting reply `{0x05, 0x00}`.
pub fn greeting_reply() -> (r: Vec<u8>)
    ensures
        r@ == greeting_reply_spec(),
{
    let mut r: Vec<u8> = Vec::new();
    r.push(SOCKS_VERSION);
    r.push(0x00);
    proof {
        assert(r@ =~= greeting_reply_spec());
    }
    r
}

/// Reports whether a greeting is well formed. The reply does not depend on
/// it; a caller may still use it to log malformed clients.
pub fn is_valid_greeting(buf: &[u8]) -> (r: bool)
    ensures
        r == valid_greeting(buf@),
{
    buf.len() >= 2 && buf[0] == SOCKS_VERSION && buf.len() >= 2 + (buf[1] as usize)
}

/// A big-endian port from its two wire bytes.
pub open spec fn be_port_spec(hi: u8, lo: u8) -> u16 {
    (hi * 256 + lo) as u16
}

/// Reads a big-endian port from its two wire bytes.
pub fn be_port(hi: u8, lo: u8) -> (p: u16)
    ensures
        p == be_port_spec(hi, lo),
{
    (hi as u16) * 256 + (lo as u16)
}

/// What parsing a complete request buffer yields, checked in the order the
/// wire fields arrive: version, command, address type, then the address
/// block. A domain block is a one-byte length, the name, and a big-endian
/// port; an IPv4 block is four octets and the port. Bytes beyond the block
/// the framing promises are ignored. IPv6 is recognized but rejected as
/// unsupported — a deliberate choice where the design leaves the stub open.
pub open spec fn parse_request_spec(b: Seq<u8>) -> Result<RequestModel, ProtocolError> {
    if b.len() < 4 {
        Err(ProtocolError::Truncated)
    } else if b[0] != SOCKS_VERSION {
        Err(ProtocolError::BadVersion)
    } else if b[1] != CMD_CONNECT {
        Err(ProtocolError::UnsupportedCommand)
    } else if b[3] == ATYP_DOMAIN {
        if b.len() < 5 {
            Err(ProtocolError::Truncated)
        } else if b[4] > MAX_NAME_LEN {
            Err(ProtocolError::NameTooLong)
        } else if b.len() < 7 + b[4] {
            Err(ProtocolError::Truncated)
        } else {
            Ok(RequestModel {
                version: SOCKS_VERSION,
                command: CMD_CONNECT,
                address_type: ATYP_DOMAIN,
                target: TargetModel::Domain(b.subrange(5, 5 + b[4] as int)),
                port: be_port_spec(b[5 + b[4] as int], b[6 + b[4] as int]),
            })
        }
    } else if b[3] == ATYP_IPV4 {
        if b.len() < 10 {
            Err(ProtocolError::Truncated)
        } else {
            Ok(RequestModel {
                version: SOCKS_VERSION,
                command: CMD_CONNECT,
                address_type: ATYP_IPV4,
                target: TargetModel::Ip(IpV4 { o0: b[4], o1: b[5], o2: b[6], o3: b[7] }),
                port: be_port_spec(b[8], b[9]),
            })
        }
    } else {
        Err(ProtocolError::UnsupportedAddressType)
    }
}

/// The view of an executable parse result, for stating that the parser
/// computes exactly `parse_request_spec`.
pub open spec fn parse_result_view(r: Result<SocksRequest, ProtocolError>) -> Result<
    RequestModel,
    ProtocolError,
> {
    match r {
        Ok(q) => Ok(q@),
        Err(e) => Err(e),
    }
}

/// A request whose name fits the documented maximum; every request the
/// parser returns is of this shape.
pub open spec fn wf_request(m: RequestModel) -> bool {
    m.target matches TargetModel::Domain(name) ==> name.len() <= MAX_NAME_LEN
}

/// Parses the fixed command block and the address block of a request.
/// Fails `BadVersion` on a version byte other than 0x05,
/// `UnsupportedCommand` on a command other than CONNECT, `NameTooLong` on a
/// name over `MAX_NAME_LEN`, `UnsupportedAddressType` on IPv6 or an unknown
/// address type, and `Truncated` on a buffer shorter than its own framing.
pub fn parse_request(buf: &[u8]) -> (r: Result<SocksRequest, ProtocolError>)
    ensures
        parse_result_view(r) == parse_request_spec(buf@),
        r matches Ok(q) ==> wf_request(q@),
{
    if buf.len() < 4 {
        return Err(ProtocolError::Truncated);
    }
    if buf[0] != SOCKS_VERSION {
        return Err(ProtocolError::BadVersion);
    }
    if buf[1] != CMD_CONNECT {
        return Err(ProtocolError::UnsupportedCommand);
    }
    let atyp = buf[3];
    if atyp == ATYP_DOMAIN {
        if buf.len() < 5 {
            return Err(ProtocolError::Truncated);
        }
        let n = buf[4] as usize;
        if n > MAX_NAME_LEN {
            return Err(ProtocolError::NameTooLong);
        }
        if buf.len() < 7 + n {
            return Err(ProtocolError::Truncated);
        }
        let mut name: Vec<u8> = Vec::new();
        let mut i: usize = 0;
        while i < n
            invariant
                i <= n,
                n == buf@[4],
                n <= MAX_NAME_LEN,
                buf@.len() >= 7 + n,
                name@ =~= buf@.subrange(5, 5 + i as int),
            decreases n - i,
        {
            name.push(buf[5 + i]);
            i += 1;
        }
        let port = be_port(buf[5 + n], buf[6 + n]);
        let req = SocksRequest {
            version: SOCKS_VERSION,
            command: CMD_CONNECT,
            address_type: ATYP_DOMAIN,
            target: SocksTarget::Domain(name),
            port,
        };
        proof {
            assert(name@ =~= buf@.subrange(5, 5 + buf@[4] as int));
        }
        Ok(req)
    } else if atyp == ATYP_IPV4 {
        if buf.len() < 10 {
            return Err(ProtocolError::Truncated);
        }
        let target = IpV4 { o0: buf[4], o1: buf[5], o2: buf[6], o3: buf[7] };
        let port = be_port(buf[8], buf[9]);
        Ok(SocksRequest {
            version: SOCKS_VERSION,
            command: CMD_CONNECT,
            address_type: ATYP_IPV4,
            target: SocksTarget::Ip(target),
            port,
        })
    } else {
        Err(ProtocolError::UnsupportedAddressType)
    }
}

/// The raw address-and-port block of a request, exactly as it stood on the
/// wire: for a domain, the length prefix, the name and the port; for an
/// IPv4 literal, the four octets and the port.
pub open spec fn addr_block_spec(m: RequestModel) -> Seq<u8> {
    (match m.target {
        TargetModel::Domain(name) => seq![name.len() as u8] + name,
        TargetModel::Ip(a) => seq![a.o0, a.o1, a.o2, a.o3],
    }) + seq![(m.port / 256) as u8, (m.port % 256) as u8]
}

/// The success reply: `{0x05, 0x00, 0x00, address_type}` followed by the
/// echoed raw address and port bytes of the request — the request's own
/// bytes, not the RFC's bound address, a compatibility simplification that
/// is preserved deliberately.
pub open spec fn success_reply_spec(m: RequestModel) -> Seq<u8> {
    seq![SOCKS_VERSION, 0x00u8, 0x00u8, m.address_type] + addr_block_spec(m)
}

/// Builds the success reply for a parsed request.
pub fn success_reply(req: &SocksRequest) -> (r: Vec<u8>)
    requires
        wf_request(req@),
    ensures
        r@ == success_reply_spec(req@),
{
    let mut r: Vec<u8> = Vec::new();
    r.push(SOCKS_VERSION);
    r.push(0x00);
    r.push(0x00);
    r.push(req.address_type);
    match &req.target {
        SocksTarget::Domain(name) => {
            r.push(name.len() as u8);
            let mut i: usize = 0;
            while i < name.len()
                invariant
                    i <= name@.len(),
                    r@ =~= seq![
                        SOCKS_VERSION,
                        0x00u8,
                        0x00u8,
                        req@.address_type,
                        name@.len() as u8,
                    ] + name@.subrange(0, i as int),
                decreases name@.len() - i,
            {
                r.push(name[i]);
                i += 1;
            }
            proof {
                assert(name@.subrange(0, name@.len() as int) =~= name@);
            }
        },
        SocksTarget::Ip(a) => {
            r.push(a.o0);
            r.push(a.o1);
            r.push(a.o2);
            r.push(a.o3);
        },
    }
    r.push((req.port / 256) as u8);
    r.push((req.port % 256) as u8);
    proof {
        assert(r@ =~= success_reply_spec(req@));
    }
    r
}

} // verus!
