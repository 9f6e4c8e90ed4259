use socks_tunnel::protocol::{
    be_port, greeting_reply, is_valid_greeting, parse_request, success_reply, IpV4, ProtocolError,
    SocksRequest, SocksTarget,
};
use socks_tunnel::resolver::{pick_resolved_address, ResolveError};
use socks_tunnel::session::Client;

#[test]
fn greeting_reply_is_no_auth() {
    assert_eq!(greeting_reply(), vec![0x05, 0x00]);
}

#[test]
fn greeting_validity() {
    assert!(is_valid_greeting(&[0x05, 0x01, 0x00]));
    assert!(is_valid_greeting(&[0x05, 0x00]));
    assert!(is_valid_greeting(&[0x05, 0x02, 0x00, 0x01]));
    assert!(!is_valid_greeting(&[0x04, 0x01, 0x00]));
    assert!(!is_valid_greeting(&[0x05, 0x02, 0x00]));
    assert!(!is_valid_greeting(&[0x05]));
}

#[test]
fn be_port_is_big_endian() {
    assert_eq!(be_port(0x00, 0x50), 80);
    assert_eq!(be_port(0x1F, 0x90), 8080);
    assert_eq!(be_port(0xFF, 0xFF), 65535);
    assert_eq!(be_port(0x00, 0x00), 0);
}

#[test]
fn parse_domain_request() {
    let mut buf = vec![0x05, 0x01, 0x00, 0x03, 0x07];
    buf.extend_from_slice(b"example");
    buf.extend_from_slice(&[0x00, 0x50]);
    let req = parse_request(&buf).unwrap();
    assert_eq!(
        req,
        SocksRequest {
            version: 0x05,
            command: 0x01,
            address_type: 0x03,
            target: SocksTarget::Domain(b"example".to_vec()),
            port: 80,
        }
    );
}

#[test]
fn parse_ipv4_request() {
    let buf = [0x05, 0x01, 0x00, 0x01, 1, 2, 3, 4, 0x00, 0x35];
    let req = parse_request(&buf).unwrap();
    assert_eq!(
        req,
        SocksRequest {
            version: 0x05,
            command: 0x01,
            address_type: 0x01,
            target: SocksTarget::Ip(IpV4 { o0: 1, o1: 2, o2: 3, o3: 4 }),
            port: 53,
        }
    );
}

#[test]
fn parse_rejects_bad_version() {
    let buf = [0x04, 0x01, 0x00, 0x01, 1, 2, 3, 4, 0x00, 0x35];
    assert_eq!(parse_request(&buf), Err(ProtocolError::BadVersion));
}

#[test]
fn parse_rejects_unsupported_command() {
    let buf = [0x05, 0x02, 0x00, 0x01, 1, 2, 3, 4, 0x00, 0x35];
    assert_eq!(parse_request(&buf), Err(ProtocolError::UnsupportedCommand));
}

#[test]
fn parse_rejects_ipv6_as_unsupported() {
    let mut buf = vec![0x05, 0x01, 0x00, 0x04];
    buf.extend_from_slice(&[0; 18]);
    assert_eq!(parse_request(&buf), Err(ProtocolError::UnsupportedAddressType));
}

#[test]
fn parse_rejects_unknown_address_type() {
    let buf = [0x05, 0x01, 0x00, 0x42, 0, 0];
    assert_eq!(parse_request(&buf), Err(ProtocolError::UnsupportedAddressType));
}

#[test]
fn parse_rejects_too_long_name() {
    let buf = [0x05, 0x01, 0x00, 0x03, 200];
    assert_eq!(parse_request(&buf), Err(ProtocolError::NameTooLong));
}

#[test]
fn parse_accepts_longest_name() {
    let mut buf = vec![0x05, 0x01, 0x00, 0x03, 125];
    buf.extend_from_slice(&[b'a'; 125]);
    buf.extend_from_slice(&[0x1F, 0x90]);
    let req = parse_request(&buf).unwrap();
    assert_eq!(req.target, SocksTarget::Domain(vec![b'a'; 125]));
    assert_eq!(req.port, 8080);
}

#[test]
fn parse_rejects_truncated_buffers() {
    assert_eq!(parse_request(&[]), Err(ProtocolError::Truncated));
    assert_eq!(parse_request(&[0x05, 0x01]), Err(ProtocolError::Truncated));
    assert_eq!(parse_request(&[0x05, 0x01, 0x00, 0x03]), Err(ProtocolError::Truncated));
    // The length prefix promises seven name bytes; only three arrive.
    assert_eq!(
        parse_request(&[0x05, 0x01, 0x00, 0x03, 7, b'e', b'x', b'a']),
        Err(ProtocolError::Truncated)
    );
    // An IPv4 block needs four octets and a port.
    assert_eq!(
        parse_request(&[0x05, 0x01, 0x00, 0x01, 1, 2, 3]),
        Err(ProtocolError::Truncated)
    );
}

#[test]
fn success_reply_echoes_request_block() {
    let mut buf = vec![0x05, 0x01, 0x00, 0x03, 0x07];
    buf.extend_from_slice(b"example");
    buf.extend_from_slice(&[0x00, 0x50]);
    let req = parse_request(&buf).unwrap();
    let mut expected = vec![0x05, 0x00, 0x00, 0x03, 0x07];
    expected.extend_from_slice(b"example");
    expected.extend_from_slice(&[0x00, 0x50]);
    assert_eq!(success_reply(&req), expected);
}

#[test]
fn success_reply_echoes_ipv4_block() {
    let buf = [0x05, 0x01, 0x00, 0x01, 10, 0, 0, 1, 0x1F, 0x90];
    let req = parse_request(&buf).unwrap();
    assert_eq!(success_reply(&req), vec![0x05, 0x00, 0x00, 0x01, 10, 0, 0, 1, 0x1F, 0x90]);
}

#[test]
fn first_address_is_picked() {
    let a = IpV4 { o0: 1, o1: 1, o2: 1, o3: 1 };
    let b = IpV4 { o0: 8, o1: 8, o2: 8, o3: 8 };
    assert_eq!(pick_resolved_address(&Some(vec![a, b])), Ok(a));
    assert_eq!(pick_resolved_address(&Some(vec![b])), Ok(b));
}

#[test]
fn empty_lookup_is_no_records() {
    assert_eq!(pick_resolved_address(&Some(vec![])), Err(ResolveError::NoRecords));
}

#[test]
fn failed_lookup_is_lookup_failed() {
    assert_eq!(pick_resolved_address(&None), Err(ResolveError::LookupFailed));
}

#[test]
fn every_server_key_is_accepted() {
    assert!(Client {}.accepts_server_key());
}
