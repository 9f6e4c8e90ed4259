use socks_tunnel::conn::{ConnError, ConnEvent, ConnState, StepEffects};
use socks_tunnel::protocol::{IpV4, ProtocolError};
use socks_tunnel::resolver::ResolveError;
use socks_tunnel::session::ChannelOpenRequest;

fn assert_quiet(eff: &StepEffects) {
    assert_eq!(eff.to_client, None);
    assert_eq!(eff.to_channel, None);
    assert_eq!(eff.resolve_name, None);
    assert_eq!(eff.open_channel, None);
    assert!(!eff.cancel_channel);
    assert!(!eff.shutdown_client);
    assert!(!eff.release_channel);
    assert_eq!(eff.fail, None);
}

fn domain_request_bytes(name: &[u8], port: u16) -> Vec<u8> {
    let mut buf = vec![0x05, 0x01, 0x00, 0x03, name.len() as u8];
    buf.extend_from_slice(name);
    buf.extend_from_slice(&[(port >> 8) as u8, (port & 0xFF) as u8]);
    buf
}

fn relaying_state() -> ConnState {
    let state = ConnState::start();
    let (state, _) = state.step(ConnEvent::Greeting(vec![0x05, 0x01, 0x00]));
    let (state, _) = state.step(ConnEvent::Request(vec![
        0x05, 0x01, 0x00, 0x01, 10, 0, 0, 1, 0x00, 0x50,
    ]));
    let (state, _) = state.step(ConnEvent::ChannelOpened(true));
    assert_eq!(state, ConnState::Relaying);
    state
}

#[test]
fn any_greeting_gets_the_fixed_reply() {
    let (state, eff) = ConnState::start().step(ConnEvent::Greeting(vec![0x05, 0x01, 0x00]));
    assert_eq!(state, ConnState::AwaitingRequest);
    assert_eq!(eff.to_client, Some(vec![0x05, 0x00]));
    assert_eq!(eff.open_channel, None);
    assert_eq!(eff.resolve_name, None);

    // The reply does not depend on the offered method list.
    let (_, eff2) =
        ConnState::start().step(ConnEvent::Greeting(vec![0x05, 0x03, 0x00, 0x01, 0x02]));
    assert_eq!(eff2.to_client, Some(vec![0x05, 0x00]));
}

#[test]
fn domain_request_invokes_resolver_with_the_name() {
    let state = ConnState::AwaitingRequest;
    let (_, eff) = state.step(ConnEvent::Request(domain_request_bytes(b"example", 80)));
    assert_eq!(eff.resolve_name, Some(b"example".to_vec()));
    assert_eq!(eff.to_client, None);
    assert_eq!(eff.open_channel, None);
}

#[test]
fn resolution_success_replies_and_opens_first_address() {
    let state = ConnState::AwaitingRequest;
    let (state, _) = state.step(ConnEvent::Request(domain_request_bytes(b"example", 80)));
    let first = IpV4 { o0: 93, o1: 184, o2: 216, o3: 34 };
    let second = IpV4 { o0: 93, o1: 184, o2: 216, o3: 35 };
    let (state, eff) = state.step(ConnEvent::Resolved(Some(vec![first, second])));
    assert_eq!(state, ConnState::OpeningChannel);
    let mut expected = vec![0x05, 0x00, 0x00, 0x03, 0x07];
    expected.extend_from_slice(b"example");
    expected.extend_from_slice(&[0x00, 0x50]);
    assert_eq!(eff.to_client, Some(expected));
    assert_eq!(
        eff.open_channel,
        Some(ChannelOpenRequest {
            target: first,
            port: 80,
            origin: IpV4 { o0: 127, o1: 0, o2: 0, o3: 0 },
            origin_port: 80,
        })
    );
    assert_eq!(eff.fail, None);
}

#[test]
fn ipv4_request_bypasses_the_resolver() {
    let state = ConnState::AwaitingRequest;
    let (state, eff) =
        state.step(ConnEvent::Request(vec![0x05, 0x01, 0x00, 0x01, 10, 0, 0, 1, 0x1F, 0x90]));
    assert_eq!(state, ConnState::OpeningChannel);
    assert_eq!(eff.resolve_name, None);
    assert_eq!(eff.to_client, Some(vec![0x05, 0x00, 0x00, 0x01, 10, 0, 0, 1, 0x1F, 0x90]));
    assert_eq!(
        eff.open_channel,
        Some(ChannelOpenRequest {
            target: IpV4 { o0: 10, o1: 0, o2: 0, o3: 1 },
            port: 8080,
            origin: IpV4 { o0: 127, o1: 0, o2: 0, o3: 0 },
            origin_port: 80,
        })
    );
}

#[test]
fn bad_version_closes_before_any_channel() {
    let state = ConnState::AwaitingRequest;
    let (state, eff) =
        state.step(ConnEvent::Request(vec![0x04, 0x01, 0x00, 0x01, 1, 2, 3, 4, 0, 80]));
    assert_eq!(state, ConnState::Closed);
    assert_eq!(eff.fail, Some(ConnError::Protocol(ProtocolError::BadVersion)));
    assert_eq!(eff.open_channel, None);
    assert_eq!(eff.resolve_name, None);

    // Whatever follows, a closed connection asks for nothing more.
    let (state, eff) = state.step(ConnEvent::ChannelOpened(true));
    assert_eq!(state, ConnState::Closed);
    assert_quiet(&eff);
}

#[test]
fn unsupported_command_closes_immediately() {
    let state = ConnState::AwaitingRequest;
    let (state, eff) = state.step(ConnEvent::Request(vec![
        0x05, 0x02, 0x00, 0x03, 0x07, b'e', b'x', b'a', b'm', b'p', b'l', b'e', 0x00, 0x50,
    ]));
    assert_eq!(state, ConnState::Closed);
    assert_eq!(eff.fail, Some(ConnError::Protocol(ProtocolError::UnsupportedCommand)));
    assert_eq!(eff.resolve_name, None);
    assert_eq!(eff.open_channel, None);

    let (_, eff) = state.step(ConnEvent::ClientChunk(vec![1, 2, 3]));
    assert_quiet(&eff);
}

#[test]
fn zero_records_closes_without_channel() {
    let state = ConnState::AwaitingRequest;
    let (state, eff) =
        state.step(ConnEvent::Request(domain_request_bytes(b"nonexistent.invalid", 443)));
    assert_eq!(eff.resolve_name, Some(b"nonexistent.invalid".to_vec()));
    let (state, eff) = state.step(ConnEvent::Resolved(Some(vec![])));
    assert_eq!(state, ConnState::Closed);
    assert_eq!(eff.fail, Some(ConnError::Resolve(ResolveError::NoRecords)));
    assert_eq!(eff.open_channel, None);
    assert_eq!(eff.to_client, None);
}

#[test]
fn failed_lookup_closes_without_channel() {
    let state = ConnState::AwaitingRequest;
    let (state, _) = state.step(ConnEvent::Request(domain_request_bytes(b"example", 80)));
    let (state, eff) = state.step(ConnEvent::Resolved(None));
    assert_eq!(state, ConnState::Closed);
    assert_eq!(eff.fail, Some(ConnError::Resolve(ResolveError::LookupFailed)));
    assert_eq!(eff.open_channel, None);
}

#[test]
fn channel_open_failure_is_fatal() {
    let state = ConnState::AwaitingRequest;
    let (state, _) =
        state.step(ConnEvent::Request(vec![0x05, 0x01, 0x00, 0x01, 10, 0, 0, 1, 0x00, 0x50]));
    let (state, eff) = state.step(ConnEvent::ChannelOpened(false));
    assert_eq!(state, ConnState::Closed);
    assert_eq!(eff.fail, Some(ConnError::ChannelOpen));
    assert!(!eff.release_channel);
}

#[test]
fn hundred_bytes_forwarded_in_order_then_cleanup() {
    let mut state = relaying_state();
    let payload: Vec<u8> = (0..100u8).collect();
    let mut forwarded: Vec<u8> = Vec::new();
    for chunk in payload.chunks(33) {
        let (next, eff) = state.step(ConnEvent::ClientChunk(chunk.to_vec()));
        state = next;
        assert_eq!(state, ConnState::Relaying);
        forwarded.extend_from_slice(&eff.to_channel.unwrap());
        assert_eq!(eff.to_client, None);
        assert!(!eff.release_channel);
    }
    assert_eq!(forwarded, payload);

    let (state, eff) = state.step(ConnEvent::ClientEof);
    assert_eq!(state, ConnState::Closed);
    assert!(eff.shutdown_client);
    assert!(eff.release_channel);
    assert_eq!(eff.fail, None);

    // No double close: once finished, nothing is released again.
    let (_, eff) = state.step(ConnEvent::ClientEof);
    assert_quiet(&eff);
}

#[test]
fn channel_data_delivered_in_order() {
    let mut state = relaying_state();
    let mut delivered: Vec<u8> = Vec::new();
    for chunk in [&b"hello "[..], &b"world"[..]] {
        let (next, eff) = state.step(ConnEvent::ChannelData(chunk.to_vec()));
        state = next;
        assert_eq!(state, ConnState::Relaying);
        delivered.extend_from_slice(&eff.to_client.unwrap());
        assert_eq!(eff.to_channel, None);
    }
    assert_eq!(delivered, b"hello world".to_vec());
}

#[test]
fn exit_signal_shuts_client_write_side() {
    let state = relaying_state();
    let (state, eff) = state.step(ConnEvent::ChannelExitSignal);
    assert_eq!(state, ConnState::Closed);
    assert!(eff.shutdown_client);
    assert!(eff.release_channel);
    assert!(!eff.cancel_channel);
    assert_eq!(eff.fail, None);
}

#[test]
fn channel_eof_releases_once() {
    let state = relaying_state();
    let (state, eff) = state.step(ConnEvent::ChannelEof);
    assert_eq!(state, ConnState::Closed);
    assert!(eff.shutdown_client);
    assert!(eff.release_channel);
    let (_, eff) = state.step(ConnEvent::ChannelEof);
    assert_quiet(&eff);
}

#[test]
fn client_read_error_cancels_the_channel() {
    let state = relaying_state();
    let (state, eff) = state.step(ConnEvent::ClientReadError);
    assert_eq!(state, ConnState::Closed);
    assert!(eff.cancel_channel);
    assert!(eff.shutdown_client);
    assert!(eff.release_channel);
    assert_eq!(eff.fail, Some(ConnError::Io));
}

#[test]
fn empty_chunk_is_ignored() {
    let state = relaying_state();
    let (state, eff) = state.step(ConnEvent::ClientChunk(vec![]));
    assert_eq!(state, ConnState::Relaying);
    assert_quiet(&eff);
}

#[test]
fn unexpected_event_is_fatal_to_the_connection() {
    let (state, eff) = ConnState::start().step(ConnEvent::ChannelData(vec![1]));
    assert_eq!(state, ConnState::Closed);
    assert_eq!(eff.fail, Some(ConnError::Unexpected));

    // Mid-relay, the unexpected event still cleans up.
    let (state, eff) = relaying_state().step(ConnEvent::Greeting(vec![0x05, 0x01, 0x00]));
    assert_eq!(state, ConnState::Closed);
    assert!(eff.release_channel);
    assert!(eff.shutdown_client);
    assert_eq!(eff.fail, Some(ConnError::Unexpected));
}
