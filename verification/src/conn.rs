//! The per-connection state machine: the one place every decision of a
//! connection's life is made.
//!
//! The surrounding program owns the sockets, the resolver and the shared
//! session. It reads one event at a time — bytes off the client socket, the
//! lookup outcome, the channel-open outcome, the next channel message —
//! hands the event to [`ConnState::step`], and performs the effects the
//! step returns. `step` computes exactly [`step_model`], so every property
//! of the machine is a property of that one specification.

use vstd::prelude::*;
use crate::protocol::{
    greeting_reply, greeting_reply_spec, parse_request, parse_request_spec, success_reply,
    success_reply_spec, ProtocolError, IpV4, SocksTarget, TargetModel,
};
use crate::resolver::{outcome_view, pick_resolved_address, pick_spec, ResolveError};
use crate::session::{connect_request, connect_request_spec, ChannelOpenRequest};

verus! {

/// Why a connection was torn down. Every variant is fatal to its
/// connection and to nothing else.
#[derive(Debug, Clone, Copy, PartialEq, Eq, Structural)]
pub enum ConnError {
    /// The greeting or request was malformed.
    Protocol(ProtocolError),
    /// The domain name yielded no usable address.
    Resolve(ResolveError),
    /// The shared session could not open a forwarded channel; the session
    /// is not repaired or reconnected.
    ChannelOpen,
    /// The client socket failed mid-relay.
    Io,
    /// A logic-invariant violation: an event no rule of the current state
    /// expects.
    Unexpected,
}

/// Where a connection stands, from the first greeting byte to teardown.
#[derive(Debug, PartialEq, Eq)]
pub enum ConnState {
    /// Nothing read yet; the greeting is owed.
    AwaitingGreeting,
    /// Greeting answered; the command block is owed.
    AwaitingRequest,
    /// A domain request was parsed; the lookup outcome is owed. The
    /// success reply is already built and waits for a resolved address.
    Resolving { reply: Vec<u8>, port: u16 },
    /// The channel-open round-trip is in flight.
    OpeningChannel,
    /// A channel is open and bytes are pumped both ways.
    Relaying,
    /// The connection is finished; no further effect is ever produced.
    Closed,
}

/// The mathematical shape of a connection state.
#[verifier::ext_equal]
pub enum StateModel {
    AwaitingGreeting,
    AwaitingRequest,
    Resolving { reply: Seq<u8>, port: u16 },
    OpeningChannel,
    Relaying,
    Closed,
}

impl View for ConnState {
    type V = StateModel;

    open spec fn view(&self) -> StateModel {
        match self {
            ConnState::AwaitingGreeting => StateModel::AwaitingGreeting,
            ConnState::AwaitingRequest => StateModel::AwaitingRequest,
            ConnState::Resolving { reply, port } => StateModel::Resolving {
                reply: reply@,
                port: *port,
            },
            ConnState::OpeningChannel => StateModel::OpeningChannel,
            ConnState::Relaying => StateModel::Relaying,
            ConnState::Closed => StateModel::Closed,
        }
    }
}

/// One thing the surrounding program observed and hands to the machine.
#[derive(Debug, PartialEq, Eq)]
pub enum ConnEvent {
    /// The greeting bytes as read off the socket.
    Greeting(Vec<u8>),
    /// The complete request: command block plus address block.
    Request(Vec<u8>),
    /// The lookup outcome: the record list in arrival order, or `None` on
    /// a transport failure.
    Resolved(Option<Vec<IpV4>>),
    /// Whether the channel-open round-trip produced a channel.
    ChannelOpened(bool),
    /// A chunk the client wrote; a zero-length chunk carries nothing.
    ClientChunk(Vec<u8>),
    /// The client closed its write side.
    ClientEof,
    /// Reading from the client failed.
    ClientReadError,
    /// A data message from the channel.
    ChannelData(Vec<u8>),
    /// The channel reported that the remote stream ended by signal.
    ChannelExitSignal,
    /// The channel closed with no further messages.
    ChannelEof,
}

/// The mathematical shape of an event.
#[verifier::ext_equal]
pub enum EventModel {
    Greeting(Seq<u8>),
    Request(Seq<u8>),
    Resolved(Option<Seq<IpV4>>),
    ChannelOpened(bool),
    ClientChunk(Seq<u8>),
    ClientEof,
    ClientReadError,
    ChannelData(Seq<u8>),
    ChannelExitSignal,
    ChannelEof,
}

impl View for ConnEvent {
    type V = EventModel;

    open spec fn view(&self) -> EventModel {
        match self {
            ConnEvent::Greeting(b) => EventModel::Greeting(b@),
            ConnEvent::Request(b) => EventModel::Request(b@),
            ConnEvent::Resolved(o) => EventModel::Resolved(outcome_view(*o)),
            ConnEvent::ChannelOpened(ok) => EventModel::ChannelOpened(*ok),
            ConnEvent::ClientChunk(b) => EventModel::ClientChunk(b@),
            ConnEvent::ClientEof => EventModel::ClientEof,
            ConnEvent::ClientReadError => EventModel::ClientReadError,
            ConnEvent::ChannelData(b) => EventModel::ChannelData(b@),
            ConnEvent::ChannelExitSignal => EventModel::ChannelExitSignal,
            ConnEvent::ChannelEof => EventModel::ChannelEof,
        }
    }
}

/// What one step asks the surrounding program to do, in this order: write
/// `to_client` to the client socket and flush it; send `to_channel` into
/// the channel; start a lookup of `resolve_name`; ask the shared session
/// for `open_channel`; best-effort-cancel the channel; shut the client
/// write side down; release the channel; and log `fail`.
#[derive(Debug, PartialEq, Eq)]
pub struct StepEffects {
    pub to_client: Option<Vec<u8>>,
    pub to_channel: Option<Vec<u8>>,
    pub resolve_name: Option<Vec<u8>>,
    pub open_channel: Option<ChannelOpenRequest>,
    pub cancel_channel: bool,
    pub shutdown_client: bool,
    pub release_channel: bool,
    pub fail: Option<ConnError>,
}

/// The mathematical shape of a step's effects.
#[verifier::ext_equal]
pub struct EffectsModel {
    pub to_client: Option<Seq<u8>>,
    pub to_channel: Option<Seq<u8>>,
    pub resolve_name: Option<Seq<u8>>,
    pub open_channel: Option<ChannelOpenRequest>,
    pub cancel_channel: bool,
    pub shutdown_client: bool,
    pub release_channel: bool,
    pub fail: Option<ConnError>,
}

impl View for StepEffects {
    type V = EffectsModel;

    open spec fn view(&self) -> EffectsModel {
        EffectsModel {
            to_client: match self.to_client {
                Option::Some(ref v) => Option::Some(v@),
                Option::None => Option::None,
            },
            to_channel: match self.to_channel {
                Option::Some(ref v) => Option::Some(v@),
                Option::None => Option::None,
            },
            resolve_name: match self.resolve_name {
                Option::Some(ref v) => Option::Some(v@),
                Option::None => Option::None,
            },
            open_channel: self.open_channel,
            cancel_channel: self.cancel_channel,
            shutdown_client: self.shutdown_client,
            release_channel: self.release_channel,
            fail: self.fail,
        }
    }
}

/// A step that asks nothing of the surrounding program.
pub open spec fn quiet_effects() -> EffectsModel {
    EffectsModel {
        to_client: Option::None,
        to_channel: Option::None,
        resolve_name: Option::None,
        open_channel: Option::None,
        cancel_channel: false,
        shutdown_client: false,
        release_channel: false,
        fail: Option::None,
    }
}

/// A step that only reports a fatal error; nothing was owned yet, so
/// nothing is cleaned up.
pub open spec fn fail_effects(err: ConnError) -> EffectsModel {
    EffectsModel { fail: Option::Some(err), ..quiet_effects() }
}

/// A relay-exit step: shut the client write side down and release the
/// channel, cancelling it first where asked, and log any error.
pub open spec fn exit_effects(cancel: bool, fail: Option<ConnError>) -> EffectsModel {
    EffectsModel {
        cancel_channel: cancel,
        shutdown_client: true,
        release_channel: true,
        fail,
        ..quiet_effects()
    }
}

/// The whole machine. Reading it top to bottom:
///
/// - every greeting is answered `{0x05, 0x00}`, independent of the method
///   list — a documented simplification;
/// - a request that parses to a domain starts a lookup and holds the
///   success reply back until an address arrives; an IPv4 literal bypasses
///   the resolver and asks for the channel at once; a rejected request
///   closes the connection with its `ProtocolError`, opening nothing;
/// - a lookup outcome either sends the reply and asks for a channel to the
///   first address and the parsed port, or closes with its `ResolveError`,
///   opening nothing;
/// - an open channel enters the relay; a refused one closes the
///   connection, with no repair of the shared session;
/// - in the relay, client chunks go verbatim into the channel and channel
///   data goes verbatim to the client, each in arrival order; client EOF,
///   a client read error (with a best-effort cancel), an exit signal and
///   channel EOF each leave the relay, shutting the client write side and
///   releasing the channel exactly once;
/// - a closed connection absorbs every further event and asks nothing.
pub open spec fn step_model(s: StateModel, e: EventModel) -> (StateModel, EffectsModel) {
    match s {
        StateModel::AwaitingGreeting => match e {
            EventModel::Greeting(_g) => (
                StateModel::AwaitingRequest,
                EffectsModel { to_client: Option::Some(greeting_reply_spec()), ..quiet_effects() },
            ),
            _ => (StateModel::Closed, fail_effects(ConnError::Unexpected)),
        },
        StateModel::AwaitingRequest => match e {
            EventModel::Request(b) => match parse_request_spec(b) {
                Result::Err(err) => (
                    StateModel::Closed,
                    fail_effects(ConnError::Protocol(err)),
                ),
                Result::Ok(m) => match m.target {
                    TargetModel::Domain(name) => (
                        StateModel::Resolving { reply: success_reply_spec(m), port: m.port },
                        EffectsModel { resolve_name: Option::Some(name), ..quiet_effects() },
                    ),
                    TargetModel::Ip(a) => (
                        StateModel::OpeningChannel,
                        EffectsModel {
                            to_client: Option::Some(success_reply_spec(m)),
                            open_channel: Option::Some(connect_request_spec(a, m.port)),
                            ..quiet_effects()
                        },
                    ),
                },
            },
            _ => (StateModel::Closed, fail_effects(ConnError::Unexpected)),
        },
        StateModel::Resolving { reply, port } => match e {
            EventModel::Resolved(outcome) => match pick_spec(outcome) {
                Result::Err(err) => (
                    StateModel::Closed,
                    fail_effects(ConnError::Resolve(err)),
                ),
                Result::Ok(a) => (
                    StateModel::OpeningChannel,
                    EffectsModel {
                        to_client: Option::Some(reply),
                        open_channel: Option::Some(connect_request_spec(a, port)),
                        ..quiet_effects()
                    },
                ),
            },
            _ => (StateModel::Closed, fail_effects(ConnError::Unexpected)),
        },
        StateModel::OpeningChannel => match e {
            EventModel::ChannelOpened(ok) => if ok {
                (StateModel::Relaying, quiet_effects())
            } else {
                (StateModel::Closed, fail_effects(ConnError::ChannelOpen))
            },
            _ => (StateModel::Closed, fail_effects(ConnError::Unexpected)),
        },
        StateModel::Relaying => match e {
            EventModel::ClientChunk(d) => if d.len() == 0 {
                (StateModel::Relaying, quiet_effects())
            } else {
                (
                    StateModel::Relaying,
                    EffectsModel { to_channel: Option::Some(d), ..quiet_effects() },
                )
            },
            EventModel::ChannelData(d) => (
                StateModel::Relaying,
                EffectsModel { to_client: Option::Some(d), ..quiet_effects() },
            ),
            EventModel::ClientEof => (StateModel::Closed, exit_effects(false, Option::None)),
            EventModel::ClientReadError => (
                StateModel::Closed,
                exit_effects(true, Option::Some(ConnError::Io)),
            ),
            EventModel::ChannelExitSignal => (
                StateModel::Closed,
                exit_effects(false, Option::None),
            ),
            EventModel::ChannelEof => (StateModel::Closed, exit_effects(false, Option::None)),
            _ => (StateModel::Closed, exit_effects(false, Option::Some(ConnError::Unexpected))),
        },
        StateModel::Closed => (StateModel::Closed, quiet_effects()),
    }
}

/// A `StepEffects` that asks nothing.
fn quiet() -> (r: StepEffects)
    ensures
        r@ == quiet_effects(),
{
    StepEffects {
        to_client: Option::None,
        to_channel: Option::None,
        resolve_name: Option::None,
        open_channel: Option::None,
        cancel_channel: false,
        shutdown_client: false,
        release_channel: false,
        fail: Option::None,
    }
}

impl ConnState {
    /// The state a fresh connection starts in.
    pub fn start() -> (r: ConnState)
        ensures
            r@ == StateModel::AwaitingGreeting,
    {
        ConnState::AwaitingGreeting
    }

    /// Advances the connection by one event, handing back the next state
    /// and the effects the surrounding program must perform — exactly what
    /// [`step_model`] says, for every state and every event.
    pub fn step(self, event: ConnEvent) -> (r: (ConnState, StepEffects))
        ensures
            r.0@ == step_model(self@, event@).0,
            r.1@ == step_model(self@, event@).1,
    {
        let ghost s0 = self@;
        let ghost e0 = event@;
        match (self, event) {
            (ConnState::AwaitingGreeting, ConnEvent::Greeting(_g)) => {
                let mut eff = quiet();
                eff.to_client = Option::Some(greeting_reply());
                proof {
                    assert(eff@ =~= step_model(s0, e0).1);
                }
                (ConnState::AwaitingRequest, eff)
            },
            (ConnState::AwaitingRequest, ConnEvent::Request(b)) => {
                match parse_request(b.as_slice()) {
                    Result::Err(err) => {
                        let mut eff = quiet();
                        eff.fail = Option::Some(ConnError::Protocol(err));
                        proof {
                            assert(eff@ =~= step_model(s0, e0).1);
                        }
                        (ConnState::Closed, eff)
                    },
                    Result::Ok(req) => {
                        let reply = success_reply(&req);
                        let port = req.port;
                        match req.target {
                            SocksTarget::Domain(name) => {
                                let mut eff = quiet();
                                eff.resolve_name = Option::Some(name);
                                let next = ConnState::Resolving { reply, port };
                                proof {
                                    assert(next@ =~= step_model(s0, e0).0);
                                    assert(eff@ =~= step_model(s0, e0).1);
                                }
                                (next, eff)
                            },
                            SocksTarget::Ip(a) => {
                                let mut eff = quiet();
                                eff.to_client = Option::Some(reply);
                                eff.open_channel = Option::Some(connect_request(a, port));
                                proof {
                                    assert(eff@ =~= step_model(s0, e0).1);
                                }
                                (ConnState::OpeningChannel, eff)
                            },
                        }
                    },
                }
            },
            (ConnState::Resolving { reply, port }, ConnEvent::Resolved(outcome)) => {
                match pick_resolved_address(&outcome) {
                    Result::Err(err) => {
                        let mut eff = quiet();
                        eff.fail = Option::Some(ConnError::Resolve(err));
                        proof {
                            assert(eff@ =~= step_model(s0, e0).1);
                        }
                        (ConnState::Closed, eff)
                    },
                    Result::Ok(a) => {
                        let mut eff = quiet();
                        eff.to_client = Option::Some(reply);
                        eff.open_channel = Option::Some(connect_request(a, port));
                        proof {
                            assert(eff@ =~= step_model(s0, e0).1);
                        }
                        (ConnState::OpeningChannel, eff)
                    },
                }
            },
            (ConnState::OpeningChannel, ConnEvent::ChannelOpened(ok)) => {
                if ok {
                    (ConnState::Relaying, quiet())
                } else {
                    let mut eff = quiet();
                    eff.fail = Option::Some(ConnError::ChannelOpen);
                    proof {
                        assert(eff@ =~= step_model(s0, e0).1);
                    }
                    (ConnState::Closed, eff)
                }
            },
            (ConnState::Relaying, ConnEvent::ClientChunk(d)) => {
                if d.len() == 0 {
                    (ConnState::Relaying, quiet())
                } else {
                    let mut eff = quiet();
                    eff.to_channel = Option::Some(d);
                    proof {
                        assert(eff@ =~= step_model(s0, e0).1);
                    }
                    (ConnState::Relaying, eff)
                }
            },
            (ConnState::Relaying, ConnEvent::ChannelData(d)) => {
                let mut eff = quiet();
                eff.to_client = Option::Some(d);
                proof {
                    assert(eff@ =~= step_model(s0, e0).1);
                }
                (ConnState::Relaying, eff)
            },
            (ConnState::Relaying, ConnEvent::ClientEof) => {
                let mut eff = quiet();
                eff.shutdown_client = true;
                eff.release_channel = true;
                proof {
                    assert(eff@ =~= step_model(s0, e0).1);
                }
                (ConnState::Closed, eff)
            },
            (ConnState::Relaying, ConnEvent::ClientReadError) => {
                let mut eff = quiet();
                eff.cancel_channel = true;
                eff.shutdown_client = true;
                eff.release_channel = true;
                eff.fail = Option::Some(ConnError::Io);
                proof {
                    assert(eff@ =~= step_model(s0, e0).1);
                }
                (ConnState::Closed, eff)
            },
            (ConnState::Relaying, ConnEvent::ChannelExitSignal) => {
                let mut eff = quiet();
                eff.shutdown_client = true;
                eff.release_channel = true;
                proof {
                    assert(eff@ =~= step_model(s0, e0).1);
                }
                (ConnState::Closed, eff)
            },
            (ConnState::Relaying, ConnEvent::ChannelEof) => {
                let mut eff = quiet();
                eff.shutdown_client = true;
                eff.release_channel = true;
                proof {
                    assert(eff@ =~= step_model(s0, e0).1);
                }
                (ConnState::Closed, eff)
            },
            (ConnState::Relaying, _ev) => {
                let mut eff = quiet();
                eff.shutdown_client = true;
                eff.release_channel = true;
                eff.fail = Option::Some(ConnError::Unexpected);
                proof {
                    assert(eff@ =~= step_model(s0, e0).1);
                }
                (ConnState::Closed, eff)
            },
            (ConnState::Closed, _ev) => (ConnState::Closed, quiet()),
            (_s, _ev) => {
                let mut eff = quiet();
                eff.fail = Option::Some(ConnError::Unexpected);
                proof {
                    assert(eff@ =~= step_model(s0, e0).1);
                }
                (ConnState::Closed, eff)
            },
        }
    }
}

} // verus!
