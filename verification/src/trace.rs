//! Whole-run laws of the connection machine.
//!
//! A run folds [`step_model`] over a sequence of events and collects the
//! effects of every step. The lemmas here state what any such run does:
//! a rejected request or failed lookup never opens a channel, relayed
//! bytes keep their order, and the relay cleans up exactly once.

use vstd::prelude::*;
use crate::conn::{
    fail_effects, quiet_effects, step_model, ConnError, EffectsModel, EventModel, StateModel,
};
use crate::protocol::{
    greeting_reply_spec, parse_request_spec, success_reply_spec, valid_greeting, IpV4,
    ProtocolError, TargetModel, CMD_CONNECT, SOCKS_VERSION,
};
use crate::resolver::pick_spec;
use crate::session::connect_request_spec;

verus! {

/// The state a run of the machine ends in.
pub open spec fn run_state(s: StateModel, es: Seq<EventModel>) -> StateModel
    decreases es.len(),
{
    if es.len() == 0 {
        s
    } else {
        run_state(step_model(s, es[0]).0, es.drop_first())
    }
}

/// The effects a run of the machine produces, one entry per event.
pub open spec fn run_effects(s: StateModel, es: Seq<EventModel>) -> Seq<EffectsModel>
    decreases es.len(),
{
    if es.len() == 0 {
        Seq::empty()
    } else {
        seq![step_model(s, es[0]).1] + run_effects(step_model(s, es[0]).0, es.drop_first())
    }
}

/// One where a thing was asked for, zero where it was not.
pub open spec fn one_if<A>(o: Option<A>) -> nat {
    if o is Some {
        1
    } else {
        0
    }
}

/// One where a flag was set, zero where it was not.
pub open spec fn one_where(b: bool) -> nat {
    if b {
        1
    } else {
        0
    }
}

/// How many channel-opens a run asked for.
pub open spec fn opens_of(effs: Seq<EffectsModel>) -> nat
    decreases effs.len(),
{
    if effs.len() == 0 {
        0
    } else {
        one_if(effs[0].open_channel) + opens_of(effs.drop_first())
    }
}

/// How many lookups a run asked for.
pub open spec fn resolves_of(effs: Seq<EffectsModel>) -> nat
    decreases effs.len(),
{
    if effs.len() == 0 {
        0
    } else {
        one_if(effs[0].resolve_name) + resolves_of(effs.drop_first())
    }
}

/// How many times a run released the channel.
pub open spec fn releases_of(effs: Seq<EffectsModel>) -> nat
    decreases effs.len(),
{
    if effs.len() == 0 {
        0
    } else {
        one_where(effs[0].release_channel) + releases_of(effs.drop_first())
    }
}

/// How many times a run shut the client write side down.
pub open spec fn shutdowns_of(effs: Seq<EffectsModel>) -> nat
    decreases effs.len(),
{
    if effs.len() == 0 {
        0
    } else {
        one_where(effs[0].shutdown_client) + shutdowns_of(effs.drop_first())
    }
}

/// The bytes an effect sends, or nothing.
pub open spec fn opt_bytes(o: Option<Seq<u8>>) -> Seq<u8> {
    match o {
        Option::Some(d) => d,
        Option::None => Seq::empty(),
    }
}

/// Every byte a run sent into the channel, in order.
pub open spec fn outbound_of(effs: Seq<EffectsModel>) -> Seq<u8>
    decreases effs.len(),
{
    if effs.len() == 0 {
        Seq::empty()
    } else {
        opt_bytes(effs[0].to_channel) + outbound_of(effs.drop_first())
    }
}

/// Every byte a run wrote to the client, in order.
pub open spec fn delivered_of(effs: Seq<EffectsModel>) -> Seq<u8>
    decreases effs.len(),
{
    if effs.len() == 0 {
        Seq::empty()
    } else {
        opt_bytes(effs[0].to_client) + delivered_of(effs.drop_first())
    }
}

/// Whether an event lets the relay keep running.
pub open spec fn relay_continues(e: EventModel) -> bool {
    match e {
        EventModel::ClientChunk(_) => true,
        EventModel::ChannelData(_) => true,
        _ => false,
    }
}

/// The bytes the client wrote before the first event that ends the relay,
/// concatenated in receipt order.
pub open spec fn chunks_before_exit(es: Seq<EventModel>) -> Seq<u8>
    decreases es.len(),
{
    if es.len() == 0 {
        Seq::empty()
    } else if !relay_continues(es[0]) {
        Seq::empty()
    } else {
        (match es[0] {
            EventModel::ClientChunk(d) => d,
            _ => Seq::<u8>::empty(),
        }) + chunks_before_exit(es.drop_first())
    }
}

/// The bytes the channel delivered before the first event that ends the
/// relay, concatenated in delivery order.
pub open spec fn deliveries_before_exit(es: Seq<EventModel>) -> Seq<u8>
    decreases es.len(),
{
    if es.len() == 0 {
        Seq::empty()
    } else if !relay_continues(es[0]) {
        Seq::empty()
    } else {
        (match es[0] {
            EventModel::ChannelData(d) => d,
            _ => Seq::<u8>::empty(),
        }) + deliveries_before_exit(es.drop_first())
    }
}

/// A closed connection stays closed and asks nothing more: no lookup, no
/// channel-open, no byte in either direction, no further cleanup.
pub proof fn lemma_closed_absorbs(es: Seq<EventModel>)
    ensures
        run_state(StateModel::Closed, es) == StateModel::Closed,
        opens_of(run_effects(StateModel::Closed, es)) == 0,
        resolves_of(run_effects(StateModel::Closed, es)) == 0,
        releases_of(run_effects(StateModel::Closed, es)) == 0,
        shutdowns_of(run_effects(StateModel::Closed, es)) == 0,
        outbound_of(run_effects(StateModel::Closed, es)) == Seq::<u8>::empty(),
        delivered_of(run_effects(StateModel::Closed, es)) == Seq::<u8>::empty(),
    decreases es.len(),
{
    if es.len() == 0 {
    } else {
        lemma_closed_absorbs(es.drop_first());
        let eff0 = step_model(StateModel::Closed, es[0]).1;
        let tail = run_effects(StateModel::Closed, es.drop_first());
        assert((seq![eff0] + tail).drop_first() =~= tail);
        assert(outbound_of(run_effects(StateModel::Closed, es)) =~= Seq::<u8>::empty());
        assert(delivered_of(run_effects(StateModel::Closed, es)) =~= Seq::<u8>::empty());
    }
}

/// For any well-formed greeting — version five, whatever the offered
/// method list — the reply is exactly `{0x05, 0x00}`, and the machine
/// moves on to await the request without touching resolver or session.
pub proof fn lemma_greeting_reply_fixed(g: Seq<u8>)
    requires
        valid_greeting(g),
    ensures
        step_model(StateModel::AwaitingGreeting, EventModel::Greeting(g)).0
            == StateModel::AwaitingRequest,
        step_model(StateModel::AwaitingGreeting, EventModel::Greeting(g)).1.to_client
            == Option::Some(seq![SOCKS_VERSION, 0x00u8]),
        step_model(StateModel::AwaitingGreeting, EventModel::Greeting(g)).1.open_channel
            is None,
        step_model(StateModel::AwaitingGreeting, EventModel::Greeting(g)).1.resolve_name
            is None,
{
    assert(greeting_reply_spec() =~= seq![SOCKS_VERSION, 0x00u8]);
}

/// A request the parser rejects ends the connection at once: the error is
/// reported, and over every later event no lookup starts and no channel
/// is ever opened.
pub proof fn lemma_rejected_request_is_final(b: Seq<u8>, rest: Seq<EventModel>)
    requires
        parse_request_spec(b) is Err,
    ensures
        run_state(StateModel::AwaitingRequest, seq![EventModel::Request(b)] + rest)
            == StateModel::Closed,
        opens_of(run_effects(StateModel::AwaitingRequest, seq![EventModel::Request(b)] + rest))
            == 0,
        resolves_of(run_effects(StateModel::AwaitingRequest, seq![EventModel::Request(b)] + rest))
            == 0,
        parse_request_spec(b) matches Err(err) ==> run_effects(
            StateModel::AwaitingRequest,
            seq![EventModel::Request(b)] + rest,
        )[0] == fail_effects(ConnError::Protocol(err)),
{
    let es = seq![EventModel::Request(b)] + rest;
    assert(es[0] == EventModel::Request(b));
    assert(es.drop_first() =~= rest);
    lemma_closed_absorbs(rest);
    let eff0 = step_model(StateModel::AwaitingRequest, es[0]).1;
    let tail = run_effects(StateModel::Closed, rest);
    assert((seq![eff0] + tail).drop_first() =~= tail);
}

/// Any request whose version byte is not five closes the connection with
/// `BadVersion` before any channel is opened, whatever follows.
pub proof fn lemma_bad_version_never_opens(b: Seq<u8>, rest: Seq<EventModel>)
    requires
        b.len() >= 4,
        b[0] != SOCKS_VERSION,
    ensures
        run_state(StateModel::AwaitingRequest, seq![EventModel::Request(b)] + rest)
            == StateModel::Closed,
        opens_of(run_effects(StateModel::AwaitingRequest, seq![EventModel::Request(b)] + rest))
            == 0,
        resolves_of(run_effects(StateModel::AwaitingRequest, seq![EventModel::Request(b)] + rest))
            == 0,
        run_effects(StateModel::AwaitingRequest, seq![EventModel::Request(b)] + rest)[0]
            == fail_effects(ConnError::Protocol(ProtocolError::BadVersion)),
{
    lemma_rejected_request_is_final(b, rest);
}

/// Any request whose command byte is not CONNECT closes the connection
/// with `UnsupportedCommand` before any channel is opened, whatever
/// follows.
pub proof fn lemma_bad_command_never_opens(b: Seq<u8>, rest: Seq<EventModel>)
    requires
        b.len() >= 4,
        b[0] == SOCKS_VERSION,
        b[1] != CMD_CONNECT,
    ensures
        run_state(StateModel::AwaitingRequest, seq![EventModel::Request(b)] + rest)
            == StateModel::Closed,
        opens_of(run_effects(StateModel::AwaitingRequest, seq![EventModel::Request(b)] + rest))
            == 0,
        resolves_of(run_effects(StateModel::AwaitingRequest, seq![EventModel::Request(b)] + rest))
            == 0,
        run_effects(StateModel::AwaitingRequest, seq![EventModel::Request(b)] + rest)[0]
            == fail_effects(ConnError::Protocol(ProtocolError::UnsupportedCommand)),
{
    lemma_rejected_request_is_final(b, rest);
}

/// A lookup that yields at least one address sends the held-back success
/// reply and asks for exactly one channel, to the first address of the
/// list and the parsed port; a lookup that yields none closes the
/// connection with its `ResolveError` and asks for no channel.
pub proof fn lemma_resolution_decides(reply: Seq<u8>, port: u16, outcome: Option<Seq<IpV4>>)
    ensures
        outcome matches Option::Some(addrs) ==> (addrs.len() > 0 ==> step_model(
            StateModel::Resolving { reply, port },
            EventModel::Resolved(outcome),
        ) == (
            StateModel::OpeningChannel,
            EffectsModel {
                to_client: Option::Some(reply),
                open_channel: Option::Some(connect_request_spec(addrs[0], port)),
                ..quiet_effects()
            },
        )),
        pick_spec(outcome) matches Err(err) ==> step_model(
            StateModel::Resolving { reply, port },
            EventModel::Resolved(outcome),
        ) == (StateModel::Closed, fail_effects(ConnError::Resolve(err))),
{
}

/// After a lookup that yields no usable address — zero records, or a
/// failed lookup — no channel is ever opened, whatever follows.
pub proof fn lemma_resolve_failure_never_opens(
    reply: Seq<u8>,
    port: u16,
    outcome: Option<Seq<IpV4>>,
    rest: Seq<EventModel>,
)
    requires
        pick_spec(outcome) is Err,
    ensures
        run_state(StateModel::Resolving { reply, port }, seq![EventModel::Resolved(outcome)] + rest)
            == StateModel::Closed,
        opens_of(run_effects(
            StateModel::Resolving { reply, port },
            seq![EventModel::Resolved(outcome)] + rest,
        )) == 0,
        pick_spec(outcome) matches Err(err) ==> run_effects(
            StateModel::Resolving { reply, port },
            seq![EventModel::Resolved(outcome)] + rest,
        )[0] == fail_effects(ConnError::Resolve(err)),
{
    let es = seq![EventModel::Resolved(outcome)] + rest;
    assert(es[0] == EventModel::Resolved(outcome));
    assert(es.drop_first() =~= rest);
    lemma_closed_absorbs(rest);
    let eff0 = step_model(StateModel::Resolving { reply, port }, es[0]).1;
    let tail = run_effects(StateModel::Closed, rest);
    assert((seq![eff0] + tail).drop_first() =~= tail);
}

/// One step of a run, unfolded: the first event contributes its effects
/// and the rest of the run continues from the stepped state.
pub proof fn lemma_run_unfold(s: StateModel, e: EventModel, rest: Seq<EventModel>)
    ensures
        run_state(s, seq![e] + rest) == run_state(step_model(s, e).0, rest),
        run_effects(s, seq![e] + rest) == seq![step_model(s, e).1] + run_effects(
            step_model(s, e).0,
            rest,
        ),
        opens_of(run_effects(s, seq![e] + rest)) == one_if(step_model(s, e).1.open_channel)
            + opens_of(run_effects(step_model(s, e).0, rest)),
        resolves_of(run_effects(s, seq![e] + rest)) == one_if(step_model(s, e).1.resolve_name)
            + resolves_of(run_effects(step_model(s, e).0, rest)),
{
    let es = seq![e] + rest;
    assert(es[0] == e);
    assert(es.drop_first() =~= rest);
    let f = step_model(s, e).1;
    let tail = run_effects(step_model(s, e).0, rest);
    assert((seq![f] + tail).drop_first() =~= tail);
    assert((seq![f] + tail)[0] == f);
}

/// A request that parses to a domain name starts exactly one lookup, with
/// that name; the success reply is held back, and nothing is sent and no
/// channel asked for until an address arrives.
pub proof fn lemma_domain_request_starts_lookup(b: Seq<u8>)
    ensures
        parse_request_spec(b) matches Ok(m) ==> (m.target matches TargetModel::Domain(name)
            ==> step_model(StateModel::AwaitingRequest, EventModel::Request(b)) == (
            StateModel::Resolving { reply: success_reply_spec(m), port: m.port },
            EffectsModel { resolve_name: Option::Some(name), ..quiet_effects() },
        )),
{
}

/// The canonical life of a tunneled connection: a well-formed greeting, a
/// domain request, a lookup that yields at least one address and a
/// successful channel open lead into the relay, with exactly one lookup
/// and exactly one channel-open asked for on the way.
pub proof fn lemma_happy_path_reaches_relay(g: Seq<u8>, b: Seq<u8>, addrs: Seq<IpV4>)
    requires
        valid_greeting(g),
        parse_request_spec(b) matches Ok(m) && m.target is Domain,
        addrs.len() > 0,
    ensures
        run_state(
            StateModel::AwaitingGreeting,
            seq![
                EventModel::Greeting(g),
                EventModel::Request(b),
                EventModel::Resolved(Option::Some(addrs)),
                EventModel::ChannelOpened(true),
            ],
        ) == StateModel::Relaying,
        opens_of(run_effects(
            StateModel::AwaitingGreeting,
            seq![
                EventModel::Greeting(g),
                EventModel::Request(b),
                EventModel::Resolved(Option::Some(addrs)),
                EventModel::ChannelOpened(true),
            ],
        )) == 1,
        resolves_of(run_effects(
            StateModel::AwaitingGreeting,
            seq![
                EventModel::Greeting(g),
                EventModel::Request(b),
                EventModel::Resolved(Option::Some(addrs)),
                EventModel::ChannelOpened(true),
            ],
        )) == 1,
{
    let e1 = EventModel::Greeting(g);
    let e2 = EventModel::Request(b);
    let e3 = EventModel::Resolved(Option::Some(addrs));
    let e4 = EventModel::ChannelOpened(true);
    let l4: Seq<EventModel> = Seq::empty();
    let l3 = seq![e4] + l4;
    let l2 = seq![e3] + l3;
    let l1 = seq![e2] + l2;
    let l0 = seq![e1] + l1;
    assert(l0 =~= seq![e1, e2, e3, e4]);
    let s0 = StateModel::AwaitingGreeting;
    let s1 = step_model(s0, e1).0;
    let s2 = step_model(s1, e2).0;
    let s3 = step_model(s2, e3).0;
    let s4 = step_model(s3, e4).0;
    assert(s1 == StateModel::AwaitingRequest);
    assert(s2 is Resolving);
    assert(s3 == StateModel::OpeningChannel);
    assert(s4 == StateModel::Relaying);
    lemma_run_unfold(s0, e1, l1);
    lemma_run_unfold(s1, e2, l2);
    lemma_run_unfold(s2, e3, l3);
    lemma_run_unfold(s3, e4, l4);
}

/// Bytes the client wrote before the event that ends the relay go into
/// the channel exactly and in receipt order; bytes the channel delivered
/// before that event go to the client exactly and in delivery order.
pub proof fn lemma_relay_preserves_order(es: Seq<EventModel>)
    ensures
        outbound_of(run_effects(StateModel::Relaying, es)) == chunks_before_exit(es),
        delivered_of(run_effects(StateModel::Relaying, es)) == deliveries_before_exit(es),
    decreases es.len(),
{
    if es.len() == 0 {
    } else {
        let e0 = es[0];
        let tail_es = es.drop_first();
        let ns = step_model(StateModel::Relaying, e0).0;
        let eff0 = step_model(StateModel::Relaying, e0).1;
        let effs = run_effects(StateModel::Relaying, es);
        let tail = run_effects(ns, tail_es);
        assert(effs == seq![eff0] + tail);
        assert((seq![eff0] + tail).drop_first() =~= tail);
        match e0 {
            EventModel::ClientChunk(d) => {
                lemma_relay_preserves_order(tail_es);
                if d.len() == 0 {
                    assert(d =~= Seq::<u8>::empty());
                }
                assert(outbound_of(effs) =~= chunks_before_exit(es));
                assert(delivered_of(effs) =~= deliveries_before_exit(es));
            },
            EventModel::ChannelData(d) => {
                lemma_relay_preserves_order(tail_es);
                assert(outbound_of(effs) =~= chunks_before_exit(es));
                assert(delivered_of(effs) =~= deliveries_before_exit(es));
            },
            EventModel::ClientEof => {
                lemma_closed_absorbs(tail_es);
                assert(outbound_of(effs) =~= chunks_before_exit(es));
                assert(delivered_of(effs) =~= deliveries_before_exit(es));
            },
            EventModel::ClientReadError => {
                lemma_closed_absorbs(tail_es);
                assert(outbound_of(effs) =~= chunks_before_exit(es));
                assert(delivered_of(effs) =~= deliveries_before_exit(es));
            },
            EventModel::ChannelExitSignal => {
                lemma_closed_absorbs(tail_es);
                assert(outbound_of(effs) =~= chunks_before_exit(es));
                assert(delivered_of(effs) =~= deliveries_before_exit(es));
            },
            EventModel::ChannelEof => {
                lemma_closed_absorbs(tail_es);
                assert(outbound_of(effs) =~= chunks_before_exit(es));
                assert(delivered_of(effs) =~= deliveries_before_exit(es));
            },
            EventModel::Greeting(_) => {
                lemma_closed_absorbs(tail_es);
                assert(outbound_of(effs) =~= chunks_before_exit(es));
                assert(delivered_of(effs) =~= deliveries_before_exit(es));
            },
            EventModel::Request(_) => {
                lemma_closed_absorbs(tail_es);
                assert(outbound_of(effs) =~= chunks_before_exit(es));
                assert(delivered_of(effs) =~= deliveries_before_exit(es));
            },
            EventModel::Resolved(_) => {
                lemma_closed_absorbs(tail_es);
                assert(outbound_of(effs) =~= chunks_before_exit(es));
                assert(delivered_of(effs) =~= deliveries_before_exit(es));
            },
            EventModel::ChannelOpened(_) => {
                lemma_closed_absorbs(tail_es);
                assert(outbound_of(effs) =~= chunks_before_exit(es));
                assert(delivered_of(effs) =~= deliveries_before_exit(es));
            },
        }
    }
}

/// However the relay ends, the client write side is shut and the channel
/// released exactly once; while it still runs, neither has happened. From
/// the relay the machine only ever stands in `Relaying` or `Closed`.
pub proof fn lemma_relay_cleanup_exactly_once(es: Seq<EventModel>)
    ensures
        run_state(StateModel::Relaying, es) == StateModel::Relaying || run_state(
            StateModel::Relaying,
            es,
        ) == StateModel::Closed,
        run_state(StateModel::Relaying, es) == StateModel::Closed ==> releases_of(run_effects(
            StateModel::Relaying,
            es,
        )) == 1 && shutdowns_of(run_effects(StateModel::Relaying, es)) == 1,
        run_state(StateModel::Relaying, es) == StateModel::Relaying ==> releases_of(run_effects(
            StateModel::Relaying,
            es,
        )) == 0 && shutdowns_of(run_effects(StateModel::Relaying, es)) == 0,
    decreases es.len(),
{
    if es.len() == 0 {
    } else {
        let e0 = es[0];
        let tail_es = es.drop_first();
        let ns = step_model(StateModel::Relaying, e0).0;
        let eff0 = step_model(StateModel::Relaying, e0).1;
        let tail = run_effects(ns, tail_es);
        assert((seq![eff0] + tail).drop_first() =~= tail);
        match e0 {
            EventModel::ClientChunk(_d) => {
                lemma_relay_cleanup_exactly_once(tail_es);
            },
            EventModel::ChannelData(_d) => {
                lemma_relay_cleanup_exactly_once(tail_es);
            },
            EventModel::ClientEof => {
                lemma_closed_absorbs(tail_es);
            },
            EventModel::ClientReadError => {
                lemma_closed_absorbs(tail_es);
            },
            EventModel::ChannelExitSignal => {
                lemma_closed_absorbs(tail_es);
            },
            EventModel::ChannelEof => {
                lemma_closed_absorbs(tail_es);
            },
            EventModel::Greeting(_) => {
                lemma_closed_absorbs(tail_es);
            },
            EventModel::Request(_) => {
                lemma_closed_absorbs(tail_es);
            },
            EventModel::Resolved(_) => {
                lemma_closed_absorbs(tail_es);
            },
            EventModel::ChannelOpened(_) => {
                lemma_closed_absorbs(tail_es);
            },
        }
    }
}

} // verus!
