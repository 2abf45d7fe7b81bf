//! What holds of a relay over several steps.

use vstd::prelude::*;

use super::behaviour::{not_listened, ConnectReply, State};
use super::event::{ConnectionHandlerInEvent, ConnectionHandlerOutEvent, Event};
use super::upgrade::inbound::{DialDecision, ListenDecision};
use super::upgrade::ConnectRequest;
use crate::address::{Multiaddr, PeerId};
use crate::connection::Connection;
use crate::message::DialRequest;
use crate::server::handler::{reported, requested};
use crate::swarm::{
    only_events, ConnectionEvent, NegotiationError, NetworkBehaviourAction, Polled,
};

verus! {

/// An endpoint that listens is never forgotten.
pub proof fn lemma_listening_only_grows<S, O, Q>(
    s: State<O, Q>,
    event: ConnectionHandlerOutEvent<S>,
    received: Option<ConnectRequest<O>>,
)
    ensures
        s.listening.subset_of(s.on_connection_handler_event(event).0.listening),
        s.listening == s.poll::<S>(received).0.listening,
        event matches ConnectionHandlerOutEvent::ListenSuccess { listen_peer_id, .. }
            ==> s.on_connection_handler_event(event).0.listening.contains(listen_peer_id@),
{
}

/// A dial to an endpoint that does not listen is refused at once, with the reason, and reported.
/// Nothing is asked of the endpoint, and nobody waits for it.
pub proof fn lemma_not_listening_is_refused<S, O, Q>(s: State<O, Q>, request: ConnectRequest<O>)
    requires
        !s.listening.contains(request.dst_peer_id@),
    ensures
        s.poll::<S>(Some(request)).0 == s,
        s.poll::<S>(Some(request)).1.reply == Some(
            ConnectReply::<S, O> {
                sender: request.connection_sender,
                result: Err(not_listened(request.dst_peer_id)),
            },
        ),
        s.poll::<S>(Some(request)).1.polled == Polled::Ready(
            super::behaviour::Action::<Q>::GenerateEvent(
                Event::ConnectToNotListenPeer {
                    dialer_addr: request.dialer_addr,
                    dst_peer_id: request.dst_peer_id,
                },
            ),
        ),
{
}

/// A dial to an endpoint that listens is answered by that endpoint. The request goes to a handler of
/// the endpoint; whether the exchange there succeeds or fails, what is reported of it is a reply
/// through the sender of the request, and the dialer waits no longer.
pub proof fn lemma_connect_is_answered<S, O, Q>(
    s: State<O, Q>,
    request: ConnectRequest<O>,
    connection: Connection<S>,
    error: NegotiationError,
)
    requires
        s.listening.contains(request.dst_peer_id@),
    ensures
        ({
            let (asked, outcome) = s.poll::<S>(Some(request));
            let notified = outcome.polled->Ready_0;
            let substream = requested::<S>(notified->NotifyHandler_event);
            let info = substream->OutboundSubstreamRequest_info;
            let success = reported::<S>(
                ConnectionEvent::FullyNegotiatedOutbound { protocol: connection, info },
            );
            let failure = reported::<S>(ConnectionEvent::DialUpgradeError { info, error });
            &&& outcome.reply is None
            &&& outcome.polled is Ready
            &&& notified is NotifyHandler
            &&& notified->NotifyHandler_peer_id == request.dst_peer_id
            &&& substream is OutboundSubstreamRequest
            &&& success is Some
            &&& asked.on_connection_handler_event(success->0).1.reply == Some(
                ConnectReply::<S, O> {
                    sender: request.connection_sender,
                    result: Ok(connection),
                },
            )
            &&& asked.on_connection_handler_event(success->0).0.connecting == s.connecting.remove(
                request.dst_peer_id@,
            )
            &&& failure is Some
            &&& asked.on_connection_handler_event(failure->0).1.reply == Some(
                ConnectReply::<S, O> {
                    sender: request.connection_sender,
                    result: Err(error.io_error()),
                },
            )
            &&& asked.on_connection_handler_event(failure->0).0.connecting == s.connecting.remove(
                request.dst_peer_id@,
            )
        }),
{
    let peer = request.dst_peer_id@;
    assert(s.connecting.insert(peer, request.connection_sender).remove(peer)
        =~= s.connecting.remove(peer));
}

/// What is reported of one endpoint answers no dialer that waits for another.
pub proof fn lemma_others_keep_waiting<S, O, Q>(
    s: State<O, Q>,
    event: ConnectionHandlerOutEvent<S>,
    other: Seq<u8>,
)
    requires
        event matches ConnectionHandlerOutEvent::ConnectSuccess { dst_peer_id, .. }
            ==> dst_peer_id@ != other,
        event matches ConnectionHandlerOutEvent::ConnectFailed { dst_peer_id, .. }
            ==> dst_peer_id@ != other,
        s.connecting.contains_key(other),
    ensures
        s.on_connection_handler_event(event).0.connecting.contains_key(other),
        s.on_connection_handler_event(event).0.connecting[other] == s.connecting[other],
{
}

/// A dialer is answered at most once: what is reported of an endpoint a second time, with no request
/// for it in between, is for nobody.
pub proof fn lemma_answered_once<S, O, Q>(
    s: State<O, Q>,
    first: ConnectionHandlerOutEvent<S>,
    second: ConnectionHandlerOutEvent<S>,
    dst_peer_id: PeerId,
)
    requires
        answers(first, dst_peer_id),
        answers(second, dst_peer_id),
    ensures
        s.on_connection_handler_event(first).0.on_connection_handler_event(second).1.reply is None,
        s.on_connection_handler_event(first).0.on_connection_handler_event(second).0
            == s.on_connection_handler_event(first).0,
{
    let after = s.on_connection_handler_event(first).0;
    assert(after.connecting.remove(dst_peer_id@) =~= after.connecting);
}

/// What is reported is how a request to an endpoint went.
pub open spec fn answers<S>(event: ConnectionHandlerOutEvent<S>, peer: PeerId) -> bool {
    match event {
        ConnectionHandlerOutEvent::ConnectSuccess { dst_peer_id, .. } => dst_peer_id == peer,
        ConnectionHandlerOutEvent::ConnectFailed { dst_peer_id, .. } => dst_peer_id == peer,
        _ => false,
    }
}

/// Data is forwarded only between the two ends of a dial that is done, and the swarm is told so.
pub proof fn lemma_copy_is_reported<S, O, Q>(s: State<O, Q>, event: ConnectionHandlerOutEvent<S>)
    ensures
        s.on_connection_handler_event(event).1.copy is Some <==> event is DialSuccess,
        s.on_connection_handler_event(event).1.copy matches Some((dialer, dialed)) ==> {
            &&& event == (ConnectionHandlerOutEvent::DialSuccess {
                dialer_connection: dialer,
                connection: dialed,
            })
            &&& s.on_connection_handler_event(event).0.actions == s.actions.push(
                NetworkBehaviourAction::GenerateEvent(
                    Event::StartCopy {
                        dialer_addr: dialer.remote_addr,
                        dst_addr: dialed.remote_addr,
                    },
                ),
            )
        },
{
}

/// A request to dial that arrives is either refused with an answer or put to the behaviour, the
/// latter exactly if both of its texts can be read.
pub proof fn lemma_dial_is_decided(
    decision: DialDecision,
    dialer_addr: Multiaddr,
    request: DialRequest,
    peer_id: Result<Seq<u8>, Seq<char>>,
    addr: Result<Seq<u8>, Seq<char>>,
)
    requires
        decision.decides(dialer_addr, request, peer_id, addr),
    ensures
        decision !is Fail,
        decision is Ask <==> peer_id is Ok && addr is Ok,
{
}

/// A request to be listened for that arrives is always answered, and granted exactly if both of its
/// texts can be read.
pub proof fn lemma_listen_is_answered(
    decision: ListenDecision,
    request: crate::message::ListenRequest,
    peer_id: Result<Seq<u8>, Seq<char>>,
    addr: Result<Seq<u8>, Seq<char>>,
)
    requires
        decision.decides(request, peer_id, addr),
    ensures
        decision !is Fail,
        decision is Accept <==> peer_id is Ok && addr is Ok,
{
}

/// Anything that can happen to a relay.
pub enum Operation<S, O> {
    Poll(Option<ConnectRequest<O>>),
    HandlerEvent(ConnectionHandlerOutEvent<S>),
}

impl<O, Q> State<O, Q> {
    /// What the relay becomes by one operation after the other.
    pub open spec fn apply_all<S>(self, operations: Seq<Operation<S, O>>) -> Self
        decreases operations.len(),
    {
        if operations.len() == 0 {
            self
        } else {
            match operations[0] {
                Operation::Poll(received) => self.poll::<S>(received).0,
                Operation::HandlerEvent(event) => self.on_connection_handler_event(event).0,
            }.apply_all(operations.drop_first())
        }
    }

    /// Dialers wait only for endpoints that listen, and only events are kept for the swarm.
    pub open spec fn consistent(self) -> bool {
        self.connecting.dom().subset_of(self.listening) && only_events(self.actions)
    }
}

/// Whatever happens to a relay, dialers wait only for endpoints that listen, and an endpoint that
/// listened once still counts as listening.
pub proof fn lemma_always_consistent<S, O, Q>(s: State<O, Q>, operations: Seq<Operation<S, O>>)
    requires
        s.consistent(),
    ensures
        s.apply_all(operations).consistent(),
        s.listening.subset_of(s.apply_all(operations).listening),
    decreases operations.len(),
{
    if operations.len() > 0 {
        let next = match operations[0] {
            Operation::Poll(received) => s.poll::<S>(received).0,
            Operation::HandlerEvent(event) => s.on_connection_handler_event(event).0,
        };
        assert(next.consistent());
        assert(s.listening.subset_of(next.listening));
        lemma_always_consistent(next, operations.drop_first());
    }
}

} // verus!
