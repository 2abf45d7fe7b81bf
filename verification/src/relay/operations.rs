//! What each operation of a relay does, in terms of what goes in and what comes out: its behaviour,
//! its connection handlers, and its exchanges with endpoints.

use vstd::prelude::*;

use super::behaviour::{Behaviour, HandlerOutcome, PollOutcome, State};
use super::event::{ConnectionHandlerInEvent, ConnectionHandlerOutEvent, Event};
use super::upgrade::inbound::{
    decide_listen, upgrade_inbound, Dial, DialAnswer, DialDecision, Dialed, ListenDecision,
};
use super::upgrade::{
    ConnectRequest, InboundUpgrade, ListenRequest, UpgradeAction, UpgradeError,
};
use crate::address::{
    multiaddr_of_text, multiaddr_text, peer_id_of_text, peer_id_text, Multiaddr, PeerId,
};
use crate::connection::Connection;
use crate::error::{Cause, IoError, IoErrorKind};
use crate::message::{ConnectResponse, DialRequest, Outcome};
use crate::server::handler::{
    ConnectionHandler, HandlerEvent, InboundOutput, IntoConnectionHandler, OutboundOpenInfo,
};
use crate::server::upgrade::OutboundUpgrade;
use crate::swarm::{
    ConnectionEvent, FromSwarm, KeepAlive, NetworkBehaviourAction, NotifyHandler, Polled,
};

verus! {

/// A request for a connection to an endpoint that listens goes to a handler of that endpoint, with
/// the address it is for and the dialer's. The dialer waits for the endpoint from then on; a dialer
/// that waited for the same endpoint is forgotten, and the others wait on.
pub proof fn lemma_request_goes_to_listener<S, O, Q>(
    b: &mut Behaviour<O, Q>,
    request: ConnectRequest<O>,
    outcome: PollOutcome<S, O, Q>,
)
    requires
        old(b).wf(),
        old(b).listening_clients@.contains_key(request.dst_peer_id@),
        call_ensures(Behaviour::<O, Q>::poll::<S>, (b, Some(request)), outcome),
    ensures
        outcome.reply is None,
        outcome.polled matches Polled::Ready(
            NetworkBehaviourAction::NotifyHandler { peer_id, handler, event },
        ) && peer_id == request.dst_peer_id && handler == NotifyHandler::Any && event == (
        ConnectionHandlerInEvent::Connect {
            dst_addr: request.dst_addr,
            dst_peer_id: request.dst_peer_id,
            dialer_addr: request.dialer_addr,
        }),
        final(b).connecting_requests@ == old(b).connecting_requests@.insert(
            request.dst_peer_id@,
            request.connection_sender,
        ),
        final(b)@ == (State { connecting: final(b)@.connecting, ..old(b)@ }),
{
}

/// A request for a connection to an endpoint that does not listen is refused through the sender of
/// the request, with the peer that does not listen as the reason. The swarm is told who asked for
/// whom, and the relay is left as it is.
pub proof fn lemma_request_is_refused<S, O, Q>(
    b: &mut Behaviour<O, Q>,
    request: ConnectRequest<O>,
    outcome: PollOutcome<S, O, Q>,
)
    requires
        old(b).wf(),
        !old(b).listening_clients@.contains_key(request.dst_peer_id@),
        call_ensures(Behaviour::<O, Q>::poll::<S>, (b, Some(request)), outcome),
    ensures
        outcome.reply matches Some(reply) && reply.sender == request.connection_sender
            && reply.result == Err::<Connection<S>, IoError>(
            IoError::Caused {
                kind: IoErrorKind::ConnectionRefused,
                cause: Cause::PeerNotListened { dst_peer_id: request.dst_peer_id },
            },
        ),
        outcome.polled matches Polled::Ready(
            NetworkBehaviourAction::GenerateEvent(
                Event::ConnectToNotListenPeer { dialer_addr, dst_peer_id },
            ),
        ) && dialer_addr == request.dialer_addr && dst_peer_id == request.dst_peer_id,
        final(b)@ == old(b)@,
{
}

/// A poll without a request gives the swarm what it is still to be told, in order and one by one,
/// and is pending when there is nothing.
pub proof fn lemma_events_are_given<S, O, Q>(
    b: &mut Behaviour<O, Q>,
    outcome: PollOutcome<S, O, Q>,
)
    requires
        old(b).wf(),
        call_ensures(Behaviour::<O, Q>::poll::<S>, (b, None), outcome),
    ensures
        outcome.reply is None,
        old(b).pending_actions@ == match outcome.polled {
            Polled::Ready(action) => seq![action] + final(b).pending_actions@,
            Polled::Pending => Seq::empty(),
        },
        outcome.polled is Pending ==> final(b).pending_actions@.len() == 0,
        final(b)@ == (State { actions: final(b)@.actions, ..old(b)@ }),
{
    let actions = old(b).pending_actions@;
    assert(old(b)@.actions == actions);
    assert(final(b)@.actions == final(b).pending_actions@);
    if actions.len() > 0 {
        assert(actions =~= seq![actions[0]] + actions.drop_first());
    } else {
        assert(actions =~= Seq::empty());
    }
}

/// What is reported to the swarm comes behind all else that it is still to be told.
pub open spec fn is_reported<O, Q>(
    before: Behaviour<O, Q>,
    after: Behaviour<O, Q>,
    event: Event,
) -> bool {
    after.pending_actions@ == before.pending_actions@.push(
        NetworkBehaviourAction::GenerateEvent(event),
    )
}

/// What comes of a dial goes to the dialer that waits for the endpoint, and to no other, through its
/// own sender: the connection, or the error. It waits no longer, and the others wait on. If nobody
/// waits for the endpoint, nobody is told.
pub proof fn lemma_dialer_is_answered<S, O, Q>(
    b: &mut Behaviour<O, Q>,
    event: ConnectionHandlerOutEvent<S>,
    peer: PeerId,
    result: Result<Connection<S>, IoError>,
    outcome: HandlerOutcome<S, O>,
)
    requires
        old(b).wf(),
        match event {
            ConnectionHandlerOutEvent::ConnectSuccess { connection, dst_peer_id, .. } => {
                dst_peer_id == peer && result == Ok::<Connection<S>, IoError>(connection)
            },
            ConnectionHandlerOutEvent::ConnectFailed { err, dst_peer_id, .. } => {
                dst_peer_id == peer && result == Err::<Connection<S>, IoError>(err)
            },
            _ => false,
        },
        call_ensures(Behaviour::<O, Q>::on_connection_handler_event::<S>, (b, event), outcome),
    ensures
        outcome.reply is Some <==> old(b).connecting_requests@.contains_key(peer@),
        outcome.reply matches Some(reply) ==> {
            &&& reply.sender == old(b).connecting_requests@[peer@]
            &&& reply.result == result
        },
        outcome.copy is None,
        !outcome.wake,
        final(b).connecting_requests@ == old(b).connecting_requests@.remove(peer@),
        final(b)@ == (State { connecting: final(b)@.connecting, ..old(b)@ }),
{
}

/// What comes of an exchange that an endpoint began is reported to the swarm: two connections of a
/// dial as the copy between them, from the dialer's end to the destination's, which is begun at once
/// in the same order; an endpoint that listens, which counts as listening from then on, with its
/// address; and a failure with its error. Nobody waits longer or shorter for it, and the task is
/// woken.
pub proof fn lemma_handler_is_heard<S, O, Q>(
    b: &mut Behaviour<O, Q>,
    event: ConnectionHandlerOutEvent<S>,
    outcome: HandlerOutcome<S, O>,
)
    requires
        old(b).wf(),
        call_ensures(Behaviour::<O, Q>::on_connection_handler_event::<S>, (b, event), outcome),
    ensures
        event matches ConnectionHandlerOutEvent::DialSuccess { dialer_connection, connection } ==> {
            &&& outcome.copy == Some((dialer_connection, connection))
            &&& is_reported(
                *old(b),
                *final(b),
                Event::StartCopy {
                    dialer_addr: dialer_connection.remote_addr,
                    dst_addr: connection.remote_addr,
                },
            )
            &&& final(b)@.listening == old(b)@.listening
        },
        event matches ConnectionHandlerOutEvent::ListenSuccess { listen_peer_id, listen_addr } ==> {
            &&& outcome.copy is None
            &&& is_reported(*old(b), *final(b), Event::Listen { listen_peer_id, listen_addr })
            &&& forall|peer: Seq<u8>| #[trigger]
                final(b).listening_clients@.contains_key(peer) <==> peer == listen_peer_id@ || old(
                    b,
                ).listening_clients@.contains_key(peer)
        },
        event matches ConnectionHandlerOutEvent::ListenOrDialFailed { err } ==> {
            &&& outcome.copy is None
            &&& is_reported(*old(b), *final(b), Event::ListenOrDialFailed { err })
            &&& final(b)@.listening == old(b)@.listening
        },
        event is DialSuccess || event is ListenSuccess || event is ListenOrDialFailed ==> {
            &&& outcome.reply is None
            &&& outcome.wake
            &&& final(b).connecting_requests@ == old(b).connecting_requests@
            &&& final(b).connect_request_sender == old(b).connect_request_sender
        },
{
    assert(final(b)@.actions == final(b).pending_actions@);
    if let ConnectionHandlerOutEvent::ListenSuccess { listen_peer_id, listen_addr } = event {
        assert(final(b)@.listening == old(b)@.listening.insert(listen_peer_id@));
        assert forall|peer: Seq<u8>| #[trigger]
            final(b).listening_clients@.contains_key(peer) <==> peer == listen_peer_id@ || old(
                b,
            ).listening_clients@.contains_key(peer) by {
            assert(final(b)@.listening.contains(peer) == final(b).listening_clients@.contains_key(
                peer,
            ));
            assert(old(b)@.listening.contains(peer) == old(b).listening_clients@.contains_key(peer));
        }
    }
}

/// A fresh relay knows no endpoint that listens and no dialer that waits, and has nothing to tell.
/// Nothing that the swarm says matters to it.
pub proof fn lemma_fresh_relay<O, Q>(
    connect_request_sender: Q,
    fresh: Behaviour<O, Q>,
    b: &mut Behaviour<O, Q>,
    event: FromSwarm,
    r: (),
)
    requires
        call_ensures(Behaviour::<O, Q>::new, (connect_request_sender,), fresh),
        call_ensures(Behaviour::<O, Q>::on_swarm_event, (b, event), r),
    ensures
        fresh.wf(),
        fresh@.listening == Set::<Seq<u8>>::empty(),
        fresh.connecting_requests@ == Map::<Seq<u8>, O>::empty(),
        fresh.pending_actions@.len() == 0,
        fresh.connect_request_sender == connect_request_sender,
        *final(b) == *old(b),
{
    assert(fresh@.actions.len() == 0);
}

/// The handlers of a relay keep their connections, and share the sender of requests. What the
/// endpoint opens is answered for the address that it comes from, once that is known.
pub proof fn lemma_fresh_handler<S, O, Q: Clone>(
    b: Behaviour<O, Q>,
    made: IntoConnectionHandler<Q>,
    sender: Q,
    waiting: IntoConnectionHandler<Q>,
    early: InboundUpgrade<Q>,
    remote_addr: Multiaddr,
    handler: ConnectionHandler<S, Q>,
    inbound: InboundUpgrade<Q>,
    keep: KeepAlive,
)
    requires
        call_ensures(Behaviour::<O, Q>::new_handler, (&b,), made),
        call_ensures(IntoConnectionHandler::<Q>::new, (sender,), waiting),
        call_ensures(IntoConnectionHandler::<Q>::inbound_protocol, (&waiting,), early),
        call_ensures(
            IntoConnectionHandler::<Q>::into_handler::<S>,
            (waiting, &remote_addr),
            handler,
        ),
        call_ensures(ConnectionHandler::<S, Q>::listen_protocol, (&handler,), inbound),
        call_ensures(ConnectionHandler::<S, Q>::connection_keep_alive, (&handler,), keep),
    ensures
        made.keepalive == KeepAlive::Yes,
        cloned(b.connect_request_sender, made.connect_request_sender),
        early.remote_addr is None,
        cloned(sender, early.connect_request_sender),
        inbound.remote_addr == Some(remote_addr),
        cloned(sender, inbound.connect_request_sender),
        handler.pending_events@.len() == 0,
        keep == KeepAlive::Yes,
{
}

/// The handlers differ in nothing but what they have to ask of their connection.
pub open spec fn same_but_events<S, Q>(
    before: ConnectionHandler<S, Q>,
    after: ConnectionHandler<S, Q>,
) -> bool {
    &&& after.keepalive == before.keepalive
    &&& after.remote_addr == before.remote_addr
    &&& after.connect_request_sender == before.connect_request_sender
}

/// A handler that is asked to connect opens a substream for just that: the exchange on it offers the
/// endpoint a connection from the dialer's address, for the peer and the address that it is for, and
/// these are kept with the substream. It comes behind all that the handler has to ask already, and a
/// handler gives what it has in order and one by one.
pub proof fn lemma_connect_is_asked<S, Q>(
    h: &mut ConnectionHandler<S, Q>,
    dst_addr: Multiaddr,
    dst_peer_id: PeerId,
    dialer_addr: Multiaddr,
    r: (),
    g: &mut ConnectionHandler<S, Q>,
    given: Option<HandlerEvent<S>>,
)
    requires
        call_ensures(
            ConnectionHandler::<S, Q>::on_behaviour_event,
            (h, ConnectionHandlerInEvent::Connect { dst_addr, dst_peer_id, dialer_addr }),
            r,
        ),
        call_ensures(ConnectionHandler::<S, Q>::poll, (g,), given),
    ensures
        final(h).pending_events@ == old(h).pending_events@.push(
            HandlerEvent::<S>::OutboundSubstreamRequest {
                protocol: OutboundUpgrade { dialer_addr, dst_peer_id, dst_addr },
                info: OutboundOpenInfo { dst_addr, dst_peer_id },
            },
        ),
        same_but_events(*old(h), *final(h)),
        given is None <==> old(g).pending_events@.len() == 0,
        old(g).pending_events@ == match given {
            Some(event) => seq![event] + final(g).pending_events@,
            None => final(g).pending_events@,
        },
        same_but_events(*old(g), *final(g)),
{
    let events = old(g).pending_events@;
    if events.len() > 0 {
        assert(events =~= seq![events[0]] + events.drop_first());
    }
}

/// One more thing is to be reported to the behaviour, behind all that the handler has to give.
pub open spec fn reports<S, Q>(
    before: ConnectionHandler<S, Q>,
    after: ConnectionHandler<S, Q>,
    out: ConnectionHandlerOutEvent<S>,
) -> bool {
    &&& after.pending_events@ == before.pending_events@.push(HandlerEvent::<S>::Custom(out))
    &&& same_but_events(before, after)
}

/// The outcome of an exchange is reported as what it is: the two ends of a dial, the dialer's as the
/// dialer's and the dialed one as the other; an endpoint that listens, with its peer and address;
/// what came of an offer, for the peer and the address that it was for; and a failure with its
/// error. The task is woken when there is something to report.
pub proof fn lemma_exchange_is_reported<S, Q>(
    h: &mut ConnectionHandler<S, Q>,
    event: ConnectionEvent<InboundOutput<S>, Connection<S>, OutboundOpenInfo>,
    wake: bool,
)
    requires
        call_ensures(ConnectionHandler::<S, Q>::on_connection_event, (h, event), wake),
    ensures
        wake == (event !is AddressChange),
        match event {
            ConnectionEvent::FullyNegotiatedInbound { protocol: InboundOutput::Dial(dialer, dialed) } => {
                reports(
                    *old(h),
                    *final(h),
                    ConnectionHandlerOutEvent::DialSuccess {
                        dialer_connection: dialer,
                        connection: dialed,
                    },
                )
            },
            ConnectionEvent::FullyNegotiatedInbound { protocol: InboundOutput::Listen(request) } => {
                reports(
                    *old(h),
                    *final(h),
                    ConnectionHandlerOutEvent::ListenSuccess {
                        listen_peer_id: request.listen_peer_id,
                        listen_addr: request.listen_addr,
                    },
                )
            },
            ConnectionEvent::FullyNegotiatedOutbound { protocol, info } => reports(
                *old(h),
                *final(h),
                ConnectionHandlerOutEvent::ConnectSuccess {
                    connection: protocol,
                    dst_addr: info.dst_addr,
                    dst_peer_id: info.dst_peer_id,
                },
            ),
            ConnectionEvent::DialUpgradeError { info, error } => {
                exists|err: IoError|
                    #![trigger crate::swarm::is_shown_as(error, err)]
                    crate::swarm::is_shown_as(error, err) && reports(
                        *old(h),
                        *final(h),
                        ConnectionHandlerOutEvent::ConnectFailed {
                            err,
                            dst_addr: info.dst_addr,
                            dst_peer_id: info.dst_peer_id,
                        },
                    )
            },
            ConnectionEvent::ListenUpgradeError { error } => {
                exists|err: IoError|
                    #![trigger crate::swarm::is_shown_as(error, err)]
                    crate::swarm::is_shown_as(error, err) && reports(
                        *old(h),
                        *final(h),
                        ConnectionHandlerOutEvent::ListenOrDialFailed { err },
                    )
            },
            ConnectionEvent::AddressChange => {
                &&& final(h).pending_events@ == old(h).pending_events@
                &&& same_but_events(*old(h), *final(h))
            },
        },
{
    match event {
        ConnectionEvent::DialUpgradeError { info, error } => {
            assert(crate::swarm::is_shown_as(error, error.io_error()));
        },
        ConnectionEvent::ListenUpgradeError { error } => {
            assert(crate::swarm::is_shown_as(error, error.io_error()));
        },
        _ => {},
    }
}

/// The two ends of a dial stay what they are from the exchange to the swarm: what the handler
/// reports of a dial, given to the behaviour, has data forwarded between the connection of the
/// dialer and the one that was dialed, in this order, and the swarm is told the dialer's address as
/// the dialer's and the other as the destination's.
pub proof fn lemma_dial_is_copied<S, O, Q>(
    h: &mut ConnectionHandler<S, Q>,
    dialer: Connection<S>,
    dialed: Connection<S>,
    wake: bool,
    out: ConnectionHandlerOutEvent<S>,
    b: &mut Behaviour<O, Q>,
    outcome: HandlerOutcome<S, O>,
)
    requires
        call_ensures(
            ConnectionHandler::<S, Q>::on_connection_event,
            (
                h,
                ConnectionEvent::FullyNegotiatedInbound {
                    protocol: InboundOutput::Dial(dialer, dialed),
                },
            ),
            wake,
        ),
        final(h).pending_events@.last() == HandlerEvent::<S>::Custom(out),
        old(b).wf(),
        call_ensures(Behaviour::<O, Q>::on_connection_handler_event::<S>, (b, out), outcome),
    ensures
        outcome.copy == Some((dialer, dialed)),
        is_reported(
            *old(b),
            *final(b),
            Event::StartCopy { dialer_addr: dialer.remote_addr, dst_addr: dialed.remote_addr },
        ),
{
    assert(final(b)@.actions == final(b).pending_actions@);
}

/// The connection that a dial leaves is for the two ends that the relay brings together: the first
/// is the dialer's, from the dialer's address over what is left of the dialer's stream, and the
/// second is the one that the endpoint granted. The exchange goes on only if the answer was sent.
pub proof fn lemma_dial_ends<S>(
    dialed: Dialed<S>,
    read_buffer: bytes::Bytes,
    stream: S,
    ends: (Connection<S>, Connection<S>),
    sent: bool,
    going_on: Result<Dialed<S>, UpgradeError>,
)
    requires
        call_ensures(Dialed::<S>::finish, (dialed, read_buffer, stream), ends),
        call_ensures(Dialed::<S>::written, (dialed, sent), going_on),
    ensures
        ends.0.remote_addr == dialed.dialer_addr,
        ends.0.remaining_buf == read_buffer,
        ends.0.sub_stream == stream,
        ends.1 == dialed.connection,
        sent ==> going_on == Ok::<Dialed<S>, UpgradeError>(dialed),
        !sent ==> going_on == Err::<Dialed<S>, UpgradeError>(UpgradeError::UnexpectedStreamClosed),
{
}

/// A request to dial has the behaviour asked for a connection exactly if its peer and its address
/// can be read: for this peer and this address, from the address that the dialer is at. Otherwise
/// the endpoint is told what is wrong with the text, the peer's first, and the exchange fails with
/// the text. Without a request there is no answer.
pub proof fn lemma_dial_is_decided<Q>(
    upgrade: InboundUpgrade<Q>,
    received: Result<Option<DialRequest>, IoError>,
    decision: DialDecision,
)
    requires
        upgrade.remote_addr is Some,
        call_ensures(InboundUpgrade::<Q>::dial_request, (&upgrade, received), decision),
    ensures
        received matches Err(err) ==> decision == (DialDecision::Fail {
            err: UpgradeError::Io(err),
        }),
        received matches Ok(None) ==> decision == (DialDecision::Fail {
            err: UpgradeError::UnexpectedStreamClosed,
        }),
        received matches Ok(Some(request)) ==> match (
            peer_id_of_text(request.peer_id@),
            multiaddr_of_text(request.addr@),
        ) {
            (Err(why), _) => {
                &&& decision matches DialDecision::Refuse { response, err }
                &&& response.result matches Some(Outcome::Failed { reason })
                &&& reason@ == why
                &&& err == UpgradeError::InvalidDstPeerId(request.peer_id)
            },
            (Ok(_), Err(why)) => {
                &&& decision matches DialDecision::Refuse { response, err }
                &&& response.result matches Some(Outcome::Failed { reason })
                &&& reason@ == why
                &&& err == UpgradeError::InvalidDstAddr(request.addr)
            },
            (Ok(peer), Ok(addr)) => {
                &&& decision matches DialDecision::Ask { dial }
                &&& dial.dst_peer_id@ == peer
                &&& dial.dst_addr@ == addr
                &&& Some(dial.dialer_addr) == upgrade.remote_addr
            },
        },
{
}

/// A request to dial whose texts were parsed is decided in the same way.
pub proof fn lemma_parsed_dial_is_decided<Q>(
    upgrade: InboundUpgrade<Q>,
    request: DialRequest,
    peer_id: Result<PeerId, String>,
    addr: Result<Multiaddr, String>,
    decision: DialDecision,
)
    requires
        upgrade.remote_addr is Some,
        call_ensures(
            InboundUpgrade::<Q>::decide_dial,
            (&upgrade, request, peer_id, addr),
            decision,
        ),
    ensures
        match (peer_id, addr) {
            (Err(why), _) => {
                &&& decision matches DialDecision::Refuse { response, err }
                &&& response.result matches Some(Outcome::Failed { reason })
                &&& reason@ == why@
                &&& err == UpgradeError::InvalidDstPeerId(request.peer_id)
            },
            (Ok(_), Err(why)) => {
                &&& decision matches DialDecision::Refuse { response, err }
                &&& response.result matches Some(Outcome::Failed { reason })
                &&& reason@ == why@
                &&& err == UpgradeError::InvalidDstAddr(request.addr)
            },
            (Ok(peer), Ok(addr)) => {
                &&& decision matches DialDecision::Ask { dial }
                &&& dial.dst_peer_id@ == peer@
                &&& dial.dst_addr@ == addr@
                &&& Some(dial.dialer_addr) == upgrade.remote_addr
            },
        },
{
}

/// A request to be listened for is granted exactly if its peer and its address can be read: for this
/// peer and this address, and the answer says so. Otherwise the endpoint is told what is wrong with
/// the text, the peer's first, and the exchange fails with the text. Without a request there is no
/// answer. The grant holds only if the answer could be sent.
pub proof fn lemma_listen_is_decided<Q>(
    upgrade: InboundUpgrade<Q>,
    received: Result<Option<crate::message::ListenRequest>, IoError>,
    decision: ListenDecision,
    granted: ListenRequest,
    sent: Result<(), IoError>,
    written: Result<ListenRequest, UpgradeError>,
)
    requires
        call_ensures(InboundUpgrade::<Q>::listen_request, (&upgrade, received), decision),
        call_ensures(ListenRequest::written, (granted, sent), written),
    ensures
        received matches Err(err) ==> decision == (ListenDecision::Fail {
            err: UpgradeError::Io(err),
        }),
        received matches Ok(None) ==> decision == (ListenDecision::Fail {
            err: UpgradeError::UnexpectedStreamClosed,
        }),
        received matches Ok(Some(request)) ==> match (
            peer_id_of_text(request.listen_peer_id@),
            multiaddr_of_text(request.listen_addr@),
        ) {
            (Err(why), _) => {
                &&& decision matches ListenDecision::Refuse { response, err }
                &&& response.result matches Some(Outcome::Failed { reason })
                &&& reason@ == why
                &&& err == UpgradeError::InvalidListenPeerId(request.listen_peer_id)
            },
            (Ok(_), Err(why)) => {
                &&& decision matches ListenDecision::Refuse { response, err }
                &&& response.result matches Some(Outcome::Failed { reason })
                &&& reason@ == why
                &&& err == UpgradeError::InvalidListenAddr(request.listen_addr)
            },
            (Ok(peer), Ok(addr)) => {
                &&& decision matches ListenDecision::Accept { response, request }
                &&& response.result == Some(Outcome::Success)
                &&& request.listen_peer_id@ == peer
                &&& request.listen_addr@ == addr
            },
        },
        sent is Ok ==> written == Ok::<ListenRequest, UpgradeError>(granted),
        sent matches Err(err) ==> written == Err::<ListenRequest, UpgradeError>(
            UpgradeError::Io(err),
        ),
{
}

/// A request to be listened for whose texts were parsed is decided in the same way.
pub proof fn lemma_parsed_listen_is_decided(
    request: crate::message::ListenRequest,
    peer_id: Result<PeerId, String>,
    addr: Result<Multiaddr, String>,
    decision: ListenDecision,
)
    requires
        call_ensures(decide_listen, (request, peer_id, addr), decision),
    ensures
        match (peer_id, addr) {
            (Err(why), _) => {
                &&& decision matches ListenDecision::Refuse { response, err }
                &&& response.result matches Some(Outcome::Failed { reason })
                &&& reason@ == why@
                &&& err == UpgradeError::InvalidListenPeerId(request.listen_peer_id)
            },
            (Ok(_), Err(why)) => {
                &&& decision matches ListenDecision::Refuse { response, err }
                &&& response.result matches Some(Outcome::Failed { reason })
                &&& reason@ == why@
                &&& err == UpgradeError::InvalidListenAddr(request.listen_addr)
            },
            (Ok(peer), Ok(addr)) => {
                &&& decision matches ListenDecision::Accept { response, request: granted }
                &&& response.result == Some(Outcome::Success)
                &&& granted.listen_peer_id@ == peer@
                &&& granted.listen_addr@ == addr@
            },
        },
{
}

/// A dial is put to the behaviour as it is, with a sender for the answer. It fails if the behaviour
/// is gone, before or after it was asked. The dialer is told what the behaviour answered: that it is
/// connected, with the connection that was dialed and the address it dialed from kept; or why not,
/// in the words of the error, with which the exchange fails for the address that was dialed.
pub proof fn lemma_dial_is_answered<S, O>(
    dial: Dial,
    connection_sender: O,
    request: ConnectRequest<O>,
    sent: bool,
    asked: Result<Dial, UpgradeError>,
    outcome: Option<Result<Connection<S>, IoError>>,
    answer: DialAnswer<S>,
)
    requires
        call_ensures(Dial::connect_request::<O>, (&dial, connection_sender), request),
        call_ensures(Dial::asked, (dial, sent), asked),
        call_ensures(Dial::answered::<S>, (dial, outcome), answer),
    ensures
        request.dst_peer_id == dial.dst_peer_id,
        request.dst_addr == dial.dst_addr,
        request.dialer_addr == dial.dialer_addr,
        request.connection_sender == connection_sender,
        sent ==> asked == Ok::<Dial, UpgradeError>(dial),
        !sent ==> asked == Err::<Dial, UpgradeError>(UpgradeError::BehaviourDropped),
        outcome is None ==> answer == (DialAnswer::<S>::Fail {
            err: UpgradeError::BehaviourDropped,
        }),
        outcome matches Some(Ok(connection)) ==> {
            &&& answer matches DialAnswer::Accept { response, dialed }
            &&& response.result == Some(Outcome::Success)
            &&& dialed.dialer_addr == dial.dialer_addr
            &&& dialed.connection == connection
        },
        outcome matches Some(Err(error)) ==> {
            &&& answer matches DialAnswer::Refuse { response, err }
            &&& response.result matches Some(Outcome::Failed { reason })
            &&& reason@ == error.text()
            &&& err == (UpgradeError::ConnectFailed { addr: dial.dst_addr, err: error })
        },
{
}

/// The offer of a relay holds the texts of the addresses and the peer that it is for. It is taken
/// exactly if the endpoint answers that it succeeded; if not, the error says what went wrong. The
/// connection that it leaves is one to the address that it is for, over what is left of the stream.
pub proof fn lemma_offer_is_made<S>(
    upgrade: OutboundUpgrade,
    request: crate::message::ConnectRequest,
    sent: Result<(), IoError>,
    after_sent: Result<(), UpgradeError>,
    received: Result<Option<ConnectResponse>, IoError>,
    answered: Result<(), UpgradeError>,
    read_buffer: bytes::Bytes,
    stream: S,
    connection: Connection<S>,
)
    requires
        call_ensures(OutboundUpgrade::request, (&upgrade,), request),
        call_ensures(OutboundUpgrade::request_sent, (sent,), after_sent),
        call_ensures(OutboundUpgrade::answered, (received,), answered),
        call_ensures(OutboundUpgrade::finish::<S>, (upgrade, read_buffer, stream), connection),
    ensures
        request.dst_addr@ == multiaddr_text(upgrade.dst_addr@),
        request.dst_peer_id@ == peer_id_text(upgrade.dst_peer_id@),
        request.dialer_addr@ == multiaddr_text(upgrade.dialer_addr@),
        peer_id_of_text(request.dst_peer_id@) == Ok::<Seq<u8>, Seq<char>>(upgrade.dst_peer_id@),
        sent is Ok <==> after_sent is Ok,
        sent is Err ==> after_sent == Err::<(), UpgradeError>(UpgradeError::UnexpectedStreamClosed),
        answered is Ok <==> {
            &&& received matches Ok(Some(response))
            &&& response.result == Some(Outcome::Success)
        },
        received is Err || received == Ok::<Option<ConnectResponse>, IoError>(None) ==> answered
            == Err::<(), UpgradeError>(UpgradeError::UnexpectedStreamClosed),
        received matches Ok(Some(ConnectResponse { result: None })) ==> answered == Err::<
            (),
            UpgradeError,
        >(UpgradeError::UnexpectedResult),
        received matches Ok(Some(ConnectResponse { result: Some(Outcome::Failed { reason }) }))
            ==> answered == Err::<(), UpgradeError>(
            UpgradeError::ActionFailed { action: UpgradeAction::Connect, reason: Some(reason) },
        ),
        connection.remote_addr == upgrade.dst_addr,
        connection.remaining_buf == read_buffer,
        connection.sub_stream == stream,
{
}

/// A relay takes the protocols that it offers, each for its own action, and no other.
pub proof fn lemma_protocols_are_told_apart<Q>(
    upgrade: InboundUpgrade<Q>,
    offered: [&'static str; 2],
    info: String,
    action: Option<UpgradeAction>,
)
    requires
        call_ensures(InboundUpgrade::<Q>::protocol_info, (&upgrade,), offered),
        call_ensures(upgrade_inbound, (&info,), action),
    ensures
        offered[0]@ == "/auto-relay/0.1/dial"@,
        offered[1]@ == "/auto-relay/0.1/listen"@,
        offered[0]@ != offered[1]@,
        action == Some(UpgradeAction::Dial) <==> info@ == offered[0]@,
        action == Some(UpgradeAction::Listen) <==> info@ == offered[1]@,
        action != Some(UpgradeAction::Connect),
{
    reveal_strlit("/auto-relay/0.1/dial");
    reveal_strlit("/auto-relay/0.1/listen");
    assert("/auto-relay/0.1/dial"@.len() != "/auto-relay/0.1/listen"@.len());
}

/// The texts of the errors of an exchange.
pub proof fn lemma_error_is_shown(error: UpgradeError, text: String)
    requires
        call_ensures(UpgradeError::message, (&error,), text),
    ensures
        error matches UpgradeError::Io(err) ==> text@ == "io error: "@ + err.text(),
        error is UnexpectedStreamClosed ==> text@ == "unexpected stream closed"@,
        error is BehaviourDropped ==> text@ == "behaviour is dropped"@,
        error matches UpgradeError::ConnectFailed { addr, err } ==> text@ == "behaviour connect "@
            + multiaddr_text(addr@) + " failed: "@ + err.text(),
        error matches UpgradeError::InvalidDstPeerId(peer_id) ==> text@ == "dial dst peer id "@
            + peer_id@ + " invalid"@,
        error matches UpgradeError::InvalidDstAddr(addr) ==> text@ == "dial dst addr "@ + addr@
            + " invalid"@,
        error matches UpgradeError::InvalidListenPeerId(peer_id) ==> text@
            == "invalid listen peer id "@ + peer_id@,
        error matches UpgradeError::InvalidListenAddr(addr) ==> text@ == "invalid listen addr "@
            + addr@,
        error is UnexpectedResult ==> text@ == "unexpected result"@,
        error matches UpgradeError::ActionFailed { reason, .. } ==> text@ == "action failed: "@
            + crate::error::reason_text(crate::error::reason_view(reason)),
{
}

/// An exchange is made for the ends that it is given.
pub proof fn lemma_exchanges_are_made<Q>(
    dialer_addr: Multiaddr,
    dst_peer_id: PeerId,
    dst_addr: Multiaddr,
    offer: OutboundUpgrade,
    remote_addr: Option<Multiaddr>,
    sender: Q,
    inbound: InboundUpgrade<Q>,
)
    requires
        call_ensures(OutboundUpgrade::new, (dialer_addr, dst_peer_id, dst_addr), offer),
        call_ensures(InboundUpgrade::<Q>::new, (remote_addr, sender), inbound),
    ensures
        offer.dialer_addr == dialer_addr,
        offer.dst_peer_id == dst_peer_id,
        offer.dst_addr == dst_addr,
        inbound.remote_addr == remote_addr,
        inbound.connect_request_sender == sender,
{
}

} // verus!
