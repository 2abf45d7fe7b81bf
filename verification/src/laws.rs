//! What holds between endpoints and relays: each side understands what the other asks and answers.

use libp2p_core::transport::ListenerId;
use vstd::prelude::*;

use crate::address::{multiaddr_of_text, multiaddr_text, peer_id_of_text, Multiaddr, PeerId};
use crate::connection::Connection;
use crate::endpoint::upgrade::inbound::{not_listen_text, InboundDecision};
use crate::endpoint::upgrade::outbound::{answered, asks_dial, asks_listen};
use crate::error::IoError;
use crate::message::{ConnectRequest, DialRequest, ListenRequest};
use crate::relay::upgrade::inbound::{Dial, DialAnswer, DialDecision, ListenDecision};
use crate::server::upgrade::outbound::{answer, asks};
use crate::swarm::{ConnectionEvent, ConnectionHandlerEvent, NetworkBehaviourAction, Polled};

verus! {

/// An address whose text is parsed to the same address.
pub open spec fn has_plain_text(addr: Seq<u8>) -> bool {
    multiaddr_of_text(multiaddr_text(addr)) == Ok::<Seq<u8>, Seq<char>>(addr)
}

/// A connection that a relay offers is taken by exactly the endpoint that it is for: that endpoint
/// gets the addresses that the relay meant, and the relay sees the exchange succeed. Any other
/// endpoint refuses, and the relay sees why.
pub proof fn lemma_connect_is_understood(
    request: ConnectRequest,
    dst_addr: Seq<u8>,
    dst_peer_id: Seq<u8>,
    dialer_addr: Seq<u8>,
    local_peer_id: Seq<u8>,
    decision: InboundDecision,
)
    requires
        asks(request, dst_addr, dst_peer_id, dialer_addr),
        has_plain_text(dst_addr),
        has_plain_text(dialer_addr),
        decision.decides(
            local_peer_id,
            request,
            multiaddr_of_text(request.dst_addr@),
            peer_id_of_text(request.dst_peer_id@),
            multiaddr_of_text(request.dialer_addr@),
        ),
    ensures
        local_peer_id == dst_peer_id ==> {
            &&& decision.accepts(dst_addr, dialer_addr)
            &&& answer(Ok(Some(decision->Accept_response))) is Ok
        },
        local_peer_id != dst_peer_id ==> {
            &&& decision.refuses_not_listen(dst_addr)
            &&& answer(Ok(Some(decision->Refuse_response))) matches Err(err)
            &&& err matches crate::relay::upgrade::UpgradeError::ActionFailed {
                reason: Some(reason),
                ..
            }
            &&& reason@ == not_listen_text(dst_addr)
        },
{
}

/// A request to dial is put to the relay's behaviour for the peer and the address that the endpoint
/// meant.
pub proof fn lemma_dial_is_understood(
    request: DialRequest,
    peer_id: Seq<u8>,
    addr: Seq<u8>,
    dialer_addr: Multiaddr,
    decision: DialDecision,
)
    requires
        asks_dial(request, peer_id, addr),
        has_plain_text(addr),
        decision.decides(
            dialer_addr,
            request,
            peer_id_of_text(request.peer_id@),
            multiaddr_of_text(request.addr@),
        ),
    ensures
        decision.asks(peer_id, addr, dialer_addr),
{
}

/// The endpoint that dials sees what the relay's behaviour answered: the dial is done, or it failed
/// for the reason that the behaviour gave.
pub proof fn lemma_dial_answer_is_understood<S>(
    dial: Dial,
    outcome: Result<Connection<S>, IoError>,
    reply: DialAnswer<S>,
)
    requires
        reply.answers(dial, Some(outcome)),
    ensures
        match outcome {
            Ok(_) => reply is Accept && answered(
                crate::endpoint::upgrade::UpgradeAction::Dial,
                reply->Accept_response.result,
            ) is Ok,
            Err(error) => {
                &&& reply is Refuse
                &&& answered(
                    crate::endpoint::upgrade::UpgradeAction::Dial,
                    reply->Refuse_response.result,
                ) matches Err(err)
                &&& err matches crate::endpoint::upgrade::UpgradeError::ActionFailed {
                    reason: Some(reason),
                    ..
                }
                &&& reason@ == error.text()
            },
        },
{
}

/// A request to be listened for is granted for the peer and the address that the endpoint meant,
/// and the endpoint sees so.
pub proof fn lemma_listen_is_understood(
    request: ListenRequest,
    peer_id: Seq<u8>,
    addr: Seq<u8>,
    decision: ListenDecision,
)
    requires
        asks_listen(request, peer_id, addr),
        has_plain_text(addr),
        decision.decides(
            request,
            peer_id_of_text(request.listen_peer_id@),
            multiaddr_of_text(request.listen_addr@),
        ),
    ensures
        decision.accepts(peer_id, addr),
        answered(
            crate::endpoint::upgrade::UpgradeAction::Listen,
            decision->Accept_response.result,
        ) is Ok,
{
}

/// Endpoints and relays mean the same by a protocol: a relay takes what an endpoint opens to dial as
/// a dial, and what it opens to listen as a listen; and what a relay opens to connect has the
/// protocol that endpoints and clients take.
pub proof fn lemma_protocols_are_shared(
    upgrade: crate::endpoint::upgrade::OutboundUpgrade,
    opened: &'static str,
    info: String,
    taken: Option<crate::relay::upgrade::UpgradeAction>,
    offer: crate::server::upgrade::OutboundUpgrade,
    offered: &'static str,
    endpoint: crate::endpoint::upgrade::InboundUpgrade,
    by_endpoint: &'static str,
    client: crate::client::upgrade::InboundUpgrade,
    by_client: &'static str,
)
    requires
        call_ensures(
            crate::endpoint::upgrade::OutboundUpgrade::protocol_info,
            (&upgrade,),
            opened,
        ),
        info@ == opened@,
        call_ensures(crate::relay::upgrade::inbound::upgrade_inbound, (&info,), taken),
        call_ensures(crate::server::upgrade::OutboundUpgrade::protocol_info, (&offer,), offered),
        call_ensures(
            crate::endpoint::upgrade::InboundUpgrade::protocol_info,
            (&endpoint,),
            by_endpoint,
        ),
        call_ensures(
            crate::client::upgrade::InboundUpgrade::protocol_info,
            (&client,),
            by_client,
        ),
    ensures
        upgrade is Dial ==> taken == Some(crate::relay::upgrade::UpgradeAction::Dial),
        upgrade is Listen ==> taken == Some(crate::relay::upgrade::UpgradeAction::Listen),
        by_endpoint@ == offered@,
        by_client@ == offered@,
        offered@ == "/auto-relay/0.1/connect"@,
{
    reveal_strlit("/auto-relay/0.1/dial");
    reveal_strlit("/auto-relay/0.1/listen");
    assert("/auto-relay/0.1/dial"@.len() != "/auto-relay/0.1/listen"@.len());
}

/// A dial that an endpoint is asked for reaches the peer that it is for: the substream that its
/// handler opens makes a request that the relay reads as a dial to that peer and address, and the
/// relay asks a handler of that very peer, if it listens, to take a connection for that address from
/// the address that the dialer is at.
pub proof fn lemma_dial_reaches_peer<S, O, D, P, Q>(
    h: &mut crate::endpoint::handler::ConnectionHandler<S, O, D>,
    dst_peer_id: PeerId,
    dst_addr: Multiaddr,
    connection_sender: O,
    r: (),
    request: DialRequest,
    upgrade: crate::relay::upgrade::InboundUpgrade<Q>,
    decision: DialDecision,
    answer_sender: P,
    connect: crate::relay::upgrade::ConnectRequest<P>,
    b: &mut crate::relay::Behaviour<P, Q>,
    outcome: crate::relay::behaviour::PollOutcome<S, P, Q>,
)
    requires
        call_ensures(
            crate::endpoint::handler::ConnectionHandler::<S, O, D>::on_behaviour_event,
            (
                h,
                crate::endpoint::event::ConnectionHandlerInEvent::Dial {
                    dst_peer_id,
                    dst_addr,
                    connection_sender,
                },
            ),
            r,
        ),
        final(h).pending_events@.last() matches ConnectionHandlerEvent::OutboundSubstreamRequest {
            protocol: crate::endpoint::upgrade::OutboundUpgrade::Dial {
                dst_peer_id: peer,
                dst_addr: addr,
            },
            ..
        } ==> call_ensures(
            crate::endpoint::upgrade::outbound::dial_request,
            (&peer, &addr),
            request,
        ),
        has_plain_text(dst_addr@),
        upgrade.remote_addr is Some,
        call_ensures(
            crate::relay::upgrade::InboundUpgrade::<Q>::dial_request,
            (&upgrade, Ok(Some(request))),
            decision,
        ),
        decision matches DialDecision::Ask { dial } ==> call_ensures(
            Dial::connect_request::<P>,
            (&dial, answer_sender),
            connect,
        ),
        old(b).wf(),
        old(b).listening_clients@.contains_key(dst_peer_id@),
        call_ensures(crate::relay::Behaviour::<P, Q>::poll::<S>, (b, Some(connect)), outcome),
    ensures
        outcome.polled matches Polled::Ready(
            NetworkBehaviourAction::NotifyHandler {
                peer_id,
                event: crate::relay::event::ConnectionHandlerInEvent::Connect {
                    dst_addr: for_addr,
                    dst_peer_id: for_peer,
                    dialer_addr,
                },
                ..
            },
        ) && peer_id@ == dst_peer_id@ && for_addr@ == dst_addr@ && for_peer@ == dst_peer_id@
            && Some(dialer_addr) == upgrade.remote_addr,
        final(b).connecting_requests@[dst_peer_id@] == answer_sender,
{
}

/// A listener that an endpoint is asked for counts as listening on the relay: the substream that its
/// handler opens makes a request that the relay reads as that peer and address, and what comes of it
/// has the relay's behaviour count that peer among those that listen, and report it with the address.
pub proof fn lemma_listen_reaches_relay<S, O, D, P, Q>(
    h: &mut crate::endpoint::handler::ConnectionHandler<S, O, D>,
    listener_id: ListenerId,
    local_peer_id: PeerId,
    local_addr: Multiaddr,
    r: (),
    request: ListenRequest,
    upgrade: crate::relay::upgrade::InboundUpgrade<Q>,
    decision: ListenDecision,
    g: &mut crate::server::handler::ConnectionHandler<S, Q>,
    wake: bool,
    out: crate::relay::event::ConnectionHandlerOutEvent<S>,
    b: &mut crate::relay::Behaviour<P, Q>,
    outcome: crate::relay::behaviour::HandlerOutcome<S, P>,
)
    requires
        call_ensures(
            crate::endpoint::handler::ConnectionHandler::<S, O, D>::on_behaviour_event,
            (
                h,
                crate::endpoint::event::ConnectionHandlerInEvent::Listen {
                    listener_id,
                    local_peer_id,
                    local_addr,
                },
            ),
            r,
        ),
        final(h).pending_events@.last() matches ConnectionHandlerEvent::OutboundSubstreamRequest {
            protocol: crate::endpoint::upgrade::OutboundUpgrade::Listen {
                listen_peer_id,
                listen_addr,
            },
            ..
        } ==> call_ensures(
            crate::endpoint::upgrade::outbound::listen_request,
            (&listen_peer_id, &listen_addr),
            request,
        ),
        has_plain_text(local_addr@),
        call_ensures(
            crate::relay::upgrade::InboundUpgrade::<Q>::listen_request,
            (&upgrade, Ok(Some(request))),
            decision,
        ),
        decision matches ListenDecision::Accept { request, .. } ==> call_ensures(
            crate::server::handler::ConnectionHandler::<S, Q>::on_connection_event,
            (
                g,
                ConnectionEvent::FullyNegotiatedInbound {
                    protocol: crate::server::handler::InboundOutput::Listen(request),
                },
            ),
            wake,
        ),
        final(g).pending_events@.last() == crate::server::handler::HandlerEvent::<S>::Custom(out),
        old(b).wf(),
        call_ensures(
            crate::relay::Behaviour::<P, Q>::on_connection_handler_event::<S>,
            (b, out),
            outcome,
        ),
    ensures
        decision is Accept,
        final(b).listening_clients@.contains_key(local_peer_id@),
        final(b).pending_actions@.last() matches NetworkBehaviourAction::GenerateEvent(
            crate::relay::Event::Listen { listen_peer_id, listen_addr },
        ) && listen_peer_id@ == local_peer_id@ && listen_addr@ == local_addr@,
{
    assert(final(b)@.listening.contains(local_peer_id@));
    assert(final(b)@.actions == final(b).pending_actions@);
}

/// A connection that a relay is asked to hand over reaches the endpoint that it is for: the substream
/// that the relay's handler opens makes a request that the endpoint of that peer grants, and the
/// connection that it leaves goes to the listener of that address, as one from the dialer's address.
pub proof fn lemma_connect_reaches_listener<S, Q>(
    h: &mut crate::server::handler::ConnectionHandler<S, Q>,
    dst_addr: Multiaddr,
    dst_peer_id: PeerId,
    dialer_addr: Multiaddr,
    r: (),
    request: ConnectRequest,
    upgrade: crate::endpoint::upgrade::InboundUpgrade,
    decision: InboundDecision,
    read_buffer: bytes::Bytes,
    stream: S,
    output: crate::endpoint::upgrade::InboundUpgradeOutput<S>,
)
    requires
        call_ensures(
            crate::server::handler::ConnectionHandler::<S, Q>::on_behaviour_event,
            (
                h,
                crate::relay::event::ConnectionHandlerInEvent::Connect {
                    dst_addr,
                    dst_peer_id,
                    dialer_addr,
                },
            ),
            r,
        ),
        final(h).pending_events@.last() matches ConnectionHandlerEvent::OutboundSubstreamRequest {
            protocol,
            ..
        } ==> call_ensures(
            crate::server::upgrade::OutboundUpgrade::request,
            (&protocol,),
            request,
        ),
        has_plain_text(dst_addr@),
        has_plain_text(dialer_addr@),
        upgrade.local_peer_id@ == dst_peer_id@,
        upgrade.relay_peer_id is Some,
        call_ensures(
            crate::endpoint::upgrade::InboundUpgrade::on_request,
            (&upgrade, Ok(Some(request))),
            decision,
        ),
        decision matches InboundDecision::Accept { accepted, .. } ==> call_ensures(
            crate::endpoint::upgrade::InboundUpgrade::finish::<S>,
            (upgrade, accepted, read_buffer, stream),
            output,
        ),
    ensures
        decision is Accept,
        output.listen_addr@ == dst_addr@,
        output.listen_peer_id@ == dst_peer_id@,
        Some(output.relay_peer_id) == upgrade.relay_peer_id,
        output.connection.remote_addr@ == dialer_addr@,
        output.connection.sub_stream == stream,
{
}

} // verus!
