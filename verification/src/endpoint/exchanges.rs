//! What the connection handler of an endpoint does, and what its exchanges with a relay come to, in
//! terms of what goes in and what comes out.

use libp2p_core::transport::ListenerId;
use vstd::prelude::*;

use super::event::{ConnectionHandlerInEvent, ConnectionHandlerOutEvent, OutboundOpenInfo};
use super::handler::{fits, ConnectionHandler, HandlerEvent, IntoConnectionHandler, OutboundOutput};
use super::upgrade::inbound::{Accepted, InboundDecision};
use super::upgrade::outbound::{
    dial_answered, dial_request, dialed, listen_answered, listen_request, request_sent,
};
use super::upgrade::{
    InboundUpgrade, InboundUpgradeOutput, OutboundUpgrade, UpgradeAction, UpgradeError,
};
use crate::address::{
    multiaddr_of_text, multiaddr_text, peer_id_of_text, peer_id_text, Multiaddr, PeerId,
};
use crate::connection::Connection;
use crate::error::IoError;
use crate::message::{
    ConnectRequest, DialRequest, DialResponse, ListenRequest, ListenResponse, Outcome,
};
use crate::swarm::{ConnectionEvent, ConnectionHandlerEvent, KeepAlive};

verus! {

/// The handler of a connection is the one of the peer that made it and of the relay at the other
/// end; it has nothing to ask yet. What the relay opens is answered in the name of that peer, and
/// what comes of it is said to come from that relay.
pub proof fn lemma_fresh_handler<S, O, D>(
    local_peer_id: PeerId,
    relay_peer_id: PeerId,
    waiting: IntoConnectionHandler,
    early: InboundUpgrade,
    handler: ConnectionHandler<S, O, D>,
    inbound: InboundUpgrade,
    keep: KeepAlive,
)
    requires
        call_ensures(IntoConnectionHandler::new, (local_peer_id,), waiting),
        call_ensures(IntoConnectionHandler::inbound_protocol, (&waiting,), early),
        call_ensures(
            IntoConnectionHandler::into_handler::<S, O, D>,
            (waiting, &relay_peer_id),
            handler,
        ),
        call_ensures(ConnectionHandler::<S, O, D>::listen_protocol, (&handler,), inbound),
        call_ensures(ConnectionHandler::<S, O, D>::connection_keep_alive, (&handler,), keep),
    ensures
        early.local_peer_id == local_peer_id,
        early.relay_peer_id is None,
        handler.pending_events@.len() == 0,
        handler.pending_inbound_upgrade_output@.len() == 0,
        inbound.local_peer_id == local_peer_id,
        inbound.relay_peer_id == Some(relay_peer_id),
        keep == KeepAlive::Yes,
{
}

/// A handler that is asked to dial opens a substream for just that: the exchange on it is a dial to
/// the same peer and address, and the sender is kept with the substream. It comes behind all that
/// the handler has to ask already.
pub proof fn lemma_dial_is_asked<S, O, D>(
    h: &mut ConnectionHandler<S, O, D>,
    dst_peer_id: PeerId,
    dst_addr: Multiaddr,
    connection_sender: O,
    r: (),
)
    requires
        call_ensures(
            ConnectionHandler::<S, O, D>::on_behaviour_event,
            (h, ConnectionHandlerInEvent::Dial { dst_peer_id, dst_addr, connection_sender }),
            r,
        ),
    ensures
        final(h).pending_events@ == old(h).pending_events@ + seq![
            HandlerEvent::<S, O, D>::OutboundSubstreamRequest {
                protocol: OutboundUpgrade::Dial { dst_peer_id, dst_addr },
                info: OutboundOpenInfo::Dial { connection_sender },
            },
        ],
        same_but_events(*old(h), *final(h)),
{
}

/// A handler that is asked to listen opens a substream for just that: the exchange on it asks the
/// relay to listen for the same peer and address, and the listener is kept with the substream. It
/// comes behind all that the handler has to ask already.
pub proof fn lemma_listen_is_asked<S, O, D>(
    h: &mut ConnectionHandler<S, O, D>,
    listener_id: ListenerId,
    local_peer_id: PeerId,
    local_addr: Multiaddr,
    r: (),
)
    requires
        call_ensures(
            ConnectionHandler::<S, O, D>::on_behaviour_event,
            (h, ConnectionHandlerInEvent::Listen { listener_id, local_peer_id, local_addr }),
            r,
        ),
    ensures
        final(h).pending_events@ == old(h).pending_events@ + seq![
            HandlerEvent::<S, O, D>::OutboundSubstreamRequest {
                protocol: OutboundUpgrade::Listen {
                    listen_peer_id: local_peer_id,
                    listen_addr: local_addr,
                },
                info: OutboundOpenInfo::Listen {
                    listener_id,
                    local_peer_id,
                    listen_addr: local_addr,
                },
            },
        ],
        same_but_events(*old(h), *final(h)),
{
}

/// The handlers differ in nothing but what they have to ask of their connection.
pub open spec fn same_but_events<S, O, D>(
    before: ConnectionHandler<S, O, D>,
    after: ConnectionHandler<S, O, D>,
) -> bool {
    &&& after.local_peer_id == before.local_peer_id
    &&& after.relay_peer_id == before.relay_peer_id
    &&& after.keepalive == before.keepalive
    &&& after.pending_inbound_upgrade_output@ == before.pending_inbound_upgrade_output@
}

/// A handler gives what it has in order and one by one: the connections that the relay handed over,
/// each with its address and its relay, then what it has to ask and to report. When it has nothing,
/// it gives nothing.
pub proof fn lemma_handler_gives_in_order<S, O, D>(
    h: &mut ConnectionHandler<S, O, D>,
    given: Option<HandlerEvent<S, O, D>>,
)
    requires
        call_ensures(ConnectionHandler::<S, O, D>::poll, (h,), given),
    ensures
        final(h).local_peer_id == old(h).local_peer_id,
        final(h).relay_peer_id == old(h).relay_peer_id,
        final(h).keepalive == old(h).keepalive,
        given is None <==> old(h).pending_inbound_upgrade_output@.len() == 0 && old(
            h,
        ).pending_events@.len() == 0,
        old(h).pending_inbound_upgrade_output@.len() > 0 ==> {
            &&& given matches Some(
                ConnectionHandlerEvent::Custom(
                    ConnectionHandlerOutEvent::NewConnection {
                        relay_peer_id,
                        listen_addr,
                        connection,
                    },
                ),
            )
            &&& relay_peer_id == old(h).pending_inbound_upgrade_output@[0].relay_peer_id
            &&& listen_addr == old(h).pending_inbound_upgrade_output@[0].listen_addr
            &&& connection == old(h).pending_inbound_upgrade_output@[0].connection
            &&& final(h).pending_inbound_upgrade_output@ == old(
                h,
            ).pending_inbound_upgrade_output@.skip(1)
            &&& final(h).pending_events@ == old(h).pending_events@
        },
        old(h).pending_inbound_upgrade_output@.len() == 0 ==> {
            &&& final(h).pending_inbound_upgrade_output@.len() == 0
            &&& old(h).pending_events@ == match given {
                Some(event) => seq![event] + final(h).pending_events@,
                None => final(h).pending_events@,
            }
        },
{
    let outputs = old(h).pending_inbound_upgrade_output@;
    let events = old(h).pending_events@;
    if outputs.len() > 0 {
        assert(outputs.drop_first() =~= outputs.skip(1));
    } else if events.len() > 0 {
        assert(events =~= seq![events[0]] + events.drop_first());
    }
}

/// One more thing is to be reported to the behaviour, behind all that the handler has to give.
pub open spec fn reports<S, O, D>(
    before: ConnectionHandler<S, O, D>,
    after: ConnectionHandler<S, O, D>,
    out: ConnectionHandlerOutEvent<S, O, D>,
) -> bool {
    &&& after.pending_events@ == before.pending_events@.push(HandlerEvent::<S, O, D>::Custom(out))
    &&& same_but_events(before, after)
}

/// The outcome of an exchange is reported as what it is: a dialed connection or a failed dial to the
/// sender that was kept with it; a listener that listens or could not, with its id, peer and
/// address; each with the relay of the handler, behind all that the handler has to give already.
/// What the relay hands over waits in order. Nothing else is reported, and the task is woken when
/// there is something new.
pub proof fn lemma_exchange_is_reported<S, O, D>(
    h: &mut ConnectionHandler<S, O, D>,
    event: ConnectionEvent<InboundUpgradeOutput<S>, OutboundOutput<S>, OutboundOpenInfo<O>>,
    wake: bool,
)
    requires
        fits(event),
        call_ensures(ConnectionHandler::<S, O, D>::on_connection_event, (h, event), wake),
    ensures
        wake == !(event is AddressChange || event is ListenUpgradeError),
        ({
            let relay_peer_id = old(h).relay_peer_id;
            match event {
                ConnectionEvent::FullyNegotiatedInbound { protocol } => {
                    &&& final(h).pending_inbound_upgrade_output@ == old(
                        h,
                    ).pending_inbound_upgrade_output@ + seq![protocol]
                    &&& final(h).pending_events@ == old(h).pending_events@
                    &&& final(h).local_peer_id == old(h).local_peer_id
                    &&& final(h).relay_peer_id == old(h).relay_peer_id
                    &&& final(h).keepalive == old(h).keepalive
                },
                ConnectionEvent::FullyNegotiatedOutbound { protocol, info } => match info {
                    OutboundOpenInfo::Dial { connection_sender } => {
                        &&& protocol matches OutboundOutput::Dial(connection)
                        &&& reports(
                            *old(h),
                            *final(h),
                            ConnectionHandlerOutEvent::DialSuccess {
                                relay_peer_id,
                                connection,
                                sender: connection_sender,
                            },
                        )
                    },
                    OutboundOpenInfo::Listen { listener_id, local_peer_id, listen_addr } => reports(
                        *old(h),
                        *final(h),
                        ConnectionHandlerOutEvent::ListenSuccess {
                            relay_peer_id,
                            listener_id,
                            local_peer_id,
                            listen_addr,
                        },
                    ),
                },
                ConnectionEvent::DialUpgradeError { info, error } => {
                    exists|err: IoError|
                        #![trigger crate::swarm::is_shown_as(error, err)]
                        crate::swarm::is_shown_as(error, err) && match info {
                            OutboundOpenInfo::Dial { connection_sender } => reports(
                                *old(h),
                                *final(h),
                                ConnectionHandlerOutEvent::DialFailed {
                                    err,
                                    relay_peer_id,
                                    sender: connection_sender,
                                },
                            ),
                            OutboundOpenInfo::Listen { listener_id, local_peer_id, listen_addr } => {
                                reports(
                                    *old(h),
                                    *final(h),
                                    ConnectionHandlerOutEvent::ListenFailed {
                                        err,
                                        relay_peer_id,
                                        listener_id,
                                        local_peer_id,
                                        listen_addr,
                                    },
                                )
                            },
                        }
                },
                _ => {
                    &&& final(h).pending_events@ == old(h).pending_events@
                    &&& same_but_events(*old(h), *final(h))
                },
            }
        }),
{
    if let ConnectionEvent::DialUpgradeError { info, error } = event {
        assert(crate::swarm::is_shown_as(error, error.io_error()));
    }
}

/// The messages of an endpoint hold the texts of what it asks for, and the peer id in them is read
/// back as the peer that was meant.
pub proof fn lemma_requests_say_what_is_meant(
    peer_id: PeerId,
    addr: Multiaddr,
    dial: DialRequest,
    listen: ListenRequest,
)
    requires
        call_ensures(dial_request, (&peer_id, &addr), dial),
        call_ensures(listen_request, (&peer_id, &addr), listen),
    ensures
        dial.peer_id@ == peer_id_text(peer_id@),
        dial.addr@ == multiaddr_text(addr@),
        peer_id_of_text(dial.peer_id@) == Ok::<Seq<u8>, Seq<char>>(peer_id@),
        listen.listen_peer_id@ == peer_id_text(peer_id@),
        listen.listen_addr@ == multiaddr_text(addr@),
        peer_id_of_text(listen.listen_peer_id@) == Ok::<Seq<u8>, Seq<char>>(peer_id@),
{
}

/// An exchange that an endpoint begins goes on exactly if the stream does and the relay grants the
/// request. If not, the error says what went wrong: the stream's own error, its end, an answer that
/// says nothing, or the reason that the relay gave, each under the action that was asked for.
pub proof fn lemma_answers_are_heard(
    sent: Result<(), IoError>,
    dial: Result<Option<DialResponse>, IoError>,
    listen: Result<Option<ListenResponse>, IoError>,
    after_sent: Result<(), UpgradeError>,
    after_dial: Result<(), UpgradeError>,
    after_listen: Result<(), UpgradeError>,
)
    requires
        call_ensures(request_sent, (sent,), after_sent),
        call_ensures(dial_answered, (dial,), after_dial),
        call_ensures(listen_answered, (listen,), after_listen),
    ensures
        after_sent is Ok <==> sent is Ok,
        sent matches Err(err) ==> after_sent == Err::<(), UpgradeError>(UpgradeError::Io(err)),
        after_dial is Ok <==> {
            &&& dial matches Ok(Some(response))
            &&& response.result == Some(Outcome::Success)
        },
        dial matches Err(err) ==> after_dial == Err::<(), UpgradeError>(UpgradeError::Io(err)),
        dial matches Ok(None) ==> after_dial == Err::<(), UpgradeError>(
            UpgradeError::UnexpectedStreamClosed,
        ),
        dial matches Ok(Some(DialResponse { result: None })) ==> after_dial == Err::<
            (),
            UpgradeError,
        >(UpgradeError::UnexpectedResult { action: UpgradeAction::Dial }),
        dial matches Ok(Some(DialResponse { result: Some(Outcome::Failed { reason }) }))
            ==> after_dial == Err::<(), UpgradeError>(
            UpgradeError::ActionFailed { action: UpgradeAction::Dial, reason: Some(reason) },
        ),
        after_listen is Ok <==> {
            &&& listen matches Ok(Some(response))
            &&& response.result == Some(Outcome::Success)
        },
        listen matches Err(err) ==> after_listen == Err::<(), UpgradeError>(UpgradeError::Io(err)),
        listen matches Ok(None) ==> after_listen == Err::<(), UpgradeError>(
            UpgradeError::UnexpectedStreamClosed,
        ),
        listen matches Ok(Some(ListenResponse { result: None })) ==> after_listen == Err::<
            (),
            UpgradeError,
        >(UpgradeError::UnexpectedResult { action: UpgradeAction::Listen }),
        listen matches Ok(Some(ListenResponse { result: Some(Outcome::Failed { reason }) }))
            ==> after_listen == Err::<(), UpgradeError>(
            UpgradeError::ActionFailed { action: UpgradeAction::Listen, reason: Some(reason) },
        ),
{
}

/// A dial that the relay granted is a connection to the address that was dialed, over what is left
/// of the stream.
pub proof fn lemma_dialed_connection<S>(
    dst_addr: Multiaddr,
    read_buffer: bytes::Bytes,
    stream: S,
    connection: Connection<S>,
)
    requires
        call_ensures(dialed::<S>, (dst_addr, read_buffer, stream), connection),
    ensures
        connection.remote_addr == dst_addr,
        connection.remaining_buf == read_buffer,
        connection.sub_stream == stream,
{
}

/// The text by which a relay learns that nobody listens on an address.
pub open spec fn says_not_listen(text: Seq<char>, addr: Seq<u8>) -> bool {
    text == "dst addr "@ + multiaddr_text(addr) + " not listen"@
}

/// A request of a relay is granted exactly if its addresses can be read and it is for this peer. The
/// answer then says so, and the listen address and the dialer's are those of the request. Otherwise
/// the relay is told what is wrong, the address it is for first, then the peer, then the dialer's
/// address; and the exchange fails with the same. Without a request there is no answer.
pub proof fn lemma_relay_request_is_decided(
    upgrade: InboundUpgrade,
    received: Result<Option<ConnectRequest>, IoError>,
    decision: InboundDecision,
)
    requires
        call_ensures(InboundUpgrade::on_request, (&upgrade, received), decision),
    ensures
        received matches Err(err) ==> decision == (InboundDecision::Fail {
            err: UpgradeError::Io(err),
        }),
        received matches Ok(None) ==> decision == (InboundDecision::Fail {
            err: UpgradeError::UnexpectedStreamClosed,
        }),
        received matches Ok(Some(request)) ==> {
            let dst = multiaddr_of_text(request.dst_addr@);
            let peer = peer_id_of_text(request.dst_peer_id@);
            let dialer = multiaddr_of_text(request.dialer_addr@);
            if dst is Err {
                &&& decision matches InboundDecision::Refuse { response, err }
                &&& err == UpgradeError::InvalidAddr(request.dst_addr)
                &&& response.result matches Some(Outcome::Failed { reason })
                &&& reason@ == "invalid addr: "@ + request.dst_addr@
            } else if peer is Err {
                &&& decision matches InboundDecision::Refuse { response, err }
                &&& err == UpgradeError::InvalidPeerId(request.dst_peer_id)
                &&& response.result matches Some(Outcome::Failed { reason })
                &&& reason@ == "invalid peer id: "@ + request.dst_peer_id@
            } else if peer->Ok_0 != upgrade.local_peer_id@ {
                &&& decision matches InboundDecision::Refuse { response, err }
                &&& response.result matches Some(Outcome::Failed { reason })
                &&& says_not_listen(reason@, dst->Ok_0)
                &&& err matches UpgradeError::ActionFailed { action, reason: Some(why) }
                &&& action == UpgradeAction::Connect
                &&& why@ == reason@
            } else if dialer is Err {
                &&& decision matches InboundDecision::Refuse { response, err }
                &&& err == UpgradeError::InvalidAddr(request.dialer_addr)
                &&& response.result matches Some(Outcome::Failed { reason })
                &&& reason@ == "invalid addr: "@ + request.dialer_addr@
            } else {
                &&& decision matches InboundDecision::Accept { response, accepted }
                &&& response.result == Some(Outcome::Success)
                &&& accepted.dst_addr@ == dst->Ok_0
                &&& accepted.dialer_addr@ == dialer->Ok_0
            }
        },
{
}

/// A request whose texts were parsed is decided in the same way.
pub proof fn lemma_parsed_request_is_decided(
    upgrade: InboundUpgrade,
    request: ConnectRequest,
    dst_addr: Result<Multiaddr, String>,
    dst_peer_id: Result<PeerId, String>,
    dialer_addr: Result<Multiaddr, String>,
    decision: InboundDecision,
)
    requires
        call_ensures(
            InboundUpgrade::decide,
            (&upgrade, request, dst_addr, dst_peer_id, dialer_addr),
            decision,
        ),
    ensures
        decision is Accept <==> {
            &&& dst_addr is Ok
            &&& dst_peer_id matches Ok(peer) && peer@ == upgrade.local_peer_id@
            &&& dialer_addr is Ok
        },
        decision matches InboundDecision::Accept { response, accepted } ==> {
            &&& response.result == Some(Outcome::Success)
            &&& accepted.dst_addr@ == dst_addr->Ok_0@
            &&& accepted.dialer_addr@ == dialer_addr->Ok_0@
        },
        decision !is Accept ==> {
            &&& decision matches InboundDecision::Refuse { response, err }
            &&& response.result matches Some(Outcome::Failed { reason })
            &&& if dst_addr is Err {
                err == UpgradeError::InvalidAddr(request.dst_addr) && reason@ == "invalid addr: "@
                    + request.dst_addr@
            } else if dst_peer_id is Err {
                err == UpgradeError::InvalidPeerId(request.dst_peer_id) && reason@
                    == "invalid peer id: "@ + request.dst_peer_id@
            } else if dst_peer_id->Ok_0@ != upgrade.local_peer_id@ {
                &&& says_not_listen(reason@, dst_addr->Ok_0@)
                &&& err matches UpgradeError::ActionFailed { action, reason: Some(why) }
                &&& action == UpgradeAction::Connect
                &&& why@ == reason@
            } else {
                err == UpgradeError::InvalidAddr(request.dialer_addr) && reason@
                    == "invalid addr: "@ + request.dialer_addr@
            }
        },
{
}

/// A granted connection is one from the dialer's address, for the listen address and the peer that
/// it is for, from the relay that brought it, over what is left of the stream. It is granted only if
/// the answer could be written.
pub proof fn lemma_granted_connection<S>(
    upgrade: InboundUpgrade,
    accepted: Accepted,
    read_buffer: bytes::Bytes,
    stream: S,
    output: InboundUpgradeOutput<S>,
    written: Result<(), IoError>,
    going_on: Result<Accepted, UpgradeError>,
)
    requires
        upgrade.relay_peer_id is Some,
        call_ensures(
            InboundUpgrade::finish::<S>,
            (upgrade, accepted, read_buffer, stream),
            output,
        ),
        call_ensures(Accepted::written, (accepted, written), going_on),
    ensures
        output.listen_peer_id == upgrade.local_peer_id,
        output.listen_addr == accepted.dst_addr,
        Some(output.relay_peer_id) == upgrade.relay_peer_id,
        output.connection.remote_addr == accepted.dialer_addr,
        output.connection.remaining_buf == read_buffer,
        output.connection.sub_stream == stream,
        written is Ok ==> going_on == Ok::<Accepted, UpgradeError>(accepted),
        written matches Err(err) ==> going_on == Err::<Accepted, UpgradeError>(
            UpgradeError::Io(err),
        ),
{
}

/// The texts of the errors of an exchange.
pub proof fn lemma_error_is_shown(error: UpgradeError, text: String)
    requires
        call_ensures(UpgradeError::message, (&error,), text),
    ensures
        error matches UpgradeError::Io(err) ==> text@ == "io error: "@ + err.text(),
        error is UnexpectedStreamClosed ==> text@ == "unexpected stream closed"@,
        error is UnexpectedResult ==> text@ == "unexpected result"@,
        error matches UpgradeError::ActionFailed { reason, .. } ==> text@ == "action failed: "@
            + crate::error::reason_text(crate::error::reason_view(reason)),
        error matches UpgradeError::InvalidAddr(addr) ==> text@ == "invalid addr: "@ + addr@,
        error matches UpgradeError::InvalidPeerId(peer_id) ==> text@ == "invalid peer id: "@
            + peer_id@,
{
}

/// An exchange is made for what it is named after.
pub proof fn lemma_exchanges_are_made(
    peer_id: PeerId,
    addr: Multiaddr,
    dial: OutboundUpgrade,
    listen: OutboundUpgrade,
    relay: Option<PeerId>,
    inbound: InboundUpgrade,
)
    requires
        call_ensures(OutboundUpgrade::new_dial, (peer_id, addr), dial),
        call_ensures(OutboundUpgrade::new_listen, (peer_id, addr), listen),
        call_ensures(InboundUpgrade::new, (peer_id, relay), inbound),
    ensures
        dial matches OutboundUpgrade::Dial { dst_peer_id, dst_addr } && dst_peer_id == peer_id
            && dst_addr == addr,
        listen matches OutboundUpgrade::Listen { listen_peer_id, listen_addr } && listen_peer_id
            == peer_id && listen_addr == addr,
        inbound.local_peer_id == peer_id,
        inbound.relay_peer_id == relay,
{
}

} // verus!
