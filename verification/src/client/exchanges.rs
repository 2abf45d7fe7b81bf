//! What the connection handler of a client does, and what its exchanges with a relay come to, in
//! terms of what goes in and what comes out.

use std::sync::Arc;

use libp2p_core::transport::ListenerId;
use vstd::prelude::*;

use super::event::{ConnectionHandlerInEvent, ConnectionHandlerOutEvent, OutboundOpenInfo};
use super::handler::{fits, ConnectionHandler, HandlerEvent, IntoConnectionHandler, OutboundOutput};
use super::upgrade::inbound::{decide, Accepted, InboundDecision};
use super::upgrade::outbound::{
    dial_answered, dial_request, dialed, listen_answered, listen_request, request_sent,
};
use super::upgrade::{
    InboundUpgrade, InboundUpgradeOutput, OutboundUpgrade, UpgradeAction, UpgradeError,
};
use crate::address::{
    multiaddr_of_text, multiaddr_text, peer_id_of_text, peer_id_text, Multiaddr, PeerId,
};
use crate::client::message::{ConnectRequest, DialRequest, ListenRequest};
use crate::connection::Connection;
use crate::error::IoError;
use crate::message::{DialResponse, ListenResponse, Outcome};
use crate::swarm::{ConnectionEvent, ConnectionHandlerEvent, KeepAlive};

verus! {

/// The handler of a connection keeps it open, and shares the addresses that the client listens on
/// with the exchanges that the relay begins. It has nothing to ask yet.
pub proof fn lemma_fresh_handler<S, O, D>(
    listen_addrs: Arc<dashmap::DashSet<Multiaddr>>,
    waiting: IntoConnectionHandler,
    early: InboundUpgrade,
    handler: ConnectionHandler<S, O, D>,
    inbound: InboundUpgrade,
    keep: KeepAlive,
)
    requires
        call_ensures(IntoConnectionHandler::new, (listen_addrs,), waiting),
        call_ensures(IntoConnectionHandler::inbound_protocol, (&waiting,), early),
        call_ensures(IntoConnectionHandler::into_handler::<S, O, D>, (waiting,), handler),
        call_ensures(ConnectionHandler::<S, O, D>::listen_protocol, (&handler,), inbound),
        call_ensures(ConnectionHandler::<S, O, D>::connection_keep_alive, (&handler,), keep),
    ensures
        early.listen_addrs == listen_addrs,
        handler.pending_events@.len() == 0,
        handler.pending_inbound_upgrade_output@.len() == 0,
        inbound.listen_addrs == listen_addrs,
        keep == KeepAlive::Yes,
{
}

/// A handler that is asked to dial opens a substream for just that: the exchange on it is a dial to
/// the same address, and the sender is kept with the substream. It comes behind all that the handler
/// has to ask already.
pub proof fn lemma_dial_is_asked<S, O, D>(
    h: &mut ConnectionHandler<S, O, D>,
    dst_addr: Multiaddr,
    connection_sender: O,
    r: (),
)
    requires
        call_ensures(
            ConnectionHandler::<S, O, D>::on_behaviour_event,
            (h, ConnectionHandlerInEvent::Dial { dst_addr, connection_sender }),
            r,
        ),
    ensures
        final(h).pending_events@ == old(h).pending_events@ + seq![
            HandlerEvent::<S, O, D>::OutboundSubstreamRequest {
                protocol: OutboundUpgrade::Dial { dst_addr },
                info: OutboundOpenInfo::Dial { connection_sender },
            },
        ],
        same_but_events(*old(h), *final(h)),
{
}

/// A handler that is asked to listen opens a substream for just that: the exchange on it asks the
/// relay to listen for the same peer and address, and the listener is kept with the substream. It
/// comes behind all that the handler has to ask already.
pub proof fn lemma_listen_is_asked<S, O, D>(
    h: &mut ConnectionHandler<S, O, D>,
    listener_id: ListenerId,
    local_peer_id: PeerId,
    local_addr: Multiaddr,
    r: (),
)
    requires
        call_ensures(
            ConnectionHandler::<S, O, D>::on_behaviour_event,
            (h, ConnectionHandlerInEvent::Listen { listener_id, local_peer_id, local_addr }),
            r,
        ),
    ensures
        final(h).pending_events@ == old(h).pending_events@ + seq![
            HandlerEvent::<S, O, D>::OutboundSubstreamRequest {
                protocol: OutboundUpgrade::Listen {
                    listen_peer_id: local_peer_id,
                    listen_addr: local_addr,
                },
                info: OutboundOpenInfo::Listen {
                    listener_id,
                    local_peer_id,
                    listen_addr: local_addr,
                },
            },
        ],
        same_but_events(*old(h), *final(h)),
{
}

/// The handlers differ in nothing but what they have to ask of their connection.
pub open spec fn same_but_events<S, O, D>(
    before: ConnectionHandler<S, O, D>,
    after: ConnectionHandler<S, O, D>,
) -> bool {
    &&& after.keepalive == before.keepalive
    &&& after.listen_addrs == before.listen_addrs
    &&& after.pending_inbound_upgrade_output@ == before.pending_inbound_upgrade_output@
}

/// A handler gives what it has in order and one by one: the connections that the relay handed over,
/// each with its address, then what it has to ask and to report. When it has nothing,
/// it gives nothing.
pub proof fn lemma_handler_gives_in_order<S, O, D>(
    h: &mut ConnectionHandler<S, O, D>,
    given: Option<HandlerEvent<S, O, D>>,
)
    requires
        call_ensures(ConnectionHandler::<S, O, D>::poll, (h,), given),
    ensures
        final(h).keepalive == old(h).keepalive,
        final(h).listen_addrs == old(h).listen_addrs,
        given is None <==> old(h).pending_inbound_upgrade_output@.len() == 0 && old(
            h,
        ).pending_events@.len() == 0,
        old(h).pending_inbound_upgrade_output@.len() > 0 ==> {
            &&& given matches Some(
                ConnectionHandlerEvent::Custom(
                    ConnectionHandlerOutEvent::NewConnection { listen_addr, connection },
                ),
            )
            &&& listen_addr == old(h).pending_inbound_upgrade_output@[0].listen_addr
            &&& connection == old(h).pending_inbound_upgrade_output@[0].connection
            &&& final(h).pending_inbound_upgrade_output@ == old(
                h,
            ).pending_inbound_upgrade_output@.skip(1)
            &&& final(h).pending_events@ == old(h).pending_events@
        },
        old(h).pending_inbound_upgrade_output@.len() == 0 ==> {
            &&& final(h).pending_inbound_upgrade_output@.len() == 0
            &&& old(h).pending_events@ == match given {
                Some(event) => seq![event] + final(h).pending_events@,
                None => final(h).pending_events@,
            }
        },
{
    let outputs = old(h).pending_inbound_upgrade_output@;
    let events = old(h).pending_events@;
    if outputs.len() > 0 {
        assert(outputs.drop_first() =~= outputs.skip(1));
    } else if events.len() > 0 {
        assert(events =~= seq![events[0]] + events.drop_first());
    }
}

/// One more thing is to be reported to the behaviour, behind all that the handler has to give.
pub open spec fn reports<S, O, D>(
    before: ConnectionHandler<S, O, D>,
    after: ConnectionHandler<S, O, D>,
    out: ConnectionHandlerOutEvent<S, O, D>,
) -> bool {
    &&& after.pending_events@ == before.pending_events@.push(HandlerEvent::<S, O, D>::Custom(out))
    &&& same_but_events(before, after)
}

/// The outcome of an exchange is reported as what it is: a dialed connection or a failed dial to the
/// sender that was kept with it; a listener that listens or could not, with its id, peer and
/// address; behind all that the handler has to give already. What the relay hands over waits in
/// order. Nothing else is reported.
pub proof fn lemma_exchange_is_reported<S, O, D>(
    h: &mut ConnectionHandler<S, O, D>,
    event: ConnectionEvent<InboundUpgradeOutput<S>, OutboundOutput<S>, OutboundOpenInfo<O>>,
    r: (),
)
    requires
        fits(event),
        call_ensures(ConnectionHandler::<S, O, D>::on_connection_event, (h, event), r),
    ensures
        ({
            match event {
                ConnectionEvent::FullyNegotiatedInbound { protocol } => {
                    &&& final(h).pending_inbound_upgrade_output@ == old(
                        h,
                    ).pending_inbound_upgrade_output@ + seq![protocol]
                    &&& final(h).pending_events@ == old(h).pending_events@
                    &&& final(h).keepalive == old(h).keepalive
                    &&& final(h).listen_addrs == old(h).listen_addrs
                },
                ConnectionEvent::FullyNegotiatedOutbound { protocol, info } => match info {
                    OutboundOpenInfo::Dial { connection_sender } => {
                        &&& protocol matches OutboundOutput::Dial(connection)
                        &&& reports(
                            *old(h),
                            *final(h),
                            ConnectionHandlerOutEvent::DialSuccess {
                                connection,
                                sender: connection_sender,
                            },
                        )
                    },
                    OutboundOpenInfo::Listen { listener_id, local_peer_id, listen_addr } => reports(
                        *old(h),
                        *final(h),
                        ConnectionHandlerOutEvent::ListenSuccess {
                            listener_id,
                            local_peer_id,
                            listen_addr,
                        },
                    ),
                },
                ConnectionEvent::DialUpgradeError { info, error } => {
                    exists|err: IoError|
                        #![trigger crate::swarm::is_shown_as(error, err)]
                        crate::swarm::is_shown_as(error, err) && match info {
                            OutboundOpenInfo::Dial { connection_sender } => reports(
                                *old(h),
                                *final(h),
                                ConnectionHandlerOutEvent::DialFailed {
                                    err,
                                    sender: connection_sender,
                                },
                            ),
                            OutboundOpenInfo::Listen { listener_id, local_peer_id, listen_addr } => {
                                reports(
                                    *old(h),
                                    *final(h),
                                    ConnectionHandlerOutEvent::ListenFailed {
                                        err,
                                        listener_id,
                                        local_peer_id,
                                        listen_addr,
                                    },
                                )
                            },
                        }
                },
                _ => {
                    &&& final(h).pending_events@ == old(h).pending_events@
                    &&& same_but_events(*old(h), *final(h))
                },
            }
        }),
{
    if let ConnectionEvent::DialUpgradeError { info, error } = event {
        assert(crate::swarm::is_shown_as(error, error.io_error()));
    }
}

/// The messages of a client hold the texts of what it asks for, and the peer id in them is read back
/// as the peer that was meant.
pub proof fn lemma_requests_say_what_is_meant(
    peer_id: PeerId,
    addr: Multiaddr,
    dial: DialRequest,
    listen: ListenRequest,
)
    requires
        call_ensures(dial_request, (&addr,), dial),
        call_ensures(listen_request, (&peer_id, &addr), listen),
    ensures
        dial.addr@ == multiaddr_text(addr@),
        listen.local_peer_id@ == peer_id_text(peer_id@),
        listen.local_addr@ == multiaddr_text(addr@),
        peer_id_of_text(listen.local_peer_id@) == Ok::<Seq<u8>, Seq<char>>(peer_id@),
{
}

/// An exchange that a client begins goes on exactly if the stream does and the relay grants the
/// request. If not, the error says what went wrong: the stream's own error, its end, an answer that
/// says nothing, or the reason that the relay gave, each under the action that was asked for.
pub proof fn lemma_answers_are_heard(
    sent: Result<(), IoError>,
    dial: Result<Option<DialResponse>, IoError>,
    listen: Result<Option<ListenResponse>, IoError>,
    after_sent: Result<(), UpgradeError>,
    after_dial: Result<(), UpgradeError>,
    after_listen: Result<(), UpgradeError>,
)
    requires
        call_ensures(request_sent, (sent,), after_sent),
        call_ensures(dial_answered, (dial,), after_dial),
        call_ensures(listen_answered, (listen,), after_listen),
    ensures
        after_sent is Ok <==> sent is Ok,
        sent matches Err(err) ==> after_sent == Err::<(), UpgradeError>(UpgradeError::Io(err)),
        after_dial is Ok <==> {
            &&& dial matches Ok(Some(response))
            &&& response.result == Some(Outcome::Success)
        },
        dial matches Err(err) ==> after_dial == Err::<(), UpgradeError>(UpgradeError::Io(err)),
        dial matches Ok(None) ==> after_dial == Err::<(), UpgradeError>(
            UpgradeError::UnexpectedStreamClosed,
        ),
        dial matches Ok(Some(DialResponse { result: None })) ==> after_dial == Err::<
            (),
            UpgradeError,
        >(UpgradeError::UnexpectedResult { action: UpgradeAction::Dial }),
        dial matches Ok(Some(DialResponse { result: Some(Outcome::Failed { reason }) }))
            ==> after_dial == Err::<(), UpgradeError>(
            UpgradeError::ActionFailed { action: UpgradeAction::Dial, reason: Some(reason) },
        ),
        after_listen is Ok <==> {
            &&& listen matches Ok(Some(response))
            &&& response.result == Some(Outcome::Success)
        },
        listen matches Err(err) ==> after_listen == Err::<(), UpgradeError>(UpgradeError::Io(err)),
        listen matches Ok(None) ==> after_listen == Err::<(), UpgradeError>(
            UpgradeError::UnexpectedStreamClosed,
        ),
        listen matches Ok(Some(ListenResponse { result: None })) ==> after_listen == Err::<
            (),
            UpgradeError,
        >(UpgradeError::UnexpectedResult { action: UpgradeAction::Listen }),
        listen matches Ok(Some(ListenResponse { result: Some(Outcome::Failed { reason }) }))
            ==> after_listen == Err::<(), UpgradeError>(
            UpgradeError::ActionFailed { action: UpgradeAction::Listen, reason: Some(reason) },
        ),
{
}

/// A dial that the relay granted is a connection to the address that was dialed, over what is left
/// of the stream.
pub proof fn lemma_dialed_connection<S>(
    dst_addr: Multiaddr,
    read_buffer: bytes::Bytes,
    stream: S,
    connection: Connection<S>,
)
    requires
        call_ensures(dialed::<S>, (dst_addr, read_buffer, stream), connection),
    ensures
        connection.remote_addr == dst_addr,
        connection.remaining_buf == read_buffer,
        connection.sub_stream == stream,
{
}

/// The text by which a relay learns that nobody listens on an address.
pub open spec fn says_not_listen(text: Seq<char>, addr: Seq<u8>) -> bool {
    text == "dst addr "@ + multiaddr_text(addr) + " not listen"@
}

/// A request of a relay that was parsed is granted exactly if both addresses can be read and the
/// client listens on the one that it is for. The answer then says so, and the addresses are those of
/// the request. Otherwise the relay is told what is wrong: the address it is for first, then that
/// nobody listens there, then the dialer's address; and the exchange fails with the same.
pub proof fn lemma_parsed_request_is_decided(
    request: ConnectRequest,
    dst_addr: Result<Multiaddr, String>,
    listening: bool,
    dialer_addr: Result<Multiaddr, String>,
    decision: InboundDecision,
)
    requires
        call_ensures(decide, (request, dst_addr, listening, dialer_addr), decision),
    ensures
        decision is Accept <==> dst_addr is Ok && listening && dialer_addr is Ok,
        decision matches InboundDecision::Accept { response, accepted } ==> {
            &&& response.result == Some(Outcome::Success)
            &&& accepted.dst_addr@ == dst_addr->Ok_0@
            &&& accepted.dialer_addr@ == dialer_addr->Ok_0@
        },
        decision !is Accept ==> {
            &&& decision matches InboundDecision::Refuse { response, err }
            &&& response.result matches Some(Outcome::Failed { reason })
            &&& if dst_addr is Err {
                err == UpgradeError::InvalidAddr(request.dst_addr) && reason@ == "invalid addr: "@
                    + request.dst_addr@
            } else if !listening {
                &&& says_not_listen(reason@, dst_addr->Ok_0@)
                &&& err matches UpgradeError::ActionFailed { action, reason: Some(why) }
                &&& action == UpgradeAction::Connect
                &&& why@ == reason@
            } else {
                err == UpgradeError::InvalidAddr(request.dialer_addr) && reason@
                    == "invalid addr: "@ + request.dialer_addr@
            }
        },
{
}

/// What is received of a relay is answered only if it is a request. A request is granted only if its
/// addresses can be read, and then with these addresses; one whose address cannot be read is refused,
/// as is one whose dialer's address cannot be read, whatever the client listens on.
pub proof fn lemma_relay_request_is_decided(
    upgrade: InboundUpgrade,
    received: Result<Option<ConnectRequest>, IoError>,
    decision: InboundDecision,
)
    requires
        call_ensures(InboundUpgrade::on_request, (&upgrade, received), decision),
    ensures
        received matches Err(err) ==> decision == (InboundDecision::Fail {
            err: UpgradeError::Io(err),
        }),
        received matches Ok(None) ==> decision == (InboundDecision::Fail {
            err: UpgradeError::UnexpectedStreamClosed,
        }),
        received matches Ok(Some(request)) ==> {
            let dst = multiaddr_of_text(request.dst_addr@);
            let dialer = multiaddr_of_text(request.dialer_addr@);
            match decision {
                InboundDecision::Fail { .. } => false,
                InboundDecision::Accept { response, accepted } => {
                    &&& response.result == Some(Outcome::Success)
                    &&& dst == Ok::<Seq<u8>, Seq<char>>(accepted.dst_addr@)
                    &&& dialer == Ok::<Seq<u8>, Seq<char>>(accepted.dialer_addr@)
                },
                InboundDecision::Refuse { response, err } => {
                    &&& response.result matches Some(Outcome::Failed { reason })
                    &&& match err {
                        UpgradeError::InvalidAddr(text) => {
                            &&& reason@ == "invalid addr: "@ + text@
                            &&& dst is Err ==> text == request.dst_addr
                            &&& dst is Ok ==> text == request.dialer_addr && dialer is Err
                        },
                        UpgradeError::ActionFailed { action, reason: Some(why) } => {
                            &&& dst is Ok
                            &&& action == UpgradeAction::Connect
                            &&& says_not_listen(reason@, dst->Ok_0)
                            &&& why@ == reason@
                        },
                        _ => false,
                    }
                },
            }
        },
{
}

/// A granted connection is one from the dialer's address, for the listen address that it is for,
/// over what is left of the stream. It is granted only if the answer could be written.
pub proof fn lemma_granted_connection<S>(
    accepted: Accepted,
    read_buffer: bytes::Bytes,
    stream: S,
    output: InboundUpgradeOutput<S>,
    written: Result<(), IoError>,
    going_on: Result<Accepted, UpgradeError>,
)
    requires
        call_ensures(InboundUpgrade::finish::<S>, (accepted, read_buffer, stream), output),
        call_ensures(Accepted::written, (accepted, written), going_on),
    ensures
        output.listen_addr == accepted.dst_addr,
        output.connection.remote_addr == accepted.dialer_addr,
        output.connection.remaining_buf == read_buffer,
        output.connection.sub_stream == stream,
        written is Ok ==> going_on == Ok::<Accepted, UpgradeError>(accepted),
        written matches Err(err) ==> going_on == Err::<Accepted, UpgradeError>(
            UpgradeError::Io(err),
        ),
{
}

/// The protocol of a client's requests is the same for all of them.
pub proof fn lemma_one_protocol(
    one: OutboundUpgrade,
    other: OutboundUpgrade,
    first: &'static str,
    second: &'static str,
)
    requires
        call_ensures(OutboundUpgrade::protocol_info, (&one,), first),
        call_ensures(OutboundUpgrade::protocol_info, (&other,), second),
    ensures
        first@ == second@,
        first@ == "/auto-relay/0.1"@,
{
}

/// The texts of the errors of an exchange.
pub proof fn lemma_error_is_shown(error: UpgradeError, text: String)
    requires
        call_ensures(UpgradeError::message, (&error,), text),
    ensures
        error matches UpgradeError::Io(err) ==> text@ == "io error: "@ + err.text(),
        error is UnexpectedStreamClosed ==> text@ == "unexpected stream closed"@,
        error is UnexpectedResult ==> text@ == "unexpected result"@,
        error matches UpgradeError::ActionFailed { reason, .. } ==> text@ == "action failed: "@
            + crate::error::reason_text(crate::error::reason_view(reason)),
        error matches UpgradeError::InvalidAddr(addr) ==> text@ == "invalid addr: "@ + addr@,
{
}

/// An exchange is made for what it is named after. A handler that is made without a set of addresses
/// keeps its connection too.
pub proof fn lemma_exchanges_are_made(
    peer_id: PeerId,
    addr: Multiaddr,
    dial: OutboundUpgrade,
    listen: OutboundUpgrade,
    listen_addrs: Arc<dashmap::DashSet<Multiaddr>>,
    inbound: InboundUpgrade,
    handler: IntoConnectionHandler,
)
    requires
        call_ensures(OutboundUpgrade::new_dial, (addr,), dial),
        call_ensures(OutboundUpgrade::new_listen, (peer_id, addr), listen),
        call_ensures(InboundUpgrade::new, (listen_addrs,), inbound),
        call_ensures(<IntoConnectionHandler as Default>::default, (), handler),
    ensures
        dial matches OutboundUpgrade::Dial { dst_addr } && dst_addr == addr,
        listen matches OutboundUpgrade::Listen { listen_peer_id, listen_addr } && listen_peer_id
            == peer_id && listen_addr == addr,
        inbound.listen_addrs == listen_addrs,
        handler.keepalive == KeepAlive::Yes,
{
}

/// What a client is asked for is what the relay is asked for: the message on the substream that the
/// handler opens to listen is that of the peer and the address, and the one on the substream that it
/// opens to dial is that of the address.
pub proof fn lemma_request_reaches_relay<S, O, D>(
    h: &mut ConnectionHandler<S, O, D>,
    listener_id: ListenerId,
    local_peer_id: PeerId,
    local_addr: Multiaddr,
    listen: ListenRequest,
    g: &mut ConnectionHandler<S, O, D>,
    dst_addr: Multiaddr,
    connection_sender: O,
    dial: DialRequest,
    r: (),
)
    requires
        call_ensures(
            ConnectionHandler::<S, O, D>::on_behaviour_event,
            (h, ConnectionHandlerInEvent::Listen { listener_id, local_peer_id, local_addr }),
            r,
        ),
        final(h).pending_events@.last() matches ConnectionHandlerEvent::OutboundSubstreamRequest {
            protocol: OutboundUpgrade::Listen { listen_peer_id, listen_addr },
            ..
        } ==> call_ensures(listen_request, (&listen_peer_id, &listen_addr), listen),
        call_ensures(
            ConnectionHandler::<S, O, D>::on_behaviour_event,
            (g, ConnectionHandlerInEvent::Dial { dst_addr, connection_sender }),
            r,
        ),
        final(g).pending_events@.last() matches ConnectionHandlerEvent::OutboundSubstreamRequest {
            protocol: OutboundUpgrade::Dial { dst_addr: addr },
            ..
        } ==> call_ensures(dial_request, (&addr,), dial),
    ensures
        listen.local_peer_id@ == peer_id_text(local_peer_id@),
        listen.local_addr@ == multiaddr_text(local_addr@),
        dial.addr@ == multiaddr_text(dst_addr@),
{
}

} // verus!
