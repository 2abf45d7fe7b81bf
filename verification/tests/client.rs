use std::sync::Arc;

use bytes::Bytes;
use dashmap::DashSet;
use libp2p_auto_relay::address::{Multiaddr, PeerId};
use libp2p_auto_relay::client::behaviour::{DialReply, PollStep};
use libp2p_auto_relay::client::event::{
    BehaviourToTransportEvent, ConnectionHandlerInEvent, ConnectionHandlerOutEvent,
    OutboundOpenInfo, TransportToBehaviourEvent,
};
use libp2p_auto_relay::client::handler::{
    ConnectionHandler, IntoConnectionHandler, OutboundOutput,
};
use libp2p_auto_relay::client::message::ConnectRequest;
use libp2p_auto_relay::client::transport;
use libp2p_auto_relay::client::transport::Listener;
use libp2p_auto_relay::client::upgrade::inbound::{decide, InboundDecision};
use libp2p_auto_relay::client::upgrade::outbound::{
    dial_answered, dial_request, dialed, listen_answered, listen_request, request_sent,
};
use libp2p_auto_relay::client::upgrade::{
    InboundUpgrade, InboundUpgradeOutput, OutboundUpgrade, UpgradeAction, UpgradeError,
};
use libp2p_auto_relay::client::{Client, Error, Event, Transport};
use libp2p_auto_relay::connection::Connection;
use libp2p_auto_relay::error::{IoError, IoErrorKind};
use libp2p_auto_relay::message::{ConnectResponse, DialResponse, ListenResponse, Outcome};
use libp2p_auto_relay::swarm::{
    ConnectionEvent, ConnectionHandlerEvent, FromSwarm, KeepAlive, NegotiationError,
    NetworkBehaviourAction, Polled, Readiness, Received, TransportError, TransportEvent,
};
use libp2p_core::transport::ListenerId;

type Stream = &'static str;
type Behaviour = Client<Stream, u32, &'static str, &'static str>;
type Step = PollStep<Stream, u32, &'static str>;
type Handler = ConnectionHandler<Stream, u32, &'static str>;
type Channels = Transport<u32, &'static str, u8>;
type TransportStep = transport::PollStep<Stream, u32, &'static str>;

fn peer(i: u8) -> PeerId {
    PeerId::from_bytes(&[0x00, 1, i]).unwrap()
}

fn addr(port: u16) -> Multiaddr {
    Multiaddr::parse(&format!("/ip4/1.2.3.4/tcp/{port}")).unwrap()
}

fn connection(port: u16) -> Connection<Stream> {
    Connection::new(addr(port), Bytes::new(), "stream")
}

fn pair() -> (Channels, Behaviour) {
    Transport::new(peer(0), addr(4000), peer(10))
}

fn new_connection(client: &mut Behaviour, port: u16) {
    let reply = client.on_connection_handler_event(ConnectionHandlerOutEvent::NewConnection {
        listen_addr: addr(port),
        connection: connection(1000),
    });
    assert!(reply.is_none());
}

#[test]
fn listen_reaches_the_relay_through_the_behaviour() {
    let (mut transport, mut client) = pair();
    let id = transport.listen_on(addr(90), "l", 1).unwrap();
    let step: TransportStep = transport.poll(Received::Pending);
    let event = match step {
        TransportStep::PollSender { event } => event,
        step => panic!("{step:?}"),
    };
    let event = match transport.behaviour_ready(event, true) {
        TransportStep::SendEvent { event } => event,
        step => panic!("{step:?}"),
    };
    let step: TransportStep = transport.behaviour_sent();
    assert!(matches!(step, TransportStep::FlushSender));
    match client.poll(Received::Item(event)) {
        Step::Done(Polled::Ready(NetworkBehaviourAction::NotifyHandler {
            peer_id,
            event: ConnectionHandlerInEvent::Listen { listener_id, local_peer_id, local_addr },
            ..
        })) => {
            assert_eq!(peer_id, peer(10));
            assert_eq!(listener_id, id);
            assert_eq!(local_peer_id, peer(0));
            assert_eq!(local_addr, addr(90));
        }
        step => panic!("{step:?}"),
    }
    assert_eq!(client.listener_sender(&addr(90)), Some(&mut "l"));
}

#[test]
fn fresh_listeners_have_different_ids() {
    let (mut transport, _client) = pair();
    let a = transport.listen_on(addr(90), "a", 1).unwrap();
    let b = transport.listen_on(addr(91), "b", 2).unwrap();
    assert_ne!(a, b);
}

#[test]
fn dial_goes_to_a_handler_of_the_client_itself() {
    let (mut transport, mut client) = pair();
    transport.dial(addr(80), 5);
    let event = match transport.poll::<Stream>(Received::Pending) {
        TransportStep::PollSender { event } => event,
        step => panic!("{step:?}"),
    };
    match &event {
        TransportToBehaviourEvent::Dial { relay_addr, .. } => assert_eq!(relay_addr, &addr(4000)),
        event => panic!("{event:?}"),
    }
    match client.poll(Received::Item(event)) {
        Step::Done(Polled::Ready(NetworkBehaviourAction::NotifyHandler {
            peer_id,
            event: ConnectionHandlerInEvent::Dial { dst_addr, connection_sender },
            ..
        })) => {
            assert_eq!(peer_id, peer(0));
            assert_eq!(dst_addr, addr(80));
            assert_eq!(connection_sender, 5);
        }
        step => panic!("{step:?}"),
    }
}

#[test]
fn client_does_nothing_else_while_the_transport_may_send() {
    let mut client: Behaviour = Client::new(peer(0));
    client.on_connection_handler_event(ConnectionHandlerOutEvent::Error("x"));
    assert!(matches!(client.poll(Received::Pending), Step::Done(Polled::Pending)));
    assert!(matches!(client.poll(Received::Closed), Step::FlushTransport));
    assert!(matches!(
        client.transport_flushed(true),
        Step::Done(Polled::Ready(NetworkBehaviourAction::GenerateEvent(Event::OtherError("x"))))
    ));
    assert!(matches!(client.transport_flushed(true), Step::Done(Polled::Pending)));
}

#[test]
fn client_connection_goes_to_its_listener() {
    let (mut transport, mut client) = pair();
    let id = transport.listen_on(addr(90), "l", 1).unwrap();
    let event = transport.pending_to_behaviour.pop_front().unwrap();
    client.poll(Received::Item(event));
    new_connection(&mut client, 90);
    let step = match client.poll(Received::Closed) {
        Step::PollListener { new_connection, listener_id } => {
            assert_eq!(listener_id, id);
            client.listener_ready(new_connection, listener_id, Readiness::Pending)
        }
        step => panic!("{step:?}"),
    };
    assert!(matches!(step, Step::FlushTransport));
    let step = match client.poll(Received::Closed) {
        Step::PollListener { new_connection, listener_id } => {
            client.listener_ready(new_connection, listener_id, Readiness::Ready)
        }
        step => panic!("{step:?}"),
    };
    let step = match step {
        Step::SendConnection { delivery, connection } => {
            assert_eq!(connection.remote_addr(), &addr(1000));
            client.listener_sent(delivery, Ok(()))
        }
        step => panic!("{step:?}"),
    };
    let step = match step {
        Step::PollTransport { event } => client.transport_ready(event, Readiness::Ready),
        step => panic!("{step:?}"),
    };
    match step {
        Step::SendEvent {
            event: BehaviourToTransportEvent::ListenSuccess { listener_id, local_addr },
        } => {
            assert_eq!(listener_id, id);
            assert_eq!(local_addr, addr(90));
        }
        step => panic!("{step:?}"),
    }
    assert!(matches!(client.transport_sent(true), Step::FlushTransport));
}

#[test]
fn client_reports_connections_that_nobody_takes() {
    let (mut transport, mut client) = pair();
    new_connection(&mut client, 90);
    assert!(matches!(
        client.poll(Received::Closed),
        Step::Done(Polled::Ready(NetworkBehaviourAction::GenerateEvent(
            Event::UnexpectedConnection { listen_addr }
        ))) if listen_addr == addr(90)
    ));
    transport.listen_on(addr(90), "l", 1).unwrap();
    let event = transport.pending_to_behaviour.pop_front().unwrap();
    client.poll(Received::Item(event));
    for ready in [false, true] {
        new_connection(&mut client, 90);
        let step = match client.poll(Received::Closed) {
            Step::PollListener { new_connection, listener_id } if ready => {
                match client.listener_ready(new_connection, listener_id, Readiness::Ready) {
                    Step::SendConnection { delivery, .. } => {
                        client.listener_sent(delivery, Err("gone"))
                    }
                    step => panic!("{step:?}"),
                }
            }
            Step::PollListener { new_connection, listener_id } => {
                client.listener_ready(new_connection, listener_id, Readiness::Failed("gone"))
            }
            step => panic!("{step:?}"),
        };
        assert!(matches!(
            step,
            Step::Done(Polled::Ready(NetworkBehaviourAction::GenerateEvent(
                Event::UnexpectedListenerClosed { err: "gone", .. }
            )))
        ));
    }
}

#[test]
fn client_event_without_room_is_kept() {
    let (_transport, mut client) = pair();
    client.on_connection_handler_event(ConnectionHandlerOutEvent::ListenSuccess {
        listener_id: ListenerId::next(),
        local_peer_id: peer(0),
        listen_addr: addr(90),
    });
    let step = match client.poll(Received::Closed) {
        Step::PollTransport { event } => client.transport_ready(event, Readiness::Pending),
        step => panic!("{step:?}"),
    };
    assert!(matches!(step, Step::FlushTransport));
    assert_eq!(client.pending_to_transport.len(), 1);
}

#[test]
fn client_reports_a_transport_that_is_gone() {
    let dropped = |step: Step| {
        matches!(
            step,
            Step::Done(Polled::Ready(NetworkBehaviourAction::GenerateEvent(
                Event::UnexpectedTransportDropped
            )))
        )
    };
    let mut client: Behaviour = Client::new(peer(0));
    let event = BehaviourToTransportEvent::ListenSuccess {
        listener_id: ListenerId::next(),
        local_addr: addr(90),
    };
    assert!(dropped(client.transport_ready(event, Readiness::Failed(()))));
    assert!(dropped(client.transport_sent(false)));
    assert!(dropped(client.transport_flushed(false)));
}

#[test]
fn dial_of_the_client_is_answered_through_its_sender() {
    let mut client: Behaviour = Client::new(peer(0));
    let set = Arc::new(DashSet::new());
    let mut handler: Handler = client.new_handler(set).into_handler();
    handler.on_behaviour_event(ConnectionHandlerInEvent::Dial {
        dst_addr: addr(80),
        connection_sender: 5,
    });
    let info = match handler.poll() {
        Some(ConnectionHandlerEvent::OutboundSubstreamRequest {
            protocol: OutboundUpgrade::Dial { dst_addr },
            info,
        }) => {
            assert_eq!(dst_addr, addr(80));
            info
        }
        event => panic!("{event:?}"),
    };
    handler.on_connection_event(ConnectionEvent::FullyNegotiatedOutbound {
        protocol: OutboundOutput::Dial(connection(80)),
        info,
    });
    let out = match handler.poll() {
        Some(ConnectionHandlerEvent::Custom(out)) => out,
        event => panic!("{event:?}"),
    };
    assert!(matches!(
        client.on_connection_handler_event(out),
        Some(DialReply { sender: 5, result: Ok(_) })
    ));
    let reply = client.on_connection_handler_event(ConnectionHandlerOutEvent::DialFailed {
        err: IoError::Kind(IoErrorKind::TimedOut),
        sender: 6,
    });
    assert!(matches!(reply, Some(DialReply { sender: 6, result: Err(_) })));
}

#[test]
fn client_handler_reports_failures() {
    let mut handler: Handler = IntoConnectionHandler::default().into_handler();
    assert_eq!(handler.connection_keep_alive(), KeepAlive::Yes);
    let id = ListenerId::next();
    handler.on_behaviour_event(ConnectionHandlerInEvent::Listen {
        listener_id: id,
        local_peer_id: peer(0),
        local_addr: addr(90),
    });
    let info = match handler.poll() {
        Some(ConnectionHandlerEvent::OutboundSubstreamRequest { info, .. }) => info,
        event => panic!("{event:?}"),
    };
    handler.on_connection_event(ConnectionEvent::DialUpgradeError {
        info,
        error: NegotiationError::Timeout,
    });
    handler.on_connection_event(ConnectionEvent::DialUpgradeError {
        info: OutboundOpenInfo::Dial { connection_sender: 6 },
        error: NegotiationError::Failed { reason: "x".to_string() },
    });
    handler.on_connection_event(ConnectionEvent::ListenUpgradeError {
        error: NegotiationError::Timeout,
    });
    handler.on_connection_event(ConnectionEvent::AddressChange);
    handler.on_connection_event(ConnectionEvent::FullyNegotiatedInbound {
        protocol: InboundUpgradeOutput {
            listen_addr: addr(90),
            connection: connection(1000),
        },
    });
    assert!(matches!(
        handler.poll(),
        Some(ConnectionHandlerEvent::Custom(ConnectionHandlerOutEvent::NewConnection { .. }))
    ));
    let mut client: Behaviour = Client::new(peer(0));
    match handler.poll() {
        Some(ConnectionHandlerEvent::Custom(out)) => {
            assert!(client.on_connection_handler_event(out).is_none());
        }
        event => panic!("{event:?}"),
    }
    assert!(matches!(
        client.poll(Received::Closed),
        Step::PollTransport {
            event: BehaviourToTransportEvent::ListenFailed {
                err: IoError::Kind(IoErrorKind::TimedOut), listener_id, ..
            },
        } if listener_id == id
    ));
    assert!(matches!(
        handler.poll(),
        Some(ConnectionHandlerEvent::Custom(ConnectionHandlerOutEvent::DialFailed {
            err, sender: 6
        })) if err.message() == "x"
    ));
    assert!(handler.poll().is_none());
}

#[test]
fn swarm_events_do_not_matter_to_a_client() {
    let mut client: Behaviour = Client::new(peer(0));
    client.on_swarm_event(FromSwarm::ListenerClosed);
    assert_eq!(client.pending_actions.len(), 0);
    assert!(matches!(client.poll(Received::Closed), Step::FlushTransport));
}

#[test]
fn request_without_room_is_kept() {
    let (mut transport, _client) = pair();
    transport.dial(addr(80), 5);
    transport.dial(addr(81), 6);
    let event = match transport.poll::<Stream>(Received::Pending) {
        TransportStep::PollSender { event } => event,
        step => panic!("{step:?}"),
    };
    let step: TransportStep = transport.behaviour_ready(event, false);
    assert!(matches!(step, TransportStep::FlushSender));
    assert_eq!(transport.pending_to_behaviour.len(), 2);
    assert!(matches!(
        transport.poll::<Stream>(Received::Pending),
        TransportStep::PollSender {
            event: TransportToBehaviourEvent::Dial { connection_sender: 5, .. }
        }
    ));
}

#[test]
fn listen_outcomes_become_transport_events() {
    let (mut transport, _client) = pair();
    let id = transport.listen_on(addr(90), "l", 1).unwrap();
    assert!(matches!(
        transport.poll::<Stream>(Received::Item(BehaviourToTransportEvent::PeerClosed {
            peer_id: peer(1),
            peer_addr: addr(1),
        })),
        TransportStep::PollBehaviour
    ));
    assert!(matches!(
        transport.poll::<Stream>(Received::Item(BehaviourToTransportEvent::ListenSuccess {
            listener_id: id,
            local_addr: addr(90),
        })),
        TransportStep::Done(Polled::Ready(TransportEvent::NewAddress { listener_id, listen_addr }))
            if listener_id == id && listen_addr == addr(90)
    ));
    assert!(matches!(
        transport.poll::<Stream>(Received::Item(BehaviourToTransportEvent::ListenFailed {
            err: IoError::Kind(IoErrorKind::TimedOut),
            listener_id: id,
            local_addr: addr(90),
        })),
        TransportStep::Done(Polled::Ready(TransportEvent::ListenerError {
            error: Error::ListenFailed(_), ..
        }))
    ));
    assert!(transport.listeners[0].receiver.is_none());
}

#[test]
fn listener_can_be_removed() {
    let (mut transport, _client) = pair();
    let id = ListenerId::next();
    transport.listen_as(id, addr(90), "l", 1);
    assert!(!transport.remove_listener(ListenerId::next()));
    assert!(transport.remove_listener(id));
    assert!(transport.remove_listener(id));
    let given = transport.listener_polled(id, Received::Item(Ok(connection(1000))));
    assert!(matches!(given, Received::Closed));
    assert_eq!(transport.listeners.len(), 0);
    assert!(!transport.remove_listener(id));
}

#[test]
fn listener_gives_its_connections() {
    let (mut transport, _client) = pair();
    let id = transport.listen_on(addr(90), "l", 1).unwrap();
    assert!(matches!(
        transport.listener_polled::<Stream>(id, Received::Pending),
        Received::Pending
    ));
    match transport.listener_polled(id, Received::Item(Ok(connection(1000)))) {
        Received::Item(TransportEvent::Incoming {
            listener_id,
            upgrade: Ok(connection),
            local_addr,
            send_back_addr,
        }) => {
            assert_eq!(listener_id, id);
            assert_eq!(connection.remote_addr(), &addr(1000));
            assert_eq!(local_addr, addr(90));
            assert_eq!(send_back_addr, addr(1000));
        }
        given => panic!("{given:?}"),
    }
    assert_eq!(transport.listeners.len(), 1);
    assert!(matches!(
        transport
            .listener_polled::<Stream>(id, Received::Item(Err(IoError::Kind(IoErrorKind::TimedOut)))),
        Received::Item(TransportEvent::ListenerError { error: Error::DialFailed(_), .. })
    ));
    assert!(matches!(
        transport.listener_polled::<Stream>(id, Received::Pending),
        Received::Closed
    ));
    assert!(matches!(
        transport.listener_polled::<Stream>(id, Received::Pending),
        Received::Closed
    ));
}

#[test]
fn listener_whose_sender_is_gone_is_dropped() {
    let (mut transport, _client) = pair();
    let id = transport.listen_on(addr(90), "l", 1).unwrap();
    let other = transport.listen_on(addr(91), "m", 2).unwrap();
    assert!(matches!(
        transport.listener_polled::<Stream>(id, Received::Closed),
        Received::Closed
    ));
    assert_eq!(transport.listeners.len(), 1);
    assert_eq!(transport.listeners[0].listener_id, other);
    let mut listener = Listener {
        local_addr: addr(90),
        listener_id: id,
        receiver: Some(1),
    };
    assert!(matches!(listener.poll_next::<Stream>(Received::Closed), Received::Closed));
    assert_eq!(listener.receiver, Some(1));
}

#[test]
fn dial_outcomes_become_results() {
    let ok = transport::dialed(Some(Ok(connection(80))));
    assert_eq!(ok.unwrap().remote_addr(), &addr(80));
    let failed = transport::dialed::<Stream>(Some(Err(IoError::Kind(IoErrorKind::TimedOut))));
    assert!(matches!(failed, Err(Error::DialFailed(IoError::Kind(IoErrorKind::TimedOut)))));
    let dropped = transport::dialed::<Stream>(None);
    assert_eq!(
        dropped.unwrap_err().message(),
        "dial failed: connection sender is dropped"
    );
}

#[test]
fn dial_as_listener_is_not_supported() {
    let (mut transport, _client) = pair();
    assert!(matches!(
        transport.dial_as_listener(addr(80)),
        Err(TransportError::Other(Error::UnsupportedDialAsListener))
    ));
    assert_eq!(transport.pending_to_behaviour.len(), 0);
}

fn request(dst_addr: &str, dialer_addr: &str) -> ConnectRequest {
    ConnectRequest {
        dst_addr: dst_addr.to_string(),
        dialer_addr: dialer_addr.to_string(),
    }
}

#[test]
fn connect_request_is_decided_by_the_shared_set() {
    let set = Arc::new(DashSet::new());
    let handler: Handler = IntoConnectionHandler::new(set.clone()).into_handler();
    let upgrade = handler.listen_protocol();
    assert_eq!(upgrade.protocol_info(), "/auto-relay/0.1/connect");
    match upgrade.on_request(Ok(Some(request("/tcp/1", "/tcp/2")))) {
        InboundDecision::Refuse {
            response: ConnectResponse { result: Some(Outcome::Failed { reason }) },
            err: UpgradeError::ActionFailed { action: UpgradeAction::Connect, reason: Some(r) },
        } => {
            assert_eq!(reason, "dst addr /tcp/1 not listen");
            assert_eq!(r, reason);
        }
        decision => panic!("{decision:?}"),
    }
    set.insert(Multiaddr::parse("/tcp/1").unwrap());
    match upgrade.on_request(Ok(Some(request("/tcp/1", "/tcp/2")))) {
        InboundDecision::Accept {
            response: ConnectResponse { result: Some(Outcome::Success) },
            accepted,
        } => {
            let accepted = accepted.written(Ok(())).unwrap();
            let output = InboundUpgrade::finish(accepted, Bytes::from_static(b"x"), "stream");
            assert_eq!(output.listen_addr.text(), "/tcp/1");
            assert_eq!(output.connection.remote_addr().text(), "/tcp/2");
        }
        decision => panic!("{decision:?}"),
    }
    let waiting = IntoConnectionHandler::new(set);
    assert!(waiting.inbound_protocol().listen_addrs.len() == 1);
}

#[test]
fn fresh_client_handler_listens_nowhere() {
    let waiting = IntoConnectionHandler::default();
    assert_eq!(waiting.inbound_protocol().listen_addrs.len(), 0);
}

#[test]
fn bad_connect_requests_to_a_client_are_refused() {
    let refused = |decision: InboundDecision| match decision {
        InboundDecision::Refuse {
            response: ConnectResponse { result: Some(Outcome::Failed { reason }) },
            err: UpgradeError::InvalidAddr(text),
        } => (reason, text),
        decision => panic!("{decision:?}"),
    };
    let parse = |text: &str| Multiaddr::parse(text);
    assert_eq!(
        refused(decide(request("x", "y"), parse("x"), true, parse("y"))),
        ("invalid addr: x".to_string(), "x".to_string())
    );
    assert_eq!(
        refused(decide(request("/tcp/1", "y"), parse("/tcp/1"), true, parse("y"))),
        ("invalid addr: y".to_string(), "y".to_string())
    );
    let upgrade = InboundUpgrade::new(Arc::new(DashSet::new()));
    assert!(matches!(
        upgrade.on_request(Ok(None)),
        InboundDecision::Fail { err: UpgradeError::UnexpectedStreamClosed }
    ));
    assert!(matches!(
        upgrade.on_request(Err(IoError::Kind(IoErrorKind::ConnectionAborted))),
        InboundDecision::Fail { err: UpgradeError::Io(_) }
    ));
    match decide(request("/tcp/1", "/tcp/2"), parse("/tcp/1"), true, parse("/tcp/2")) {
        InboundDecision::Accept { accepted, .. } => assert!(matches!(
            accepted.written(Err(IoError::Kind(IoErrorKind::NotConnected))),
            Err(UpgradeError::Io(_))
        )),
        decision => panic!("{decision:?}"),
    }
}

#[test]
fn client_exchanges_are_written_and_read() {
    assert_eq!(dial_request(&addr(80)).addr, "/ip4/1.2.3.4/tcp/80");
    let listen = listen_request(&peer(0), &addr(90));
    assert_eq!(listen.local_peer_id, peer(0).text());
    assert_eq!(listen.local_addr, "/ip4/1.2.3.4/tcp/90");
    assert_eq!(OutboundUpgrade::new_dial(addr(80)).protocol_info(), "/auto-relay/0.1");
    assert_eq!(
        OutboundUpgrade::new_listen(peer(0), addr(90)).protocol_info(),
        "/auto-relay/0.1"
    );
    assert!(matches!(
        request_sent(Err(IoError::Kind(IoErrorKind::BrokenPipe))),
        Err(UpgradeError::Io(_))
    ));
    assert!(dial_answered(Ok(Some(DialResponse { result: Some(Outcome::Success) }))).is_ok());
    assert!(matches!(
        dial_answered(Ok(Some(DialResponse { result: None }))),
        Err(UpgradeError::UnexpectedResult { action: UpgradeAction::Dial })
    ));
    assert!(matches!(
        listen_answered(Ok(Some(ListenResponse {
            result: Some(Outcome::Failed { reason: "no".to_string() })
        }))),
        Err(UpgradeError::ActionFailed { action: UpgradeAction::Listen, reason: Some(r) })
            if r == "no"
    ));
    assert!(matches!(listen_answered(Ok(None)), Err(UpgradeError::UnexpectedStreamClosed)));
    let connection = dialed(addr(80), Bytes::from_static(b"x"), "stream");
    assert_eq!(connection.remote_addr(), &addr(80));
}

#[test]
fn behaviour_is_told_as_much_as_there_is_room_for() {
    let (mut transport, _client) = pair();
    for sender in 1u32..4 {
        transport.dial(addr(80), sender);
    }
    let mut told = Vec::new();
    let mut step: TransportStep = transport.poll(Received::Pending);
    loop {
        step = match step {
            TransportStep::PollSender { event } => transport.behaviour_ready(event, told.len() < 2),
            TransportStep::SendEvent {
                event: TransportToBehaviourEvent::Dial { connection_sender, .. },
            } => {
                told.push(connection_sender);
                transport.behaviour_sent()
            }
            step => {
                assert!(matches!(step, TransportStep::FlushSender));
                break;
            }
        };
    }
    assert_eq!(told, vec![1, 2]);
    assert!(matches!(
        transport.pending_to_behaviour.front(),
        Some(TransportToBehaviourEvent::Dial { connection_sender: 3, .. })
    ));
}

#[test]
fn client_tells_the_transport_in_order() {
    let mut client: Behaviour = Client::new(peer(0));
    let ids: Vec<ListenerId> = (0..3).map(|_| ListenerId::next()).collect();
    for id in &ids {
        client.on_connection_handler_event(ConnectionHandlerOutEvent::ListenSuccess {
            listener_id: *id,
            local_peer_id: peer(0),
            listen_addr: addr(90),
        });
    }
    let mut told = Vec::new();
    let mut step = client.poll(Received::Closed);
    loop {
        step = match step {
            Step::PollTransport { event } => {
                let readiness = if told.len() < 2 {
                    Readiness::Ready
                } else {
                    Readiness::Pending
                };
                client.transport_ready(event, readiness)
            }
            Step::SendEvent {
                event: BehaviourToTransportEvent::ListenSuccess { listener_id, .. },
            } => {
                told.push(listener_id);
                client.transport_sent(true)
            }
            step => {
                assert!(matches!(step, Step::FlushTransport));
                break;
            }
        };
    }
    assert_eq!(told, ids[..2].to_vec());
    assert_eq!(client.pending_to_transport.len(), 1);
}

#[test]
fn client_listener_stays_whatever_else_is_asked() {
    let (mut transport, mut client) = pair();
    let id = transport.listen_on(addr(90), "l", 1).unwrap();
    transport.listen_on(addr(91), "m", 2).unwrap();
    transport.dial(addr(80), 5);
    while let Some(event) = transport.pending_to_behaviour.pop_front() {
        client.poll(Received::Item(event));
    }
    new_connection(&mut client, 90);
    assert!(matches!(
        client.poll(Received::Closed),
        Step::PollListener { listener_id, .. } if listener_id == id
    ));
    assert_eq!(client.listener_sender(&addr(90)), Some(&mut "l"));
}
