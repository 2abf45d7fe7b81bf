use bytes::Bytes;
use libp2p_auto_relay::address::{Multiaddr, PeerId};
use libp2p_auto_relay::connection::Connection;
use libp2p_auto_relay::endpoint::behaviour::{DialReply, PollStep};
use libp2p_auto_relay::endpoint::event::{
    BehaviourToTransportEvent, ConnectionHandlerInEvent, ConnectionHandlerOutEvent,
    OutboundOpenInfo, TransportToBehaviourEvent,
};
use libp2p_auto_relay::endpoint::handler::{
    ConnectionHandler, IntoConnectionHandler, OutboundOutput,
};
use libp2p_auto_relay::endpoint::upgrade::inbound::InboundDecision;
use libp2p_auto_relay::endpoint::upgrade::outbound::{
    dial_answered, dial_request, dialed, listen_answered, listen_request, request_sent,
};
use libp2p_auto_relay::endpoint::upgrade::{
    InboundUpgrade, InboundUpgradeOutput, OutboundUpgrade, UpgradeAction, UpgradeError,
};
use libp2p_auto_relay::endpoint::{Behaviour, Event};
use libp2p_auto_relay::error::{IoError, IoErrorKind};
use libp2p_auto_relay::message::{
    ConnectRequest, ConnectResponse, DialResponse, ListenResponse, Outcome,
};
use libp2p_auto_relay::swarm::{
    ConnectionEvent, ConnectionHandlerEvent, FromSwarm, KeepAlive, NegotiationError,
    NetworkBehaviourAction, Polled, Readiness,
};
use libp2p_auto_relay::table::Table;
use libp2p_core::transport::ListenerId;
use libp2p_swarm::ConnectionId;

type Stream = &'static str;
type Endpoint = Behaviour<Stream, u32, &'static str, u8, &'static str>;
type Step = PollStep<Stream, u32, &'static str>;
type Handler = ConnectionHandler<Stream, u32, &'static str>;

fn peer(i: u8) -> PeerId {
    PeerId::from_bytes(&[0x00, 1, i]).unwrap()
}

fn addr(port: u16) -> Multiaddr {
    Multiaddr::parse(&format!("/ip4/1.2.3.4/tcp/{port}")).unwrap()
}

fn connection(port: u16) -> Connection<Stream> {
    Connection::new(addr(port), Bytes::new(), "stream")
}

/// An endpoint with transports for the relays 10 and 11.
fn endpoint() -> Endpoint {
    let mut transports = Table::new();
    transports.insert(peer(10), 1);
    transports.insert(peer(11), 2);
    Behaviour::new(peer(0), transports)
}

fn dial(relay: u8, dst: u8, sender: u32) -> TransportToBehaviourEvent<u32, &'static str> {
    TransportToBehaviourEvent::Dial {
        dst_peer_id: peer(dst),
        dst_addr: addr(80),
        relay_addr: addr(4000 + u16::from(relay)),
        relay_peer_id: peer(relay),
        connection_sender: sender,
    }
}

fn listen(
    relay: u8,
    listener_id: ListenerId,
    port: u16,
    sender: &'static str,
) -> TransportToBehaviourEvent<u32, &'static str> {
    TransportToBehaviourEvent::Listen {
        listener_id,
        local_peer_id: peer(0),
        local_addr: addr(port),
        relay_peer_id: peer(relay),
        relay_addr: addr(4000 + u16::from(relay)),
        connection_sender: sender,
    }
}

fn established(relay: u8, id: usize) -> FromSwarm {
    FromSwarm::ConnectionEstablished {
        peer_id: peer(relay),
        connection_id: ConnectionId::new_unchecked(id),
    }
}

fn closed(relay: u8, id: usize) -> FromSwarm {
    FromSwarm::ConnectionClosed {
        peer_id: peer(relay),
        connection_id: ConnectionId::new_unchecked(id),
        remote_addr: addr(4000),
    }
}

fn connect(endpoint: &mut Endpoint, relay: u8, id: usize) {
    let step = endpoint.poll(Some(dial(relay, 1, 0)));
    assert!(matches!(step, Step::Done(Polled::Ready(NetworkBehaviourAction::Dial { .. }))));
    let outcome = endpoint.on_swarm_event(established(relay, id));
    assert!(outcome.wake);
    let step = endpoint.poll(None);
    assert!(matches!(step, Step::Done(Polled::Ready(NetworkBehaviourAction::NotifyHandler { .. }))));
}

#[test]
fn relay_is_dialed_once_and_requests_are_released_in_order() {
    let mut endpoint = endpoint();
    match endpoint.poll(Some(dial(10, 1, 1))) {
        Step::Done(Polled::Ready(NetworkBehaviourAction::Dial { peer_id, address, handler })) => {
            assert_eq!(peer_id, peer(10));
            assert_eq!(address, addr(4010));
            assert_eq!(handler.keepalive, KeepAlive::Yes);
            assert_eq!(handler.local_peer_id, peer(0));
        }
        step => panic!("{step:?}"),
    }
    assert!(matches!(endpoint.poll(Some(dial(10, 2, 2))), Step::Done(Polled::Pending)));
    assert!(matches!(endpoint.poll(Some(dial(10, 3, 3))), Step::Done(Polled::Pending)));
    assert!(matches!(endpoint.poll(None), Step::Done(Polled::Pending)));
    assert!(endpoint.on_swarm_event(established(10, 1)).wake);
    for i in 1u8..4 {
        match endpoint.poll(None) {
            Step::Done(Polled::Ready(NetworkBehaviourAction::NotifyHandler {
                peer_id,
                event: ConnectionHandlerInEvent::Dial { dst_peer_id, connection_sender, .. },
                ..
            })) => {
                assert_eq!(peer_id, peer(10));
                assert_eq!(dst_peer_id, peer(i));
                assert_eq!(connection_sender, u32::from(i));
            }
            step => panic!("{step:?}"),
        }
    }
    assert!(matches!(endpoint.poll(None), Step::Done(Polled::Pending)));
    match endpoint.poll(Some(dial(10, 4, 4))) {
        Step::Done(Polled::Ready(NetworkBehaviourAction::NotifyHandler { .. })) => {}
        step => panic!("{step:?}"),
    }
}

#[test]
fn requests_for_a_relay_that_cannot_be_dialed_fail() {
    let mut endpoint = endpoint();
    let id = ListenerId::next();
    endpoint.poll(Some(dial(10, 1, 1)));
    endpoint.poll(Some(listen(10, id, 90, "l")));
    endpoint.poll(Some(dial(10, 2, 2)));
    let outcome = endpoint.on_swarm_event(FromSwarm::DialFailure {
        peer_id: Some(peer(10)),
        error: "no route".to_string(),
    });
    assert!(outcome.wake);
    let told: Vec<(u32, String)> = outcome
        .replies
        .into_iter()
        .map(|DialReply { sender, result }| (sender, result.unwrap_err().message()))
        .collect();
    assert_eq!(
        told,
        vec![
            (1, format!("dial {} /ip4/1.2.3.4/tcp/80 failed: no route", peer(1).text())),
            (2, format!("dial {} /ip4/1.2.3.4/tcp/80 failed: no route", peer(2).text())),
        ]
    );
    let mut events = Vec::new();
    let mut step = endpoint.poll(None);
    loop {
        step = match step {
            Step::PollTransport { at, event } => {
                assert_eq!(at, 0);
                assert_eq!(*endpoint.transport_sender(at), 1);
                endpoint.transport_ready(at, event, Readiness::Ready)
            }
            Step::SendEvent { at, event } => {
                events.push(event);
                endpoint.transport_sent(at, true)
            }
            step => {
                assert!(matches!(step, Step::Done(Polled::Pending)));
                break;
            }
        };
    }
    assert_eq!(events.len(), 3);
    assert!(matches!(
        &events[0],
        BehaviourToTransportEvent::DialFailed { dst_peer_id, .. } if dst_peer_id == &peer(1)
    ));
    match &events[1] {
        BehaviourToTransportEvent::ListenFailed { err, listener_id, local_addr } => {
            assert_eq!(err.kind(), IoErrorKind::Other);
            assert_eq!(
                err.message(),
                format!("listen {} /ip4/1.2.3.4/tcp/90 failed: no route", peer(0).text())
            );
            assert_eq!(listener_id, &id);
            assert_eq!(local_addr, &addr(90));
        }
        event => panic!("{event:?}"),
    }
    assert!(matches!(
        &events[2],
        BehaviourToTransportEvent::DialFailed { dst_peer_id, .. } if dst_peer_id == &peer(2)
    ));
}

#[test]
fn relay_that_could_not_be_dialed_is_not_dialed_again() {
    let mut endpoint = endpoint();
    endpoint.poll(Some(dial(12, 1, 1)));
    endpoint.on_swarm_event(FromSwarm::DialFailure {
        peer_id: Some(peer(12)),
        error: "no route".to_string(),
    });
    assert!(matches!(endpoint.poll(Some(dial(12, 2, 2))), Step::Done(Polled::Pending)));
    assert!(endpoint.on_swarm_event(established(12, 1)).wake);
    assert!(matches!(
        endpoint.poll(None),
        Step::Done(Polled::Ready(NetworkBehaviourAction::NotifyHandler {
            event: ConnectionHandlerInEvent::Dial { connection_sender: 2, .. }, ..
        }))
    ));
}

#[test]
fn dialers_of_a_relay_without_a_transport_are_dropped() {
    let mut endpoint = endpoint();
    endpoint.poll(Some(dial(12, 1, 1)));
    let outcome = endpoint.on_swarm_event(FromSwarm::DialFailure {
        peer_id: Some(peer(12)),
        error: "no route".to_string(),
    });
    assert!(outcome.replies.is_empty());
    assert!(outcome.wake);
}

#[test]
fn dial_failure_of_nobody_does_not_matter() {
    let mut endpoint = endpoint();
    endpoint.poll(Some(dial(10, 1, 1)));
    let outcome = endpoint.on_swarm_event(FromSwarm::DialFailure {
        peer_id: None,
        error: "no route".to_string(),
    });
    assert!(!outcome.wake && outcome.replies.is_empty());
    assert!(endpoint.on_swarm_event(established(10, 1)).wake);
}

#[test]
fn relay_counts_as_connected_until_its_last_connection_is_closed() {
    let mut endpoint = endpoint();
    connect(&mut endpoint, 10, 1);
    assert!(endpoint.on_swarm_event(closed(10, 2)).wake);
    assert_eq!(endpoint.established_relay_connection.len(), 1);
    endpoint.on_swarm_event(closed(10, 1));
    assert_eq!(endpoint.established_relay_connection.len(), 0);
    match endpoint.poll(Some(dial(10, 1, 1))) {
        Step::Done(Polled::Ready(NetworkBehaviourAction::Dial { .. })) => {}
        step => panic!("{step:?}"),
    }
}

#[test]
fn connection_that_was_not_asked_for_does_not_count() {
    let mut endpoint = endpoint();
    assert!(!endpoint.on_swarm_event(established(10, 1)).wake);
    assert_eq!(endpoint.established_relay_connection.len(), 0);
}

#[test]
fn closed_connection_is_told_to_the_transport() {
    let mut endpoint = endpoint();
    endpoint.on_swarm_event(closed(11, 5));
    match endpoint.poll(None) {
        Step::PollTransport {
            at: 1,
            event: BehaviourToTransportEvent::PeerClosed { peer_id, peer_addr, connection_id },
        } => {
            assert_eq!(peer_id, peer(11));
            assert_eq!(peer_addr, addr(4000));
            assert_eq!(connection_id, ConnectionId::new_unchecked(5));
        }
        step => panic!("{step:?}"),
    }
}

#[test]
fn connection_goes_to_its_listener() {
    let mut endpoint = endpoint();
    connect(&mut endpoint, 10, 1);
    let id = ListenerId::next();
    assert!(matches!(
        endpoint.poll(Some(listen(10, id, 90, "l"))),
        Step::Done(Polled::Ready(NetworkBehaviourAction::NotifyHandler {
            event: ConnectionHandlerInEvent::Listen { listener_id, .. }, ..
        })) if listener_id == id
    ));
    let outcome = endpoint.on_connection_handler_event(ConnectionHandlerOutEvent::NewConnection {
        relay_peer_id: peer(10),
        listen_addr: addr(90),
        connection: connection(1000),
    });
    assert!(outcome.wake && outcome.reply.is_none());
    // no room at first
    let step = match endpoint.poll(None) {
        Step::PollListener { new_connection, listener_id } => {
            assert_eq!(listener_id, id);
            assert_eq!(endpoint.listener_sender(&addr(90)), Some(&mut "l"));
            endpoint.listener_ready(new_connection, listener_id, Readiness::Pending)
        }
        step => panic!("{step:?}"),
    };
    assert!(matches!(step, Step::Done(Polled::Pending)));
    assert_eq!(endpoint.pending_new_connections.len(), 1);
    let step = match endpoint.poll(None) {
        Step::PollListener { new_connection, listener_id } => {
            endpoint.listener_ready(new_connection, listener_id, Readiness::Ready)
        }
        step => panic!("{step:?}"),
    };
    let step = match step {
        Step::SendConnection { delivery, connection } => {
            assert_eq!(connection.remote_addr(), &addr(1000));
            endpoint.listener_sent(delivery, Ok(()))
        }
        step => panic!("{step:?}"),
    };
    let step = match step {
        Step::FlushListener { delivery } => {
            assert!(endpoint.has_transport(&delivery.relay_peer_id));
            endpoint.listener_flushed(delivery, Ok(()))
        }
        step => panic!("{step:?}"),
    };
    assert!(matches!(
        step,
        Step::PollTransport {
            at: 0,
            event: BehaviourToTransportEvent::ListenSuccess { listener_id, listen_addr },
        } if listener_id == id && listen_addr == addr(90)
    ));
}

#[test]
fn connection_for_nobody_is_reported() {
    let mut endpoint = endpoint();
    endpoint.on_connection_handler_event(ConnectionHandlerOutEvent::NewConnection {
        relay_peer_id: peer(10),
        listen_addr: addr(90),
        connection: connection(1000),
    });
    assert!(matches!(
        endpoint.poll(None),
        Step::Done(Polled::Ready(NetworkBehaviourAction::GenerateEvent(
            Event::UnexpectedConnection { listen_addr }
        ))) if listen_addr == addr(90)
    ));
    assert_eq!(endpoint.listener_sender(&addr(90)), None);
}

#[test]
fn listener_that_is_gone_is_reported() {
    let mut endpoint = endpoint();
    connect(&mut endpoint, 10, 1);
    endpoint.poll(Some(listen(10, ListenerId::next(), 90, "l")));
    for round in 0..3 {
        endpoint.on_connection_handler_event(ConnectionHandlerOutEvent::NewConnection {
            relay_peer_id: peer(10),
            listen_addr: addr(90),
            connection: connection(1000),
        });
        let step = match endpoint.poll(None) {
            Step::PollListener { new_connection, listener_id } if round == 0 => {
                endpoint.listener_ready(new_connection, listener_id, Readiness::Failed("gone"))
            }
            Step::PollListener { new_connection, listener_id } => {
                endpoint.listener_ready(new_connection, listener_id, Readiness::Ready)
            }
            step => panic!("{step:?}"),
        };
        let step = match step {
            Step::SendConnection { delivery, .. } if round == 1 => {
                endpoint.listener_sent(delivery, Err("gone"))
            }
            Step::SendConnection { delivery, .. } => {
                match endpoint.listener_sent(delivery, Ok(())) {
                    Step::FlushListener { delivery } => {
                        endpoint.listener_flushed(delivery, Err("gone"))
                    }
                    step => panic!("{step:?}"),
                }
            }
            step => step,
        };
        assert!(matches!(
            step,
            Step::Done(Polled::Ready(NetworkBehaviourAction::GenerateEvent(
                Event::UnexpectedListenerClosed { listen_addr, err: "gone" }
            ))) if listen_addr == addr(90)
        ));
    }
}

#[test]
fn full_transport_is_told_later_and_others_now() {
    let mut endpoint = endpoint();
    endpoint.on_swarm_event(closed(10, 1));
    endpoint.on_swarm_event(closed(11, 2));
    let step = match endpoint.poll(None) {
        Step::PollTransport { at, event } => {
            assert_eq!(at, 0);
            endpoint.transport_ready(at, event, Readiness::Pending)
        }
        step => panic!("{step:?}"),
    };
    match step {
        Step::PollTransport { at, .. } => assert_eq!(at, 1),
        step => panic!("{step:?}"),
    }
    match endpoint.poll(None) {
        Step::PollTransport { at, .. } => assert_eq!(at, 0),
        step => panic!("{step:?}"),
    }
}

#[test]
fn transport_that_is_gone_is_forgotten() {
    let mut endpoint = endpoint();
    endpoint.on_swarm_event(closed(10, 1));
    let step = match endpoint.poll(None) {
        Step::PollTransport { at, event } => {
            endpoint.transport_ready(at, event, Readiness::Failed(()))
        }
        step => panic!("{step:?}"),
    };
    assert!(matches!(
        step,
        Step::Done(Polled::Ready(NetworkBehaviourAction::GenerateEvent(
            Event::UnexpectedTransportDropped
        )))
    ));
    assert!(!endpoint.has_transport(&peer(10)));
    assert!(endpoint.has_transport(&peer(11)));
}

#[test]
fn transport_that_takes_nothing_is_reported() {
    let mut endpoint = endpoint();
    endpoint.on_swarm_event(closed(10, 1));
    let step = match endpoint.poll(None) {
        Step::PollTransport { at, event } => endpoint.transport_ready(at, event, Readiness::Ready),
        step => panic!("{step:?}"),
    };
    let step = match step {
        Step::SendEvent { at, .. } => endpoint.transport_sent(at, false),
        step => panic!("{step:?}"),
    };
    assert!(matches!(
        step,
        Step::Done(Polled::Ready(NetworkBehaviourAction::GenerateEvent(
            Event::UnexpectedTransportDropped
        )))
    ));
    assert!(endpoint.has_transport(&peer(10)));
}

#[test]
fn handler_error_is_reported() {
    let mut endpoint = endpoint();
    assert!(endpoint.on_connection_handler_event(ConnectionHandlerOutEvent::Error("x")).wake);
    assert!(matches!(
        endpoint.poll(None),
        Step::Done(Polled::Ready(NetworkBehaviourAction::GenerateEvent(Event::OtherError("x"))))
    ));
}

#[test]
fn listen_outcome_is_told_to_the_transport_of_the_relay() {
    let mut endpoint = endpoint();
    let id = ListenerId::next();
    endpoint.on_connection_handler_event(ConnectionHandlerOutEvent::ListenFailed {
        err: IoError::Kind(IoErrorKind::TimedOut),
        relay_peer_id: peer(11),
        listener_id: id,
        local_peer_id: peer(0),
        listen_addr: addr(90),
    });
    assert!(matches!(
        endpoint.poll(None),
        Step::PollTransport {
            at: 1,
            event: BehaviourToTransportEvent::ListenFailed { listener_id, .. },
        } if listener_id == id
    ));
}

#[test]
fn dial_of_the_endpoint_is_answered_through_its_sender() {
    let mut endpoint = endpoint();
    let mut handler: Handler =
        IntoConnectionHandler::new(peer(0)).into_handler(&peer(10));
    handler.on_behaviour_event(ConnectionHandlerInEvent::Dial {
        dst_peer_id: peer(1),
        dst_addr: addr(80),
        connection_sender: 5,
    });
    let info = match handler.poll() {
        Some(ConnectionHandlerEvent::OutboundSubstreamRequest {
            protocol: OutboundUpgrade::Dial { dst_peer_id, dst_addr },
            info,
        }) => {
            assert_eq!(dst_peer_id, peer(1));
            assert_eq!(dst_addr, addr(80));
            info
        }
        event => panic!("{event:?}"),
    };
    assert!(handler.on_connection_event(ConnectionEvent::FullyNegotiatedOutbound {
        protocol: OutboundOutput::Dial(connection(80)),
        info,
    }));
    let out = match handler.poll() {
        Some(ConnectionHandlerEvent::Custom(out)) => out,
        event => panic!("{event:?}"),
    };
    let outcome = endpoint.on_connection_handler_event(out);
    assert!(!outcome.wake);
    assert!(matches!(outcome.reply, Some(DialReply { sender: 5, result: Ok(_) })));
}

#[test]
fn endpoint_handler_reports_failures() {
    let mut handler: Handler = IntoConnectionHandler::new(peer(0)).into_handler(&peer(10));
    let id = ListenerId::next();
    assert_eq!(handler.connection_keep_alive(), KeepAlive::Yes);
    handler.on_behaviour_event(ConnectionHandlerInEvent::Listen {
        listener_id: id,
        local_peer_id: peer(0),
        local_addr: addr(90),
    });
    let info = match handler.poll() {
        Some(ConnectionHandlerEvent::OutboundSubstreamRequest {
            protocol: OutboundUpgrade::Listen { listen_peer_id, listen_addr },
            info,
        }) => {
            assert_eq!(listen_peer_id, peer(0));
            assert_eq!(listen_addr, addr(90));
            info
        }
        event => panic!("{event:?}"),
    };
    handler.on_connection_event(ConnectionEvent::DialUpgradeError {
        info,
        error: NegotiationError::Timeout,
    });
    handler.on_connection_event(ConnectionEvent::DialUpgradeError {
        info: OutboundOpenInfo::Dial { connection_sender: 6 },
        error: NegotiationError::Failed { reason: "x".to_string() },
    });
    assert!(!handler.on_connection_event(ConnectionEvent::AddressChange));
    assert!(!handler.on_connection_event(ConnectionEvent::ListenUpgradeError {
        error: NegotiationError::Timeout,
    }));
    assert!(matches!(
        handler.poll(),
        Some(ConnectionHandlerEvent::Custom(ConnectionHandlerOutEvent::ListenFailed {
            err: IoError::Kind(IoErrorKind::TimedOut), listener_id, relay_peer_id, ..
        })) if listener_id == id && relay_peer_id == peer(10)
    ));
    assert!(matches!(
        handler.poll(),
        Some(ConnectionHandlerEvent::Custom(ConnectionHandlerOutEvent::DialFailed {
            err, sender: 6, ..
        })) if err.message() == "x"
    ));
    assert!(handler.poll().is_none());
}

#[test]
fn handed_over_connection_goes_before_other_events() {
    let mut handler: Handler = IntoConnectionHandler::new(peer(0)).into_handler(&peer(10));
    handler.on_behaviour_event(ConnectionHandlerInEvent::Dial {
        dst_peer_id: peer(1),
        dst_addr: addr(80),
        connection_sender: 5,
    });
    handler.on_connection_event(ConnectionEvent::FullyNegotiatedInbound {
        protocol: InboundUpgradeOutput {
            listen_peer_id: peer(0),
            listen_addr: addr(90),
            relay_peer_id: peer(10),
            connection: connection(1000),
        },
    });
    assert!(matches!(
        handler.poll(),
        Some(ConnectionHandlerEvent::Custom(ConnectionHandlerOutEvent::NewConnection {
            listen_addr, ..
        })) if listen_addr == addr(90)
    ));
    assert!(matches!(
        handler.poll(),
        Some(ConnectionHandlerEvent::OutboundSubstreamRequest { .. })
    ));
}

fn request(dst_addr: &str, dst_peer_id: &str, dialer_addr: &str) -> ConnectRequest {
    ConnectRequest {
        dst_addr: dst_addr.to_string(),
        dst_peer_id: dst_peer_id.to_string(),
        dialer_addr: dialer_addr.to_string(),
    }
}

#[test]
fn connect_request_for_the_endpoint_is_accepted() {
    let upgrade = InboundUpgrade::new(peer(0), Some(peer(10)));
    assert_eq!(upgrade.protocol_info(), "/auto-relay/0.1/connect");
    let decision = upgrade.on_request(Ok(Some(request(
        "/ip4/1.2.3.4/tcp/80",
        &peer(0).text(),
        "/ip4/1.2.3.4/tcp/1000",
    ))));
    match decision {
        InboundDecision::Accept {
            response: ConnectResponse { result: Some(Outcome::Success) },
            accepted,
        } => {
            let accepted = accepted.written(Ok(())).unwrap().written(Ok(())).unwrap();
            let output = upgrade.finish(accepted, Bytes::from_static(b"rest"), "stream");
            assert_eq!(output.listen_peer_id, peer(0));
            assert_eq!(output.listen_addr, addr(80));
            assert_eq!(output.relay_peer_id, peer(10));
            assert_eq!(output.connection.remote_addr(), &addr(1000));
            assert_eq!(output.connection.remaining_buf, Bytes::from_static(b"rest"));
        }
        decision => panic!("{decision:?}"),
    }
}

#[test]
fn bad_connect_requests_are_refused() {
    let upgrade = InboundUpgrade::new(peer(0), Some(peer(10)));
    let refuse = |r: ConnectRequest| match upgrade.on_request(Ok(Some(r))) {
        InboundDecision::Refuse {
            response: ConnectResponse { result: Some(Outcome::Failed { reason }) },
            err,
        } => (reason, err),
        decision => panic!("{decision:?}"),
    };
    let (reason, err) = refuse(request("x", "y", "z"));
    assert_eq!(reason, "invalid addr: x");
    assert!(matches!(err, UpgradeError::InvalidAddr(a) if a == "x"));
    let (reason, err) = refuse(request("/tcp/1", "y", "z"));
    assert_eq!(reason, "invalid peer id: y");
    assert!(matches!(err, UpgradeError::InvalidPeerId(p) if p == "y"));
    let (reason, err) = refuse(request("/tcp/1", &peer(1).text(), "z"));
    assert_eq!(reason, "dst addr /tcp/1 not listen");
    assert!(matches!(
        err,
        UpgradeError::ActionFailed { action: UpgradeAction::Connect, reason: Some(r) }
            if r == "dst addr /tcp/1 not listen"
    ));
    let (reason, err) = refuse(request("/tcp/1", &peer(0).text(), "z"));
    assert_eq!(reason, "invalid addr: z");
    assert!(matches!(err, UpgradeError::InvalidAddr(a) if a == "z"));
}

#[test]
fn broken_inbound_exchanges_fail() {
    let upgrade = InboundUpgrade::new(peer(0), Some(peer(10)));
    assert!(matches!(
        upgrade.on_request(Ok(None)),
        InboundDecision::Fail { err: UpgradeError::UnexpectedStreamClosed }
    ));
    assert!(matches!(
        upgrade.on_request(Err(IoError::Kind(IoErrorKind::ConnectionReset))),
        InboundDecision::Fail { err: UpgradeError::Io(_) }
    ));
    match upgrade.on_request(Ok(Some(request("/tcp/1", &peer(0).text(), "/tcp/2")))) {
        InboundDecision::Accept { accepted, .. } => assert!(matches!(
            accepted.written(Err(IoError::Kind(IoErrorKind::BrokenPipe))),
            Err(UpgradeError::Io(IoError::Kind(IoErrorKind::BrokenPipe)))
        )),
        decision => panic!("{decision:?}"),
    }
}

#[test]
fn requests_of_the_endpoint_are_written_as_texts() {
    let dial = dial_request(&peer(1), &addr(80));
    assert_eq!(dial.peer_id, peer(1).text());
    assert_eq!(dial.addr, "/ip4/1.2.3.4/tcp/80");
    let listen = listen_request(&peer(0), &addr(90));
    assert_eq!(listen.listen_peer_id, peer(0).text());
    assert_eq!(listen.listen_addr, "/ip4/1.2.3.4/tcp/90");
    assert_eq!(
        OutboundUpgrade::new_dial(peer(1), addr(80)).protocol_info(),
        "/auto-relay/0.1/dial"
    );
    assert_eq!(
        OutboundUpgrade::new_listen(peer(0), addr(90)).protocol_info(),
        "/auto-relay/0.1/listen"
    );
}

#[test]
fn answers_to_the_endpoint_are_understood() {
    assert!(request_sent(Ok(())).is_ok());
    assert!(matches!(
        request_sent(Err(IoError::Kind(IoErrorKind::BrokenPipe))),
        Err(UpgradeError::Io(_))
    ));
    assert!(dial_answered(Ok(Some(DialResponse { result: Some(Outcome::Success) }))).is_ok());
    assert!(matches!(
        dial_answered(Ok(Some(DialResponse { result: None }))),
        Err(UpgradeError::UnexpectedResult { action: UpgradeAction::Dial })
    ));
    assert!(matches!(
        dial_answered(Ok(Some(DialResponse {
            result: Some(Outcome::Failed { reason: "no".to_string() })
        }))),
        Err(UpgradeError::ActionFailed { action: UpgradeAction::Dial, reason: Some(r) })
            if r == "no"
    ));
    assert!(matches!(dial_answered(Ok(None)), Err(UpgradeError::UnexpectedStreamClosed)));
    assert!(listen_answered(Ok(Some(ListenResponse { result: Some(Outcome::Success) }))).is_ok());
    assert!(matches!(
        listen_answered(Ok(Some(ListenResponse { result: None }))),
        Err(UpgradeError::UnexpectedResult { action: UpgradeAction::Listen })
    ));
    assert!(matches!(listen_answered(Ok(None)), Err(UpgradeError::UnexpectedStreamClosed)));
    assert!(matches!(
        listen_answered(Err(IoError::Kind(IoErrorKind::InvalidData))),
        Err(UpgradeError::Io(_))
    ));
    let connection = dialed(addr(80), Bytes::from_static(b"x"), "stream");
    assert_eq!(connection.remote_addr(), &addr(80));
    assert_eq!(connection.remaining_buf, Bytes::from_static(b"x"));
}

#[test]
fn transports_are_told_as_much_as_they_have_room_for() {
    let mut endpoint = endpoint();
    for id in 1usize..4 {
        endpoint.on_swarm_event(closed(10, id));
    }
    endpoint.on_swarm_event(closed(11, 4));
    let room = [2usize, 5];
    let mut told: Vec<Vec<ConnectionId>> = vec![vec![], vec![]];
    let mut step = endpoint.poll(None);
    loop {
        step = match step {
            Step::PollTransport { at, event } => {
                let readiness = if told[at].len() < room[at] {
                    Readiness::Ready
                } else {
                    Readiness::Pending
                };
                endpoint.transport_ready(at, event, readiness)
            }
            Step::SendEvent {
                at,
                event: BehaviourToTransportEvent::PeerClosed { connection_id, .. },
            } => {
                told[at].push(connection_id);
                endpoint.transport_sent(at, true)
            }
            step => {
                assert!(matches!(step, Step::Done(Polled::Pending)));
                break;
            }
        };
    }
    let id = ConnectionId::new_unchecked;
    assert_eq!(told, vec![vec![id(1), id(2)], vec![id(4)]]);
    assert!(matches!(
        endpoint.poll(None),
        Step::PollTransport {
            at: 0,
            event: BehaviourToTransportEvent::PeerClosed { connection_id, .. },
        } if connection_id == id(3)
    ));
}

#[test]
fn listener_stays_whatever_else_is_asked() {
    let mut endpoint = endpoint();
    connect(&mut endpoint, 10, 1);
    let id = ListenerId::next();
    endpoint.poll(Some(listen(10, id, 90, "l")));
    endpoint.poll(Some(listen(10, ListenerId::next(), 91, "m")));
    endpoint.poll(Some(dial(11, 1, 1)));
    endpoint.on_swarm_event(closed(10, 1));
    endpoint.on_connection_handler_event(ConnectionHandlerOutEvent::NewConnection {
        relay_peer_id: peer(10),
        listen_addr: addr(90),
        connection: connection(1000),
    });
    assert!(matches!(
        endpoint.poll(None),
        Step::PollListener { listener_id, .. } if listener_id == id
    ));
    assert_eq!(endpoint.listener_sender(&addr(90)), Some(&mut "l"));
}
