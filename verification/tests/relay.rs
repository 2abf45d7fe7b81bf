use bytes::Bytes;
use libp2p_auto_relay::address::{Multiaddr, PeerId};
use libp2p_auto_relay::connection::Connection;
use libp2p_auto_relay::error::{IoError, IoErrorKind};
use libp2p_auto_relay::message::{
    ConnectResponse, DialRequest, DialResponse, ListenRequest, ListenResponse, Outcome,
};
use libp2p_auto_relay::relay::behaviour::ConnectReply;
use libp2p_auto_relay::relay::event::{ConnectionHandlerInEvent, ConnectionHandlerOutEvent};
use libp2p_auto_relay::relay::upgrade::inbound::{
    upgrade_inbound, DialAnswer, DialDecision, ListenDecision,
};
use libp2p_auto_relay::relay::upgrade::{
    ConnectRequest, InboundUpgrade, UpgradeAction, UpgradeError,
};
use libp2p_auto_relay::relay::{Behaviour, Event};
use libp2p_auto_relay::server::handler::{
    ConnectionHandler, InboundOutput, IntoConnectionHandler, OutboundOpenInfo,
};
use libp2p_auto_relay::server::upgrade::OutboundUpgrade;
use libp2p_auto_relay::swarm::{
    ConnectionEvent, ConnectionHandlerEvent, FromSwarm, KeepAlive, NegotiationError,
    NetworkBehaviourAction, Polled,
};
use libp2p_auto_relay::AUTO_RELAY_CONNECT_PROTOCOL;

type Stream = &'static str;

fn peer(i: u8) -> PeerId {
    PeerId::from_bytes(&[0x00, 1, i]).unwrap()
}

fn addr(port: u16) -> Multiaddr {
    Multiaddr::parse(&format!("/ip4/1.2.3.4/tcp/{port}")).unwrap()
}

fn connection(port: u16) -> Connection<Stream> {
    Connection::new(addr(port), Bytes::new(), "stream")
}

fn request(dst: u8, sender: u32) -> ConnectRequest<u32> {
    ConnectRequest {
        dst_peer_id: peer(dst),
        dst_addr: addr(80),
        dialer_addr: addr(1000),
        connection_sender: sender,
    }
}

fn listening(peers: &[u8]) -> Behaviour<u32, ()> {
    let mut relay = Behaviour::new(());
    for p in peers {
        let outcome = relay.on_connection_handler_event::<Stream>(
            ConnectionHandlerOutEvent::ListenSuccess {
                listen_peer_id: peer(*p),
                listen_addr: addr(80),
            },
        );
        assert!(outcome.wake && outcome.reply.is_none() && outcome.copy.is_none());
        let polled = relay.poll::<Stream>(None).polled;
        assert!(matches!(
            polled,
            Polled::Ready(NetworkBehaviourAction::GenerateEvent(Event::Listen { listen_peer_id, .. }))
                if listen_peer_id == peer(*p)
        ));
    }
    relay
}

#[test]
fn dial_to_a_peer_that_does_not_listen_is_refused() {
    let mut relay = listening(&[1]);
    let outcome = relay.poll::<Stream>(Some(request(2, 7)));
    match outcome.reply {
        Some(ConnectReply { sender: 7, result: Err(err) }) => {
            assert_eq!(err.kind(), IoErrorKind::ConnectionRefused);
            assert_eq!(
                err.message(),
                format!("dst peer id {} is not listened", peer(2).text())
            );
        }
        reply => panic!("{reply:?}"),
    }
    assert!(matches!(
        outcome.polled,
        Polled::Ready(NetworkBehaviourAction::GenerateEvent(
            Event::ConnectToNotListenPeer { dialer_addr, dst_peer_id }
        )) if dialer_addr == addr(1000) && dst_peer_id == peer(2)
    ));
    assert_eq!(relay.connecting_requests.len(), 0);
}

#[test]
fn dial_to_a_listening_peer_is_answered_by_it() {
    let mut relay = listening(&[1, 2]);
    let outcome = relay.poll::<Stream>(Some(request(2, 7)));
    assert!(outcome.reply.is_none());
    let event = match outcome.polled {
        Polled::Ready(NetworkBehaviourAction::NotifyHandler { peer_id, event, .. }) => {
            assert_eq!(peer_id, peer(2));
            event
        }
        polled => panic!("{polled:?}"),
    };
    let mut handler: ConnectionHandler<Stream, ()> =
        relay.new_handler().into_handler(&addr(2000));
    handler.on_behaviour_event(event);
    let info = match handler.poll() {
        Some(ConnectionHandlerEvent::OutboundSubstreamRequest { protocol, info }) => {
            let text = protocol.request();
            assert_eq!(text.dst_addr, "/ip4/1.2.3.4/tcp/80");
            assert_eq!(text.dst_peer_id, peer(2).text());
            assert_eq!(text.dialer_addr, "/ip4/1.2.3.4/tcp/1000");
            info
        }
        event => panic!("{event:?}"),
    };
    assert!(handler.on_connection_event(ConnectionEvent::FullyNegotiatedOutbound {
        protocol: connection(80),
        info,
    }));
    let out = match handler.poll() {
        Some(ConnectionHandlerEvent::Custom(out)) => out,
        event => panic!("{event:?}"),
    };
    let outcome = relay.on_connection_handler_event(out);
    assert!(!outcome.wake);
    assert!(matches!(
        outcome.reply,
        Some(ConnectReply { sender: 7, result: Ok(c) }) if c.remote_addr() == &addr(80)
    ));
    assert!(matches!(relay.poll::<Stream>(None).polled, Polled::Pending));
}

#[test]
fn failed_connect_is_answered_once() {
    let mut relay = listening(&[1]);
    relay.poll::<Stream>(Some(request(1, 7)));
    let failed = || ConnectionHandlerOutEvent::<Stream>::ConnectFailed {
        err: IoError::Kind(IoErrorKind::TimedOut),
        dst_addr: addr(80),
        dst_peer_id: peer(1),
    };
    let outcome = relay.on_connection_handler_event(failed());
    assert!(matches!(
        outcome.reply,
        Some(ConnectReply { sender: 7, result: Err(IoError::Kind(IoErrorKind::TimedOut)) })
    ));
    assert!(relay.on_connection_handler_event(failed()).reply.is_none());
}

#[test]
fn second_dialer_takes_the_place_of_the_first() {
    let mut relay = listening(&[1]);
    relay.poll::<Stream>(Some(request(1, 7)));
    relay.poll::<Stream>(Some(request(1, 8)));
    let outcome = relay.on_connection_handler_event(ConnectionHandlerOutEvent::ConnectSuccess {
        connection: connection(80),
        dst_addr: addr(80),
        dst_peer_id: peer(1),
    });
    assert!(matches!(outcome.reply, Some(ConnectReply { sender: 8, result: Ok(_) })));
    assert_eq!(relay.connecting_requests.len(), 0);
}

#[test]
fn finished_dial_is_copied_and_reported() {
    let mut relay = listening(&[]);
    let outcome = relay.on_connection_handler_event(ConnectionHandlerOutEvent::DialSuccess {
        dialer_connection: connection(1000),
        connection: connection(80),
    });
    assert!(outcome.wake);
    let (dialer, dialed) = outcome.copy.unwrap();
    assert_eq!(dialer.remote_addr(), &addr(1000));
    assert_eq!(dialed.remote_addr(), &addr(80));
    assert!(matches!(
        relay.poll::<Stream>(None).polled,
        Polled::Ready(NetworkBehaviourAction::GenerateEvent(Event::StartCopy { dialer_addr, dst_addr }))
            if dialer_addr == addr(1000) && dst_addr == addr(80)
    ));
}

#[test]
fn failed_exchange_is_reported() {
    let mut relay = listening(&[]);
    let outcome =
        relay.on_connection_handler_event::<Stream>(ConnectionHandlerOutEvent::ListenOrDialFailed {
            err: IoError::Kind(IoErrorKind::TimedOut),
        });
    assert!(outcome.wake);
    assert!(matches!(
        relay.poll::<Stream>(None).polled,
        Polled::Ready(NetworkBehaviourAction::GenerateEvent(Event::ListenOrDialFailed { .. }))
    ));
}

#[test]
fn swarm_events_do_not_matter_to_a_relay() {
    let mut relay = listening(&[1]);
    relay.on_swarm_event(FromSwarm::NewListener);
    relay.on_swarm_event(FromSwarm::DialFailure {
        peer_id: Some(peer(1)),
        error: "no".to_string(),
    });
    assert_eq!(relay.listening_clients.len(), 1);
    assert!(matches!(relay.poll::<Stream>(None).polled, Polled::Pending));
}

#[test]
fn relay_handler_reports_what_its_connection_says() {
    let mut handler: ConnectionHandler<Stream, u8> =
        IntoConnectionHandler::new(3).into_handler(&addr(2000));
    assert_eq!(handler.connection_keep_alive(), KeepAlive::Yes);
    let protocol = handler.listen_protocol();
    assert_eq!(protocol.remote_addr, Some(addr(2000)));
    assert_eq!(protocol.connect_request_sender, 3);
    assert!(handler.on_connection_event(ConnectionEvent::FullyNegotiatedInbound {
        protocol: InboundOutput::Dial(connection(1), connection(2)),
    }));
    assert!(!handler.on_connection_event(ConnectionEvent::AddressChange));
    assert!(handler.on_connection_event(ConnectionEvent::DialUpgradeError {
        info: OutboundOpenInfo { dst_addr: addr(80), dst_peer_id: peer(1) },
        error: NegotiationError::Timeout,
    }));
    assert!(handler.on_connection_event(ConnectionEvent::ListenUpgradeError {
        error: NegotiationError::Failed { reason: "x".to_string() },
    }));
    assert!(matches!(
        handler.poll(),
        Some(ConnectionHandlerEvent::Custom(ConnectionHandlerOutEvent::DialSuccess { .. }))
    ));
    assert!(matches!(
        handler.poll(),
        Some(ConnectionHandlerEvent::Custom(ConnectionHandlerOutEvent::ConnectFailed {
            err: IoError::Kind(IoErrorKind::TimedOut), dst_peer_id, ..
        })) if dst_peer_id == peer(1)
    ));
    assert!(matches!(
        handler.poll(),
        Some(ConnectionHandlerEvent::Custom(ConnectionHandlerOutEvent::ListenOrDialFailed { err }))
            if err.message() == "x"
    ));
    assert!(handler.poll().is_none());
    let waiting: IntoConnectionHandler<u8> = IntoConnectionHandler::new(4);
    assert_eq!(waiting.inbound_protocol().remote_addr, None);
    assert_eq!(waiting.inbound_protocol().connect_request_sender, 4);
}

#[test]
fn relay_protocols_are_told_apart() {
    let upgrade = InboundUpgrade::new(None, ());
    let protocols = upgrade.protocol_info();
    assert_eq!(protocols, ["/auto-relay/0.1/dial", "/auto-relay/0.1/listen"]);
    assert_eq!(upgrade_inbound(&protocols[0].to_string()), Some(UpgradeAction::Dial));
    assert_eq!(upgrade_inbound(&protocols[1].to_string()), Some(UpgradeAction::Listen));
    assert_eq!(upgrade_inbound(&AUTO_RELAY_CONNECT_PROTOCOL.to_string()), None);
}

fn dial_decision(peer_id: &str, addr_text: &str) -> DialDecision {
    InboundUpgrade::new(Some(addr(1000)), ()).dial_request(Ok(Some(DialRequest {
        peer_id: peer_id.to_string(),
        addr: addr_text.to_string(),
    })))
}

#[test]
fn dial_request_with_a_bad_peer_id_is_refused() {
    match dial_decision("2", "nonsense") {
        DialDecision::Refuse {
            response: DialResponse { result: Some(Outcome::Failed { reason }) },
            err: UpgradeError::InvalidDstPeerId(text),
        } => {
            assert_eq!(reason, "invalid multihash");
            assert_eq!(text, "2");
        }
        decision => panic!("{decision:?}"),
    }
}

#[test]
fn dial_request_with_a_bad_addr_is_refused() {
    match dial_decision(&peer(1).text(), "nonsense") {
        DialDecision::Refuse {
            response: DialResponse { result: Some(Outcome::Failed { reason }) },
            err: UpgradeError::InvalidDstAddr(text),
        } => {
            assert_eq!(reason, "invalid multiaddr");
            assert_eq!(text, "nonsense");
        }
        decision => panic!("{decision:?}"),
    }
}

#[test]
fn dial_request_without_a_message_fails() {
    let upgrade = InboundUpgrade::new(Some(addr(1000)), ());
    assert!(matches!(
        upgrade.dial_request(Ok(None)),
        DialDecision::Fail { err: UpgradeError::UnexpectedStreamClosed }
    ));
    assert!(matches!(
        upgrade.dial_request(Err(IoError::Kind(IoErrorKind::BrokenPipe))),
        DialDecision::Fail { err: UpgradeError::Io(IoError::Kind(IoErrorKind::BrokenPipe)) }
    ));
}

#[test]
fn dial_request_is_put_to_the_behaviour() {
    let dial = match dial_decision(&peer(1).text(), "/ip4/1.2.3.4/tcp/80") {
        DialDecision::Ask { dial } => dial,
        decision => panic!("{decision:?}"),
    };
    let request = dial.connect_request(9u8);
    assert_eq!(request.dst_peer_id, peer(1));
    assert_eq!(request.dst_addr, addr(80));
    assert_eq!(request.dialer_addr, addr(1000));
    assert_eq!(request.connection_sender, 9);
    let dial = dial.asked(true).unwrap();
    match dial.answered(Some(Ok(connection(80)))) {
        DialAnswer::Accept {
            response: DialResponse { result: Some(Outcome::Success) },
            dialed,
        } => {
            let (dialer, dialed) = dialed
                .written(true)
                .unwrap()
                .finish(Bytes::from_static(b"rest"), "dialer stream");
            assert_eq!(dialer.remote_addr(), &addr(1000));
            assert_eq!(dialer.remaining_buf, Bytes::from_static(b"rest"));
            assert_eq!(dialer.sub_stream, "dialer stream");
            assert_eq!(dialed.remote_addr(), &addr(80));
        }
        answer => panic!("{answer:?}"),
    }
}

#[test]
fn dial_that_the_behaviour_refuses_is_refused() {
    let ask = || match dial_decision(&peer(1).text(), "/ip4/1.2.3.4/tcp/80") {
        DialDecision::Ask { dial } => dial,
        decision => panic!("{decision:?}"),
    };
    assert!(matches!(ask().asked(false), Err(UpgradeError::BehaviourDropped)));
    assert!(matches!(
        ask().answered::<Stream>(None),
        DialAnswer::Fail { err: UpgradeError::BehaviourDropped }
    ));
    match ask().answered::<Stream>(Some(Err(IoError::Kind(IoErrorKind::TimedOut)))) {
        DialAnswer::Refuse {
            response: DialResponse { result: Some(Outcome::Failed { reason }) },
            err: UpgradeError::ConnectFailed { addr: a, err: IoError::Kind(IoErrorKind::TimedOut) },
        } => {
            assert_eq!(reason, "timed out");
            assert_eq!(a, addr(80));
        }
        answer => panic!("{answer:?}"),
    }
}

#[test]
fn dial_answer_that_cannot_be_sent_fails() {
    let dial = match dial_decision(&peer(1).text(), "/ip4/1.2.3.4/tcp/80") {
        DialDecision::Ask { dial } => dial,
        decision => panic!("{decision:?}"),
    };
    match dial.answered(Some(Ok(connection(80)))) {
        DialAnswer::Accept { dialed, .. } => {
            assert!(matches!(dialed.written(false), Err(UpgradeError::UnexpectedStreamClosed)));
        }
        answer => panic!("{answer:?}"),
    }
}

fn listen_decision(peer_id: &str, addr_text: &str) -> ListenDecision {
    InboundUpgrade::new(None, ()).listen_request(Ok(Some(ListenRequest {
        listen_peer_id: peer_id.to_string(),
        listen_addr: addr_text.to_string(),
    })))
}

#[test]
fn listen_request_is_granted() {
    match listen_decision(&peer(1).text(), "/ip4/1.2.3.4/tcp/80") {
        ListenDecision::Accept {
            response: ListenResponse { result: Some(Outcome::Success) },
            request,
        } => {
            let request = request.written(Ok(())).unwrap();
            assert_eq!(request.listen_peer_id, peer(1));
            assert_eq!(request.listen_addr, addr(80));
            let mut handler: ConnectionHandler<Stream, ()> =
                IntoConnectionHandler::new(()).into_handler(&addr(2000));
            handler.on_connection_event(ConnectionEvent::FullyNegotiatedInbound {
                protocol: InboundOutput::Listen(request),
            });
            assert!(matches!(
                handler.poll(),
                Some(ConnectionHandlerEvent::Custom(ConnectionHandlerOutEvent::ListenSuccess {
                    listen_peer_id, listen_addr
                })) if listen_peer_id == peer(1) && listen_addr == addr(80)
            ));
        }
        decision => panic!("{decision:?}"),
    }
}

#[test]
fn bad_listen_requests_are_refused() {
    match listen_decision("2", "nonsense") {
        ListenDecision::Refuse {
            response: ListenResponse { result: Some(Outcome::Failed { reason }) },
            err: UpgradeError::InvalidListenPeerId(text),
        } => {
            assert_eq!(reason, "invalid multihash");
            assert_eq!(text, "2");
        }
        decision => panic!("{decision:?}"),
    }
    match listen_decision(&peer(1).text(), "nonsense") {
        ListenDecision::Refuse {
            response: ListenResponse { result: Some(Outcome::Failed { reason }) },
            err: UpgradeError::InvalidListenAddr(text),
        } => {
            assert_eq!(reason, "invalid multiaddr");
            assert_eq!(text, "nonsense");
        }
        decision => panic!("{decision:?}"),
    }
    let upgrade = InboundUpgrade::new(None, ());
    assert!(matches!(
        upgrade.listen_request(Ok(None)),
        ListenDecision::Fail { err: UpgradeError::UnexpectedStreamClosed }
    ));
    assert!(matches!(
        upgrade.listen_request(Err(IoError::Kind(IoErrorKind::InvalidData))),
        ListenDecision::Fail { err: UpgradeError::Io(_) }
    ));
    match listen_decision(&peer(1).text(), "/ip4/1.2.3.4/tcp/80") {
        ListenDecision::Accept { request, .. } => assert!(matches!(
            request.written(Err(IoError::Kind(IoErrorKind::BrokenPipe))),
            Err(UpgradeError::Io(IoError::Kind(IoErrorKind::BrokenPipe)))
        )),
        decision => panic!("{decision:?}"),
    }
}

#[test]
fn relay_takes_the_answer_of_an_endpoint() {
    let upgrade = OutboundUpgrade::new(addr(1000), peer(1), addr(80));
    assert_eq!(upgrade.protocol_info(), "/auto-relay/0.1/connect");
    assert!(OutboundUpgrade::request_sent(Ok(())).is_ok());
    assert!(matches!(
        OutboundUpgrade::request_sent(Err(IoError::Kind(IoErrorKind::BrokenPipe))),
        Err(UpgradeError::UnexpectedStreamClosed)
    ));
    assert!(matches!(
        OutboundUpgrade::answered(Err(IoError::Kind(IoErrorKind::BrokenPipe))),
        Err(UpgradeError::UnexpectedStreamClosed)
    ));
    assert!(matches!(
        OutboundUpgrade::answered(Ok(None)),
        Err(UpgradeError::UnexpectedStreamClosed)
    ));
    assert!(matches!(
        OutboundUpgrade::answered(Ok(Some(ConnectResponse { result: None }))),
        Err(UpgradeError::UnexpectedResult)
    ));
    assert!(matches!(
        OutboundUpgrade::answered(Ok(Some(ConnectResponse {
            result: Some(Outcome::Failed { reason: "no".to_string() })
        }))),
        Err(UpgradeError::ActionFailed { action: UpgradeAction::Connect, reason: Some(r) })
            if r == "no"
    ));
    assert!(OutboundUpgrade::answered(Ok(Some(ConnectResponse {
        result: Some(Outcome::Success)
    })))
    .is_ok());
    let connection = upgrade.finish(Bytes::from_static(b"x"), "stream");
    assert_eq!(connection.remote_addr(), &addr(80));
    assert_eq!(connection.remaining_buf, Bytes::from_static(b"x"));
}

#[test]
fn connect_request_of_the_behaviour_names_the_dialer() {
    let mut relay = listening(&[1]);
    match relay.poll::<Stream>(Some(request(1, 7))).polled {
        Polled::Ready(NetworkBehaviourAction::NotifyHandler {
            event: ConnectionHandlerInEvent::Connect { dst_addr, dst_peer_id, dialer_addr },
            ..
        }) => {
            assert_eq!(dst_addr, addr(80));
            assert_eq!(dst_peer_id, peer(1));
            assert_eq!(dialer_addr, addr(1000));
        }
        polled => panic!("{polled:?}"),
    }
}
