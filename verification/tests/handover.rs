use bytes::Bytes;
use libp2p_auto_relay::address::{Multiaddr, PeerId};
use libp2p_auto_relay::connection::Connection;
use libp2p_auto_relay::endpoint::upgrade::inbound::InboundDecision;
use libp2p_auto_relay::endpoint::upgrade::outbound::{
    dial_answered, dial_request, listen_answered, listen_request,
};
use libp2p_auto_relay::endpoint::upgrade::{InboundUpgrade, UpgradeError};
use libp2p_auto_relay::error::{IoError, IoErrorKind};
use libp2p_auto_relay::relay;
use libp2p_auto_relay::relay::upgrade::inbound::{DialAnswer, DialDecision, ListenDecision};
use libp2p_auto_relay::server::upgrade::OutboundUpgrade;

fn peer(i: u8) -> PeerId {
    PeerId::from_bytes(&[0x00, 1, i]).unwrap()
}

fn addr(port: u16) -> Multiaddr {
    Multiaddr::parse(&format!("/ip4/1.2.3.4/tcp/{port}")).unwrap()
}

#[test]
fn offered_connection_is_taken_by_its_endpoint() {
    let offer = OutboundUpgrade::new(addr(1000), peer(1), addr(80));
    let endpoint = InboundUpgrade::new(peer(1), Some(peer(10)));
    match endpoint.on_request(Ok(Some(offer.request()))) {
        InboundDecision::Accept { response, accepted } => {
            assert_eq!(accepted.dst_addr, addr(80));
            assert_eq!(accepted.dialer_addr, addr(1000));
            assert!(OutboundUpgrade::answered(Ok(Some(response))).is_ok());
        }
        decision => panic!("{decision:?}"),
    }
}

#[test]
fn offered_connection_is_refused_by_another_endpoint() {
    let offer = OutboundUpgrade::new(addr(1000), peer(1), addr(80));
    let endpoint = InboundUpgrade::new(peer(2), Some(peer(10)));
    match endpoint.on_request(Ok(Some(offer.request()))) {
        InboundDecision::Refuse { response, .. } => {
            match OutboundUpgrade::answered(Ok(Some(response))) {
                Err(relay::upgrade::UpgradeError::ActionFailed { reason, .. }) => assert_eq!(
                    reason.unwrap(),
                    "dst addr /ip4/1.2.3.4/tcp/80 not listen"
                ),
                answer => panic!("{answer:?}"),
            }
        }
        decision => panic!("{decision:?}"),
    }
}

#[test]
fn dial_of_an_endpoint_is_understood_by_the_relay() {
    let relay = relay::upgrade::InboundUpgrade::new(Some(addr(1000)), ());
    let dial = match relay.dial_request(Ok(Some(dial_request(&peer(1), &addr(80))))) {
        DialDecision::Ask { dial } => dial,
        decision => panic!("{decision:?}"),
    };
    assert_eq!(dial.dst_peer_id, peer(1));
    assert_eq!(dial.dst_addr, addr(80));
    match dial.answered(Some(Ok(Connection::new(addr(80), Bytes::new(), ())))) {
        DialAnswer::Accept { response, .. } => assert!(dial_answered(Ok(Some(response))).is_ok()),
        answer => panic!("{answer:?}"),
    }
}

#[test]
fn failed_dial_is_understood_by_the_endpoint() {
    let relay = relay::upgrade::InboundUpgrade::new(Some(addr(1000)), ());
    let dial = match relay.dial_request(Ok(Some(dial_request(&peer(1), &addr(80))))) {
        DialDecision::Ask { dial } => dial,
        decision => panic!("{decision:?}"),
    };
    match dial.answered::<()>(Some(Err(IoError::Kind(IoErrorKind::TimedOut)))) {
        DialAnswer::Refuse { response, .. } => match dial_answered(Ok(Some(response))) {
            Err(UpgradeError::ActionFailed { reason, .. }) => {
                assert_eq!(reason.unwrap(), "timed out");
            }
            answer => panic!("{answer:?}"),
        },
        answer => panic!("{answer:?}"),
    }
}

#[test]
fn listen_of_an_endpoint_is_understood_by_the_relay() {
    let relay = relay::upgrade::InboundUpgrade::new(None, ());
    match relay.listen_request(Ok(Some(listen_request(&peer(1), &addr(80))))) {
        ListenDecision::Accept { response, request } => {
            assert_eq!(request.listen_peer_id, peer(1));
            assert_eq!(request.listen_addr, addr(80));
            assert!(listen_answered(Ok(Some(response))).is_ok());
        }
        decision => panic!("{decision:?}"),
    }
}
