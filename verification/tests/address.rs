use libp2p_auto_relay::address::{Multiaddr, PeerId};
use libp2p_auto_relay::table::{Key, Table};

const PEER: &str = "QmYyQSo1c1Ym7orWxLYvCrM2EmxFTANf8wXmmE7DWjhx5N";

#[test]
fn multiaddr_text_is_read_back() {
    let addr = Multiaddr::parse("/ip4/127.0.0.1/tcp/4001").unwrap();
    assert_eq!(addr.as_bytes(), &vec![4, 127, 0, 0, 1, 6, 0x0f, 0xa1]);
    assert_eq!(addr.text(), "/ip4/127.0.0.1/tcp/4001");
}

#[test]
fn multiaddr_text_is_brought_into_one_form() {
    let addr = Multiaddr::parse("/ip6/0:0:0:0:0:0:0:1/udp/53").unwrap();
    assert_eq!(addr.text(), "/ip6/::1/udp/53");
}

#[test]
fn multiaddr_bytes_are_read_to_their_end() {
    let addr = Multiaddr::from_bytes(vec![4, 127, 0, 0, 1, 6, 0x0f, 0xa1]).unwrap();
    assert_eq!(addr, Multiaddr::parse("/ip4/127.0.0.1/tcp/4001").unwrap());
    assert!(Multiaddr::from_bytes(vec![4, 127, 0, 0]).is_none());
    assert!(Multiaddr::from_bytes(vec![4, 127, 0, 0, 1, 6, 0x0f]).is_none());
    assert_eq!(Multiaddr::from_bytes(vec![]).unwrap().text(), "");
}

#[test]
fn multiaddr_of_nonsense_is_refused() {
    assert_eq!(Multiaddr::parse("127.0.0.1").unwrap_err(), "invalid multiaddr");
    assert_eq!(
        Multiaddr::parse("/nonsense/1").unwrap_err(),
        "unknown protocol string: nonsense"
    );
}

#[test]
fn peer_id_text_is_read_back() {
    let peer = PeerId::parse(PEER).unwrap();
    assert_eq!(peer.text(), PEER);
    assert_eq!(peer.as_bytes().len(), 34);
    assert_eq!(peer.as_bytes()[0..2], [0x12, 0x20]);
    assert_eq!(PeerId::from_bytes(peer.as_bytes()).unwrap(), peer);
}

#[test]
fn peer_id_of_nonsense_is_refused() {
    assert!(PeerId::parse("not a peer id").is_err());
    assert_eq!(PeerId::parse("2").unwrap_err(), "invalid multihash");
    assert!(PeerId::from_bytes(&[0x12, 0x20, 1]).is_none());
}

#[test]
fn peer_id_with_another_hash_is_refused() {
    assert!(PeerId::from_bytes(&[0x13, 1, 7]).is_none());
    assert!(PeerId::from_bytes(&[0x00, 1, 7]).is_some());
}

#[test]
fn clones_are_the_same_key() {
    let a = Multiaddr::parse("/ip4/127.0.0.1/tcp/1").unwrap();
    let b = Multiaddr::parse("/ip4/127.0.0.1/tcp/2").unwrap();
    assert!(a.same(&a.clone()));
    assert!(!a.same(&b));
    let peer = PeerId::parse(PEER).unwrap();
    assert!(peer.same(&peer.clone()));
    assert!(!peer.same(&PeerId::from_bytes(&[0x00, 1, 7]).unwrap()));
}

#[test]
fn table_keeps_the_order_of_its_keys() {
    let peers: Vec<PeerId> = (0u8..4)
        .map(|i| PeerId::from_bytes(&[0x00, 1, i]).unwrap())
        .collect();
    let mut table: Table<PeerId, u32> = Table::new();
    assert_eq!(table.insert(peers[0].clone(), 10), None);
    assert_eq!(table.insert(peers[1].clone(), 11), None);
    assert_eq!(table.insert(peers[2].clone(), 12), None);
    assert_eq!(table.insert(peers[0].clone(), 20), Some(10));
    assert_eq!(table.len(), 3);
    assert_eq!(table.key(0), &peers[0]);
    assert_eq!(table.get(&peers[0]), Some(&20));
    assert_eq!(table.remove(&peers[1]), Some(11));
    assert_eq!(table.remove(&peers[1]), None);
    assert_eq!(table.key(1), &peers[2]);
    assert!(!table.contains(&peers[3]));
    *table.get_mut(&peers[2]).unwrap() = 22;
    assert_eq!(*table.value_mut(1), 22);
}

#[test]
fn listener_and_connection_ids_are_told_apart() {
    let a = libp2p_core::transport::ListenerId::next();
    let b = libp2p_core::transport::ListenerId::next();
    assert!(Key::same(&a, &a));
    assert!(!Key::same(&a, &b));
    let c = libp2p_swarm::ConnectionId::new_unchecked(1);
    let d = libp2p_swarm::ConnectionId::new_unchecked(2);
    assert!(Key::same(&c, &c));
    assert!(!Key::same(&c, &d));
}
