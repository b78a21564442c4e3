use peerdash::address::IpAddress;
use peerdash::peer::{Peer, PeerRegistry};

fn host(last: u8) -> IpAddress {
    IpAddress::V4(10, 0, 0, last)
}

fn six(last: u16) -> IpAddress {
    IpAddress::V6(0xfe80, 0, 0, 0, 0, 0, 0, last)
}

fn peer(last: u8, port: u16, received: u64, sent: u64) -> Peer {
    Peer { address: host(last), port, total_received: received, total_sent: sent }
}

#[test]
fn new_registry_is_empty() {
    let registry = PeerRegistry::new();
    assert!(registry.is_empty());
    assert_eq!(registry.len(), 0);
    assert!(registry.peers().is_empty());
    assert_eq!(registry.position(host(1), 80), None);
}

#[test]
fn new_peers_go_to_the_end() {
    let mut registry = PeerRegistry::new();
    registry.record(peer(3, 80, 1, 1));
    registry.record(peer(1, 80, 2, 2));
    registry.record(peer(2, 80, 3, 3));
    assert_eq!(registry.len(), 3);
    assert!(!registry.is_empty());
    assert_eq!(registry.peers(), &vec![peer(3, 80, 1, 1), peer(1, 80, 2, 2), peer(2, 80, 3, 3)]);
}

#[test]
fn known_peer_keeps_its_place() {
    let mut registry = PeerRegistry::new();
    registry.record(peer(3, 80, 1, 1));
    registry.record(peer(1, 80, 2, 2));
    registry.record(peer(2, 80, 3, 3));
    registry.record(peer(1, 80, 20, 30));
    assert_eq!(registry.peers(), &vec![peer(3, 80, 1, 1), peer(1, 80, 20, 30), peer(2, 80, 3, 3)]);
    registry.record(peer(3, 80, 0, 0));
    assert_eq!(registry.peers(), &vec![peer(3, 80, 0, 0), peer(1, 80, 20, 30), peer(2, 80, 3, 3)]);
}

#[test]
fn address_and_port_together_name_a_peer() {
    let mut registry = PeerRegistry::new();
    registry.record(peer(1, 80, 1, 1));
    registry.record(peer(1, 443, 2, 2));
    registry.record(peer(2, 80, 3, 3));
    registry.record(Peer {
        address: six(1),
        port: 80,
        total_received: 4,
        total_sent: 4,
    });
    assert_eq!(registry.len(), 4);
    assert_eq!(registry.position(host(1), 80), Some(0));
    assert_eq!(registry.position(host(1), 443), Some(1));
    assert_eq!(registry.position(host(2), 80), Some(2));
    assert_eq!(registry.position(six(1), 80), Some(3));
    assert_eq!(registry.position(host(2), 443), None);
    assert_eq!(registry.position(six(2), 80), None);
}

#[test]
fn no_endpoint_is_tracked_twice() {
    let mut registry = PeerRegistry::new();
    for round in 0..5u64 {
        for last in 0..4u8 {
            registry.record(peer(last, 80, round, round));
        }
    }
    assert_eq!(registry.len(), 4);
    let peers = registry.peers();
    for i in 0..peers.len() {
        for j in i + 1..peers.len() {
            assert!(!peers[i].has_endpoint(peers[j].address, peers[j].port));
        }
        assert_eq!(peers[i].total_received, 4);
    }
}

#[test]
fn remove_returns_the_peer_and_keeps_the_order() {
    let mut registry = PeerRegistry::new();
    registry.record(peer(3, 80, 1, 1));
    registry.record(peer(1, 80, 2, 2));
    registry.record(peer(2, 80, 3, 3));
    assert_eq!(registry.remove(host(1), 80), Some(peer(1, 80, 2, 2)));
    assert_eq!(registry.peers(), &vec![peer(3, 80, 1, 1), peer(2, 80, 3, 3)]);
    assert_eq!(registry.position(host(1), 80), None);
    assert_eq!(registry.remove(host(1), 80), None);
    assert_eq!(registry.peers(), &vec![peer(3, 80, 1, 1), peer(2, 80, 3, 3)]);
    assert_eq!(registry.remove(host(3), 80), Some(peer(3, 80, 1, 1)));
    assert_eq!(registry.remove(host(2), 80), Some(peer(2, 80, 3, 3)));
    assert!(registry.is_empty());
}

#[test]
fn removed_peer_comes_back_at_the_end() {
    let mut registry = PeerRegistry::new();
    registry.record(peer(1, 80, 1, 1));
    registry.record(peer(2, 80, 2, 2));
    registry.remove(host(1), 80);
    registry.record(peer(1, 80, 0, 0));
    assert_eq!(registry.peers(), &vec![peer(2, 80, 2, 2), peer(1, 80, 0, 0)]);
}
