use apex::peer::{PeerRecord, PeerState};

fn make_peer(id: &str) -> PeerRecord {
    PeerRecord::new(
        id.into(),
        "test_node".into(),
        None,
        "0.1.0".into(),
        "multicast".into(),
    )
}

#[test]
fn new_peer_is_discovered() {
    let p = make_peer("peer-1");
    assert_eq!(p.state, PeerState::Discovered);
    assert!(!p.state.is_usable());
}

#[test]
fn heartbeat_clears_stale() {
    let mut p = make_peer("peer-2");
    p.state = PeerState::Active;
    p.missed_heartbeats = 2;
    let became_stale = p.heartbeat_missed(3);
    assert!(became_stale);
    assert_eq!(p.state, PeerState::Stale);
    p.heartbeat_received();
    assert_eq!(p.state, PeerState::Active);
    assert_eq!(p.missed_heartbeats, 0);
}

#[test]
fn mark_dead_transitions() {
    let mut p = make_peer("peer-3");
    p.mark_dead();
    assert_eq!(p.state, PeerState::Dead);
    assert!(!p.state.is_usable());
}
