use apex::error::ApexError;
use apex::health::{HealthSnapshot, HealthStatus, LivelinessState, ReadinessState};
use apex::identity::{HostId, MessageId, NodeId, PeerId, SessionId};
use apex::peer::{PeerAddress, PeerRecord, PeerState, PeerVisibility};
use apex::qos::{check_qos_compatibility, History, LateJoinPolicy, Qos, QosCompatibility, Reliability};

#[test]
fn apex_error_messages_render_numbers() {
    let e = ApexError::SchemaMismatch { expected_hash: 0, received_hash: 0xBEEF };
    assert_eq!(e.to_string(), "schema mismatch: expected=0x0 received=0xbeef");
    let e = ApexError::QueueSaturated { topic: "scan".into(), queue_limit: 32 };
    assert_eq!(e.to_string(), "queue saturated [topic=scan, limit=32]");
    let e = ApexError::TransportTimeout { kind: "udp".into(), elapsed_ms: 1500 };
    assert_eq!(e.to_string(), "transport timeout [udp] after 1500ms");
    let e = ApexError::DeliveryFailed { sequence: 18446744073709551615, reason: "nack".into() };
    assert_eq!(e.to_string(), "delivery failed [seq=18446744073709551615]: nack");
}

#[test]
fn apex_error_messages_fixed_words() {
    assert_eq!(ApexError::NodeNotInitialized.to_string(), "node not initialized");
    assert_eq!(
        ApexError::ShutdownInProgress.to_string(),
        "shutdown in progress, operation rejected"
    );
    let e = ApexError::InvariantViolation { message: "x".into() };
    assert_eq!(e.to_string(), "INVARIANT VIOLATION (bug): x");
    let e = ApexError::DeserializeFailed { message_type: "Scan".into(), reason: "eof".into() };
    assert_eq!(e.to_string(), "deserialize failed [Scan]: eof");
}

#[test]
fn apex_error_from_io_error() {
    let io = std::io::Error::new(std::io::ErrorKind::Other, "disk gone");
    let e = ApexError::from_io_error(&io);
    assert_eq!(e, ApexError::Io { reason: "disk gone".into() });
    assert_eq!(e.to_string(), "I/O error: disk gone");
}

#[test]
fn node_id_composition() {
    let id = NodeId::compose("cam", 12, 345);
    assert_eq!(id.as_str(), "cam-12-345");
    assert_eq!(NodeId::new("raw").to_string(), "raw");
}

#[test]
fn session_id_composition() {
    let node = NodeId::new("n1");
    assert_eq!(SessionId::for_epoch(&node, 0).as_str(), "session-n1-0");
    let s = SessionId::generate(&node);
    assert!(s.as_str().starts_with("session-n1-"));
    let digits = &s.as_str()["session-n1-".len()..];
    assert!(!digits.is_empty() && digits.chars().all(|c| c.is_ascii_digit()));
}

#[test]
fn host_and_peer_ids() {
    assert_eq!(HostId::for_hostname("robot7").as_str(), "host:robot7");
    assert_eq!(PeerId::new("p").as_str(), "p");
    let m = MessageId::new(SessionId("s".into()), 0);
    assert_eq!(m.to_string(), "s:0");
}

#[test]
fn qos_presets_and_default() {
    let s = Qos::sensor_streaming();
    assert_eq!(Qos::default(), s);
    assert_eq!(s.reliability, Reliability::BestEffort);
    assert_eq!(s.history, History::KeepLast(8));
    assert_eq!(s.late_join_policy, LateJoinPolicy::FutureOnly);
    assert_eq!(s.queue_limit, 32);
    assert_eq!(s.liveliness_timeout_ms, 2_000);
    let r = Qos::reliable_control();
    assert_eq!(r.reliability, Reliability::Reliable);
    assert_eq!(r.max_retries, 5);
    assert_eq!(r.priority, 192);
    assert_eq!(r.delivery_timeout_ms, 2_000);
}

#[test]
fn qos_reliable_publisher_serves_best_effort_subscriber() {
    let result = check_qos_compatibility(&Qos::reliable_control(), &Qos::sensor_streaming());
    assert_eq!(result, QosCompatibility::Compatible);
}

#[test]
fn qos_incompatibility_reason() {
    let result = check_qos_compatibility(&Qos::sensor_streaming(), &Qos::reliable_control());
    match result {
        QosCompatibility::Incompatible { reason } => {
            assert!(reason.starts_with("subscriber requires Reliable delivery"));
            assert!(reason.ends_with("delivery contract"));
        }
        QosCompatibility::Compatible => panic!("expected incompatibility"),
    }
}

#[test]
fn qos_priority_and_queue_never_conflict() {
    let mut a = Qos::reliable_control();
    a.priority = 0;
    a.queue_limit = 1;
    let mut b = Qos::reliable_control();
    b.priority = 255;
    b.queue_limit = 1000;
    assert_eq!(check_qos_compatibility(&a, &b), QosCompatibility::Compatible);
}

#[test]
fn health_labels_and_snapshot() {
    assert!(HealthStatus::Healthy.is_healthy());
    assert!(!HealthStatus::Degraded { reason: "r".into() }.is_healthy());
    assert_eq!(HealthStatus::Recovering { reason: "r".into() }.label(), "recovering");
    assert_eq!(LivelinessState::Left.label(), "left");
    assert_eq!(ReadinessState::NotReady { code: 7 }.label(), "not_ready");
    assert_eq!(ReadinessState::DiscoveryPending.label(), "discovery_pending");
    assert!(!ReadinessState::NotReady { code: 7 }.is_ready());
    let snap = HealthSnapshot::now(
        HealthStatus::Healthy,
        LivelinessState::Alive,
        ReadinessState::Ready,
        3,
        1,
        99,
    );
    assert_eq!(snap.status, HealthStatus::Healthy);
    assert_eq!(snap.healthy_ticks, 3);
    assert_eq!(snap.unhealthy_ticks, 1);
    assert_eq!(snap.uptime_secs, 99);
    assert!(snap.timestamp_ns > 0);
}

#[test]
fn peer_labels_and_visibility() {
    assert!(PeerVisibility::LocalProcess.allows_shm());
    assert!(!PeerVisibility::Remote.allows_shm());
    assert_eq!(PeerVisibility::LocalNetwork.label(), "local_network");
    assert_eq!(PeerState::Quarantined { reason: "x".into() }.label(), "quarantined");
    assert!(PeerState::Active.is_usable());
}

#[test]
fn peer_new_record_fields() {
    let addr = PeerAddress::V4 { octets: [10, 0, 0, 7], port: 7400 };
    let p = PeerRecord::new("id".into(), "n".into(), Some(addr), "0.1.0".into(), "static".into());
    assert_eq!(p.address, Some(addr));
    assert_eq!(p.visibility, PeerVisibility::Unknown);
    assert!(p.published_topics.is_empty());
    assert_eq!(p.missed_heartbeats, 0);
    assert_eq!(p.first_seen, p.last_seen);
}

#[test]
fn peer_miss_does_not_stale_non_active() {
    let mut p = PeerRecord::new("id".into(), "n".into(), None, "v".into(), "s".into());
    assert!(!p.heartbeat_missed(1));
    assert_eq!(p.state, PeerState::Discovered);
    assert_eq!(p.missed_heartbeats, 1);
}

#[test]
fn peer_miss_below_threshold_keeps_active() {
    let mut p = PeerRecord::new("id".into(), "n".into(), None, "v".into(), "s".into());
    p.state = PeerState::Active;
    assert!(!p.heartbeat_missed(3));
    assert!(!p.heartbeat_missed(3));
    assert_eq!(p.state, PeerState::Active);
    assert!(p.heartbeat_missed(3));
    assert_eq!(p.state, PeerState::Stale);
    assert!(!p.heartbeat_missed(3));
    assert_eq!(p.state, PeerState::Stale);
}

#[test]
fn peer_left_is_not_revived() {
    let mut p = PeerRecord::new("id".into(), "n".into(), None, "v".into(), "s".into());
    p.mark_left();
    p.heartbeat_received();
    assert_eq!(p.state, PeerState::Left);
    p.mark_dead();
    p.heartbeat_received();
    assert_eq!(p.state, PeerState::Dead);
    let _ = p.elapsed_since_last_seen();
}

#[test]
fn apex_error_from_io_text() {
    let e = ApexError::from_io_text("broken pipe".into());
    assert_eq!(e, ApexError::Io { reason: "broken pipe".into() });
    assert_eq!(e.to_string(), "I/O error: broken pipe");
}

#[test]
fn health_snapshot_at_given_time() {
    let snap = HealthSnapshot::at(
        1_700_000_000_000_000_000,
        HealthStatus::Degraded { reason: "slow".into() },
        LivelinessState::Alive,
        ReadinessState::NotReady { code: 2 },
        5,
        6,
        7,
    );
    assert_eq!(snap.timestamp_ns, 1_700_000_000_000_000_000);
    assert_eq!(snap.status, HealthStatus::Degraded { reason: "slow".into() });
    assert_eq!(snap.readiness, ReadinessState::NotReady { code: 2 });
    assert_eq!(snap.healthy_ticks, 5);
    assert_eq!(snap.unhealthy_ticks, 6);
    assert_eq!(snap.uptime_secs, 7);
}

#[test]
fn peer_new_at_and_heartbeat_at_given_times() {
    let t0 = std::time::Instant::now();
    let t1 = t0 + std::time::Duration::from_millis(250);
    let mut p = PeerRecord::new_at("id".into(), "n".into(), None, "v".into(), "s".into(), t0);
    assert_eq!(p.first_seen, t0);
    assert_eq!(p.last_seen, t0);
    assert_eq!(p.state, PeerState::Discovered);
    p.state = PeerState::Stale;
    p.missed_heartbeats = 4;
    p.heartbeat_received_at(t1);
    assert_eq!(p.last_seen, t1);
    assert_eq!(p.first_seen, t0);
    assert_eq!(p.missed_heartbeats, 0);
    assert_eq!(p.state, PeerState::Active);
}
