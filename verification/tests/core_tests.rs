use apex::error::ApexError;
use apex::health::{HealthStatus, LivelinessState, ReadinessState};
use apex::identity::{MessageId, SessionId, TopicId};
use apex::qos::{check_qos_compatibility, History, Qos, QosCompatibility};

#[test]
fn error_display_node_not_found() {
    let e = ApexError::NodeNotFound { id: "abc-123".into() };
    assert_eq!(e.to_string(), "node not found: abc-123");
}

#[test]
fn error_display_schema_mismatch() {
    let e = ApexError::SchemaMismatch {
        expected_hash: 0xDEAD,
        received_hash: 0xBEEF,
    };
    let s = e.to_string();
    assert!(s.contains("schema mismatch"));
    assert!(s.contains("0xdead"));
}

#[test]
fn error_is_send_sync() {
    fn assert_send_sync<T: Send + Sync>() {}
    assert_send_sync::<ApexError>();
}

#[test]
fn health_status_usability() {
    assert!(HealthStatus::Healthy.is_usable());
    assert!(HealthStatus::Degraded { reason: "memory pressure".into() }.is_usable());
    assert!(!HealthStatus::Failed { reason: "crash".into() }.is_usable());
    assert!(!HealthStatus::Unknown.is_usable());
}

#[test]
fn health_status_labels() {
    assert_eq!(HealthStatus::Healthy.label(), "healthy");
    assert_eq!(HealthStatus::ShuttingDown.label(), "shutting_down");
}

#[test]
fn liveliness_labels() {
    assert_eq!(LivelinessState::Alive.label(), "alive");
    assert_eq!(LivelinessState::Dead.label(), "dead");
}

#[test]
fn readiness_is_ready() {
    assert!(ReadinessState::Ready.is_ready());
    assert!(!ReadinessState::Initializing.is_ready());
}

#[test]
fn topic_id_from_name() {
    let id = TopicId::from_name("scan");
    assert_eq!(id.as_str(), "topic:scan");
}

#[test]
fn message_id_display() {
    let sess = SessionId("sess-abc".into());
    let msg_id = MessageId::new(sess, 42);
    assert_eq!(msg_id.to_string(), "sess-abc:42");
}

#[test]
fn compatible_best_effort_to_best_effort() {
    let pub_qos = Qos::sensor_streaming();
    let sub_qos = Qos::sensor_streaming();
    assert_eq!(check_qos_compatibility(&pub_qos, &sub_qos), QosCompatibility::Compatible);
}

#[test]
fn incompatible_besteffort_publisher_reliable_subscriber() {
    let pub_qos = Qos::sensor_streaming(); // BestEffort
    let sub_qos = Qos::reliable_control(); // Reliable
    let result = check_qos_compatibility(&pub_qos, &sub_qos);
    assert!(matches!(result, QosCompatibility::Incompatible { .. }));
}

#[test]
fn compatible_reliable_to_reliable() {
    let pub_qos = Qos::reliable_control();
    let sub_qos = Qos::reliable_control();
    assert_eq!(check_qos_compatibility(&pub_qos, &sub_qos), QosCompatibility::Compatible);
}

#[test]
fn history_depth() {
    assert_eq!(History::KeepLast(8).depth(), 8);
    assert_eq!(History::NoHistory.depth(), 0);
}
