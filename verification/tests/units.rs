use aura_core::AuraError;
use aura_core::AuraMessage;
use aura_core::channel::RecvOutcome;
use aura_core::subscriber::classify_receive;
use aura_core::topic::topic_is_valid;

#[test]
fn topic_validity_rules() {
    assert!(topic_is_valid("/chatter"));
    assert!(topic_is_valid("/"));
    assert!(topic_is_valid("/robot/odom"));
    assert!(!topic_is_valid(""));
    assert!(!topic_is_valid("chatter"));
    assert!(!topic_is_valid("robot/odom"));
}

#[test]
fn error_kinds_are_distinct() {
    assert_eq!(AuraError::Timeout, AuraError::Timeout);
    assert_ne!(AuraError::Timeout, AuraError::Disconnected);
    assert_ne!(AuraError::InvalidTopicName, AuraError::CommunicationError);
}

#[test]
fn error_messages() {
    assert_eq!(
        AuraError::InvalidTopicName.message(),
        "invalid topic name: must be absolute (start with '/') and non-empty"
    );
    assert_eq!(AuraError::RegistryAccessFailure.message(), "failed to access the shared topic registry");
    assert_eq!(AuraError::Timeout.message(), "receive timed out");
    assert_eq!(AuraError::Disconnected.message(), "channel disconnected");
    assert_eq!(AuraError::CommunicationError.message(), "communication error");
}

#[test]
fn classify_receive_reports_each_outcome() {
    let m = AuraMessage { topic: "/t".to_string(), data: "x".to_string() };
    let ok = classify_receive(RecvOutcome::Received(m));
    let got = ok.unwrap();
    assert_eq!(got.topic, "/t");
    assert_eq!(got.data, "x");
    assert_eq!(classify_receive(RecvOutcome::TimedOut).err(), Some(AuraError::Timeout));
    assert_eq!(classify_receive(RecvOutcome::Closed).err(), Some(AuraError::Disconnected));
}

#[test]
fn duplicate_preserves_topic_and_payload() {
    let m = AuraMessage { topic: "/t".to_string(), data: "payload".to_string() };
    let d = m.duplicate();
    assert_eq!(d.topic, m.topic);
    assert_eq!(d.data, m.data);
}
