use spacecomms::envelope::{PROTOCOL_VERSION, INITIAL_TTL};
use spacecomms::{Envelope, MessageType};

fn payload() -> serde_json::Value {
    let mut m = serde_json::Map::new();
    m.insert("test".to_string(), serde_json::Value::Bool(true));
    serde_json::Value::Object(m)
}

#[test]
fn test_envelope_creation() {
    let env = Envelope::new("node-1".to_string(), MessageType::Hello, payload());
    assert_eq!(env.protocol_version, PROTOCOL_VERSION);
    assert_eq!(env.source_node_id, "node-1");
    assert_eq!(env.hop_count, 0);
    assert_eq!(env.ttl, 10);
}

#[test]
fn test_envelope_forwarding() {
    let env = Envelope::new(
        "node-1".to_string(),
        MessageType::CdmAnnounce,
        serde_json::Value::Object(serde_json::Map::new()),
    );
    let forwarded = env.forwarded().unwrap();
    assert_eq!(forwarded.hop_count, 1);
    assert_eq!(forwarded.ttl, 9);
    assert_eq!(forwarded.message_id, env.message_id);
}

#[test]
fn test_ttl_exhausted() {
    let mut env = Envelope::new(
        "node-1".to_string(),
        MessageType::CdmAnnounce,
        serde_json::Value::Object(serde_json::Map::new()),
    );
    env.ttl = 0;
    assert!(!env.can_forward());
    assert!(env.forwarded().is_none());
}

#[test]
fn forwarding_keeps_identity() {
    let mut env = Envelope::new("node-7".to_string(), MessageType::ManeuverIntent, payload());
    env.hop_count = 4;
    env.ttl = 3;
    let f = env.forwarded().unwrap();
    assert_eq!(f.hop_count, 5);
    assert_eq!(f.ttl, 2);
    assert_eq!(f.message_id, env.message_id);
    assert_eq!(f.timestamp, env.timestamp);
    assert_eq!(f.source_node_id, env.source_node_id);
    assert_eq!(f.message_type, env.message_type);
    assert_eq!(f.payload, env.payload);
    assert_eq!(f.protocol_version, env.protocol_version);
}

#[test]
fn fresh_ids_differ() {
    let a = Envelope::new("n".to_string(), MessageType::Heartbeat, serde_json::Value::Null);
    let b = Envelope::new("n".to_string(), MessageType::Heartbeat, serde_json::Value::Null);
    assert_eq!(a.message_id.len(), 36);
    assert_ne!(a.message_id, b.message_id);
    assert_eq!(a.ttl, INITIAL_TTL);
}

#[test]
fn test_unknown_message_type_handled() {
    assert_eq!(MessageType::from_wire_name("CDM_ANNOUNCE"), Some(MessageType::CdmAnnounce));
    assert_eq!(MessageType::from_wire_name("TOTALLY_UNKNOWN_TYPE"), None);
    assert_eq!(MessageType::ObjectStateWithdraw.as_str(), "OBJECT_STATE_WITHDRAW");
}

#[test]
fn spent_envelope_at_hop_limit_is_not_forwarded() {
    let mut env = Envelope::new("n".to_string(), MessageType::CdmAnnounce, serde_json::Value::Null);
    env.ttl = 0;
    env.hop_count = u32::MAX;
    assert!(env.forwarded().is_none());
    assert_eq!(env.can_forward(), env.forwarded().is_some());
}

#[test]
fn message_id_is_a_hyphenated_uuid() {
    let env = Envelope::new("n".to_string(), MessageType::Hello, serde_json::Value::Null);
    for (i, c) in env.message_id.chars().enumerate() {
        if [8, 13, 18, 23].contains(&i) {
            assert_eq!(c, '-');
        } else {
            assert!(c.is_ascii_digit() || ('a'..='f').contains(&c));
        }
    }
}
