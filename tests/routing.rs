use spacecomms::config::{
    ApiConfig, Config, LoggingConfig, NodeConfig, ProtocolConfig, ServerConfig, StorageConfig,
};
use spacecomms::{MessageType, RoutingDecision, RoutingEngine};

fn test_config() -> Config {
    Config {
        node: NodeConfig { id: "node-1".to_string(), name: "Test Node".to_string() },
        server: ServerConfig::default(),
        api: ApiConfig::default(),
        peers: vec![],
        storage: StorageConfig::default(),
        logging: LoggingConfig::default(),
        protocol: ProtocolConfig::default(),
    }
}

#[test]
fn test_reject_own_message() {
    let engine = RoutingEngine::new(test_config());
    let decision = engine.decide(&MessageType::CdmAnnounce, "node-1", 0, 10, &["peer-1".to_string()]);
    assert!(matches!(decision, RoutingDecision::Reject { .. }));
}

#[test]
fn test_forward_cdm() {
    let engine = RoutingEngine::new(test_config());
    let decision = engine.decide(
        &MessageType::CdmAnnounce,
        "node-2",
        0,
        10,
        &["peer-1".to_string(), "peer-2".to_string()],
    );
    match decision {
        RoutingDecision::AcceptAndForward { peer_ids } => {
            assert_eq!(peer_ids.len(), 2);
        }
        _ => panic!("Expected AcceptAndForward"),
    }
}

#[test]
fn test_no_forward_hello() {
    let engine = RoutingEngine::new(test_config());
    let decision = engine.decide(&MessageType::Hello, "node-2", 0, 10, &["peer-1".to_string()]);
    assert!(matches!(decision, RoutingDecision::Accept));
}

#[test]
fn own_message_rejected_whatever_the_rest() {
    let engine = RoutingEngine::new(test_config());
    for t in [MessageType::Hello, MessageType::CdmAnnounce, MessageType::ManeuverStatus] {
        for (hop, ttl) in [(0, 0), (0, 10), (50, 3), (u32::MAX, u32::MAX)] {
            let d = engine.decide(&t, "node-1", hop, ttl, &["a".to_string(), "node-1".to_string()]);
            match d {
                RoutingDecision::Reject { reason } => assert_eq!(reason, "Own message"),
                _ => panic!("own message must be rejected"),
            }
        }
    }
}

#[test]
fn session_messages_never_forwarded() {
    let engine = RoutingEngine::new(test_config());
    let peers = ["a".to_string(), "b".to_string()];
    for t in [MessageType::Hello, MessageType::Heartbeat, MessageType::Error] {
        for ttl in [0, 1, 10] {
            let d = engine.decide(&t, "x", 0, ttl, &peers);
            assert!(!matches!(d, RoutingDecision::AcceptAndForward { .. }));
        }
    }
}

#[test]
fn cdm_from_b_goes_to_a_and_c() {
    let engine = RoutingEngine::new(test_config());
    let d = engine.decide(
        &MessageType::CdmAnnounce,
        "B",
        0,
        10,
        &["A".to_string(), "B".to_string(), "C".to_string()],
    );
    match d {
        RoutingDecision::AcceptAndForward { peer_ids } => {
            assert_eq!(peer_ids, vec!["A".to_string(), "C".to_string()])
        }
        _ => panic!("expected a forward to A and C"),
    }
}

#[test]
fn hop_limit_and_ttl_rules() {
    let engine = RoutingEngine::new(test_config());
    let peers = ["p".to_string()];
    match engine.decide(&MessageType::CdmAnnounce, "x", 11, 5, &peers) {
        RoutingDecision::Reject { reason } => assert_eq!(reason, "Max hop count exceeded"),
        _ => panic!("expected a hop-limit rejection"),
    }
    assert!(matches!(
        engine.decide(&MessageType::CdmAnnounce, "x", 10, 5, &peers),
        RoutingDecision::AcceptAndForward { .. }
    ));
    assert!(matches!(engine.decide(&MessageType::CdmAnnounce, "x", 3, 0, &peers), RoutingDecision::Accept));
    assert!(matches!(
        engine.decide(&MessageType::ObjectStateAnnounce, "p", 0, 5, &peers),
        RoutingDecision::Accept
    ));
}

#[test]
fn peer_policy_filter() {
    let engine = RoutingEngine::new(test_config());
    assert!(engine.should_forward_to_peer(&MessageType::CdmWithdraw, true, false, false));
    assert!(!engine.should_forward_to_peer(&MessageType::CdmAnnounce, false, true, true));
    assert!(engine.should_forward_to_peer(&MessageType::ObjectStateWithdraw, false, true, false));
    assert!(engine.should_forward_to_peer(&MessageType::ManeuverIntent, false, false, true));
    assert!(!engine.should_forward_to_peer(&MessageType::Heartbeat, true, true, true));
}
