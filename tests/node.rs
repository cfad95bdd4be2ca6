use spacecomms::cdm::accept_decoded_cdm;
use spacecomms::config::{
    ApiConfig, Config, LoggingConfig, NodeConfig, PeerPolicies, ProtocolConfig, ServerConfig,
    StorageConfig,
};
use spacecomms::ids::{dated_id, new_cdm_id, new_maneuver_id};
use spacecomms::messages::{ObjectType, StateVector};
use spacecomms::node::{filter_by_policy, ingest_cdm, process_inbound};
use spacecomms::storage::{KeyedTable, SeenMessages};
use spacecomms::{
    Binary64, CdmObject, CdmRecord, Envelope, Error, MessageType, PeerInfo, PeerManager,
    PeerStatus, RoutingDecision, RoutingEngine, Timestamp,
};

fn num(x: f64) -> Binary64 {
    Binary64::from_bits(x.to_bits())
}

fn object(id: &str, name: &str) -> CdmObject {
    CdmObject {
        object_id: id.to_string(),
        object_name: name.to_string(),
        object_type: ObjectType::Payload,
        owner_operator: None,
        maneuverable: true,
        state_vector: StateVector {
            reference_frame: "TEME".to_string(),
            epoch: None,
            x_km: num(6878.0),
            y_km: num(0.0),
            z_km: num(0.0),
            vx_km_s: num(0.0),
            vy_km_s: num(7.6),
            vz_km_s: num(0.0),
        },
        covariance_rtm: None,
    }
}

fn scenario_cdm() -> CdmRecord {
    let created = Timestamp::new(1_705_327_200, 0);
    CdmRecord {
        cdm_id: "CDM-X".to_string(),
        creation_date: created,
        originator: "INTEGRATION-TEST".to_string(),
        message_for: "TEST-OPERATOR".to_string(),
        tca: Timestamp::new(created.seconds + 2 * 86_400, 0),
        miss_distance_m: num(200.0),
        collision_probability: num(1e-5),
        object1: object("TEST-SAT-001", "Test Satellite 1"),
        object2: object("TEST-DEB-001", "Test Debris 1"),
        relative_state: None,
        screening_data: None,
        data_quality_score: None,
        conjunction_category: None,
        recommended_action: None,
    }
}

fn peer(id: &str, status: PeerStatus, policies: PeerPolicies) -> PeerInfo {
    PeerInfo {
        id: id.to_string(),
        address: format!("http://{}:8080", id),
        status,
        last_heartbeat: None,
        messages_sent: 0,
        messages_received: 0,
        policies,
    }
}

fn engine() -> RoutingEngine {
    RoutingEngine::new(Config {
        node: NodeConfig { id: "node-1".to_string(), name: "Node".to_string() },
        server: ServerConfig::default(),
        api: ApiConfig::default(),
        peers: vec![],
        storage: StorageConfig::default(),
        logging: LoggingConfig::default(),
        protocol: ProtocolConfig::default(),
    })
}

#[test]
fn cdm_lifecycle_scenario() {
    let mut cdms = KeyedTable::new();
    let mut peers = PeerManager::new();
    peers.add_peer(peer("node-b", PeerStatus::Connected, PeerPolicies::default()));
    peers.add_peer(peer("node-c", PeerStatus::Connecting, PeerPolicies::default()));

    let receipt = ingest_cdm(&mut cdms, &peers, scenario_cdm()).unwrap();
    assert_eq!(receipt.cdm_id, "CDM-X");
    assert_eq!(receipt.propagated_to, vec!["node-b".to_string()]);

    let got = cdms.get("CDM-X").unwrap();
    assert_eq!(got.miss_distance_m, num(200.0));
    assert_eq!(got.collision_probability, num(1e-5));

    assert!(cdms.remove("CDM-X").is_some());
    assert!(cdms.get("CDM-X").is_none());
    assert!(cdms.remove("CDM-X").is_none());
}

#[test]
fn invalid_cdm_is_not_stored() {
    let mut cdms = KeyedTable::new();
    let peers = PeerManager::new();
    let mut bad = scenario_cdm();
    bad.originator = String::new();
    let r = ingest_cdm(&mut cdms, &peers, bad);
    assert_eq!(
        r.map(|x| x.cdm_id).unwrap_err(),
        Error::CdmValidation("originator is required".to_string())
    );
    assert_eq!(cdms.len(), 0);
}

#[test]
fn test_missing_required_fields_rejected() {
    let result = accept_decoded_cdm(Err("missing field `creation_date`".to_string()));
    assert!(result.is_err(), "CDM with missing fields should be rejected");
}

#[test]
fn duplicate_messages_are_refused() {
    let mut seen = SeenMessages::new();
    let mut peers = PeerManager::new();
    peers.add_peer(peer("a", PeerStatus::Connected, PeerPolicies::default()));
    peers.add_peer(peer("b", PeerStatus::Connected, PeerPolicies::default()));
    let env = Envelope::new("b".to_string(), MessageType::CdmAnnounce, serde_json::Value::Null);

    let first = process_inbound(&mut seen, &engine(), &peers, &env);
    match first {
        RoutingDecision::AcceptAndForward { peer_ids } => assert_eq!(peer_ids, vec!["a".to_string()]),
        _ => panic!("expected a forward to a"),
    }
    assert!(seen.contains(&env.message_id));
    let second = process_inbound(&mut seen, &engine(), &peers, &env);
    match second {
        RoutingDecision::Reject { reason } => assert_eq!(reason, "Duplicate message"),
        _ => panic!("expected a duplicate rejection"),
    }
}

#[test]
fn own_message_is_not_marked_seen() {
    let mut seen = SeenMessages::new();
    let peers = PeerManager::new();
    let env = Envelope::new("node-1".to_string(), MessageType::CdmAnnounce, serde_json::Value::Null);
    assert!(matches!(
        process_inbound(&mut seen, &engine(), &peers, &env),
        RoutingDecision::Reject { .. }
    ));
    assert!(!seen.contains(&env.message_id));
}

#[test]
fn forward_targets_follow_peer_policy() {
    let mut peers = PeerManager::new();
    let no_cdm = PeerPolicies { accept_cdm: false, ..PeerPolicies::default() };
    peers.add_peer(peer("a", PeerStatus::Connected, no_cdm));
    peers.add_peer(peer("b", PeerStatus::Connected, PeerPolicies::default()));
    let targets = vec!["a".to_string(), "b".to_string(), "unknown".to_string()];
    assert_eq!(
        filter_by_policy(&engine(), MessageType::CdmAnnounce, &targets, &peers),
        vec!["b".to_string()]
    );
    assert_eq!(
        filter_by_policy(&engine(), MessageType::ObjectStateAnnounce, &targets, &peers),
        vec!["a".to_string(), "b".to_string()]
    );
}

#[test]
fn dated_identifiers() {
    assert_eq!(dated_id("MNVR", "20240120", "1a2b3c4d-0000"), "MNVR-20240120-1A2B3C4D");
    assert_eq!(dated_id("X", "d", "zz-Ab0fgh"), "X-d-zz-AB0Fg");
    let id = new_maneuver_id();
    assert!(id.starts_with("MNVR-"));
    let tail: Vec<char> = id.chars().rev().take(9).collect();
    assert_eq!(tail[8], '-');
    assert!(tail[..8].iter().all(|c| c.is_ascii_digit() || ('A'..='F').contains(c)));
    assert!(new_cdm_id().starts_with("CDM-"));
}
