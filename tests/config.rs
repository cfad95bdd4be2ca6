use spacecomms::config::{
    default_host, default_max_hop_count, default_port, ApiConfig, Config, LogLevel,
    LoggingConfig, NodeConfig, PeerPolicies, ProtocolConfig, ServerConfig, StorageConfig,
};
use spacecomms::Error;
use spacecomms::api::ApiError;

fn config(id: &str, port: u16, level: &str) -> Config {
    Config {
        node: NodeConfig { id: id.to_string(), name: "Test".to_string() },
        server: ServerConfig { port, ..ServerConfig::default() },
        api: ApiConfig::default(),
        peers: vec![],
        storage: StorageConfig::default(),
        logging: LoggingConfig { level: level.to_string(), ..LoggingConfig::default() },
        protocol: ProtocolConfig::default(),
    }
}

#[test]
fn validation_of_identity_and_port() {
    assert!(config("test-node", 8080, "info").validate().is_ok());
    assert_eq!(
        config("", 8080, "info").validate(),
        Err(Error::Config("node.id is required".to_string()))
    );
    assert_eq!(
        config("n", 0, "info").validate(),
        Err(Error::Config("server.port must be non-zero".to_string()))
    );
}

#[test]
fn logging_levels() {
    assert_eq!(config("n", 1, "DEBUG").logging_level(), LogLevel::Debug);
    assert_eq!(config("n", 1, "Warn").logging_level(), LogLevel::Warn);
    assert_eq!(config("n", 1, "trace").logging_level(), LogLevel::Trace);
    assert_eq!(config("n", 1, "verbose").logging_level(), LogLevel::Info);
    assert_eq!(LogLevel::from_lowercase_name("error"), LogLevel::Error);
}

#[test]
fn defaults() {
    assert_eq!(default_host(), "0.0.0.0");
    assert_eq!(default_port(), 8080);
    assert_eq!(default_max_hop_count(), 10);
    let p = ProtocolConfig::default();
    assert_eq!((p.heartbeat_interval_seconds, p.session_timeout_seconds), (30, 120));
    let policies = PeerPolicies::default();
    assert!(policies.accept_cdm && policies.accept_object_state);
    assert!(policies.accept_maneuver && policies.forward_cdm);
    assert_eq!(StorageConfig::default().storage_type, "memory");
    assert_eq!(LoggingConfig::default().format, "pretty");
}

#[test]
fn api_error_statuses() {
    assert_eq!(ApiError::validation("x".to_string()).status_code(), 400);
    assert_eq!(ApiError::not_found("x".to_string()).status_code(), 404);
    let e = ApiError::internal("boom".to_string());
    assert_eq!(e.error, "internal_error");
    assert_eq!(e.message, "boom");
    assert_eq!(e.status_code(), 500);
}
