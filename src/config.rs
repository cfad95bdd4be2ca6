//! Node configuration: identity, listener, peers, storage, logging and the
//! protocol's limits.

use crate::error::Error;
use vstd::prelude::*;

verus! {

/// Port that the node listens on unless configured otherwise.
pub const DEFAULT_PORT: u16 = 8080;

/// Seconds between heartbeats unless configured otherwise.
pub const DEFAULT_HEARTBEAT_INTERVAL: u64 = 30;

/// Seconds of silence after which a peer session is considered lost.
pub const DEFAULT_SESSION_TIMEOUT: u64 = 120;

/// Largest hop count that a node accepts unless configured otherwise.
pub const DEFAULT_MAX_HOP_COUNT: u32 = 10;

/// The whole configuration of a node.
#[derive(Clone, Debug)]
pub struct Config {
    pub node: NodeConfig,
    pub server: ServerConfig,
    pub api: ApiConfig,
    pub peers: Vec<PeerConfig>,
    pub storage: StorageConfig,
    pub logging: LoggingConfig,
    pub protocol: ProtocolConfig,
}

/// Node identity.
#[derive(Clone, Debug)]
pub struct NodeConfig {
    pub id: String,
    pub name: String,
}

/// Listener settings.
#[derive(Clone, Debug)]
pub struct ServerConfig {
    pub host: String,
    pub port: u16,
    pub tls: Option<TlsConfig>,
}

/// Paths of the TLS certificate and key.
#[derive(Clone, Debug)]
pub struct TlsConfig {
    pub cert_path: String,
    pub key_path: String,
}

/// API settings.
#[derive(Clone, Debug)]
pub struct ApiConfig {
    pub auth: AuthConfig,
}

/// API authentication settings.
#[derive(Clone, Debug)]
pub struct AuthConfig {
    pub enabled: bool,
    pub tokens: Vec<TokenConfig>,
}

/// One configured API token.
#[derive(Clone, Debug)]
pub struct TokenConfig {
    pub id: String,
    pub secret: String,
    pub permissions: Vec<String>,
}

/// A peer known from configuration.
#[derive(Clone, Debug)]
pub struct PeerConfig {
    pub id: String,
    pub address: String,
    pub auth_token: Option<String>,
    pub policies: PeerPolicies,
}

/// Which message categories a peer takes part in.
#[derive(Clone, Copy, Debug, PartialEq, Eq, Structural)]
pub struct PeerPolicies {
    pub accept_cdm: bool,
    pub accept_object_state: bool,
    pub accept_maneuver: bool,
    pub forward_cdm: bool,
}

/// Storage backend selection.
#[derive(Clone, Debug)]
pub struct StorageConfig {
    pub storage_type: String,
    pub file_path: Option<String>,
}

/// Logging settings.
#[derive(Clone, Debug)]
pub struct LoggingConfig {
    pub level: String,
    pub format: String,
}

/// Protocol timing and propagation limits.
#[derive(Clone, Copy, Debug, PartialEq, Eq, Structural)]
pub struct ProtocolConfig {
    pub heartbeat_interval_seconds: u64,
    pub session_timeout_seconds: u64,
    pub max_hop_count: u32,
}

/// Severity threshold for logging.
#[derive(Clone, Copy, Debug, PartialEq, Eq, Structural)]
pub enum LogLevel {
    Trace,
    Debug,
    Info,
    Warn,
    Error,
}

/// What `str::to_lowercase` returns for a text.
pub uninterp spec fn lowercase_of(s: Seq<char>) -> Seq<char>;

/// Relies on `str::to_lowercase`: its result depends on the text alone.
#[verifier::external_body]
fn to_lowercase(s: &str) -> (r: String)
    ensures
        r@ == lowercase_of(s@),
{
    s.to_lowercase()
}

/// The level that a lower-case level name selects; anything unknown is `Info`.
pub open spec fn level_named(name: Seq<char>) -> LogLevel {
    if name == "trace"@ {
        LogLevel::Trace
    } else if name == "debug"@ {
        LogLevel::Debug
    } else if name == "info"@ {
        LogLevel::Info
    } else if name == "warn"@ {
        LogLevel::Warn
    } else if name == "error"@ {
        LogLevel::Error
    } else {
        LogLevel::Info
    }
}

impl LogLevel {
    /// The level for a name already in lower case.
    pub fn from_lowercase_name(name: &str) -> (r: LogLevel)
        ensures
            r == level_named(name@),
    {
        let n = String::from_str(name);
        if n == String::from_str("trace") {
            LogLevel::Trace
        } else if n == String::from_str("debug") {
            LogLevel::Debug
        } else if n == String::from_str("info") {
            LogLevel::Info
        } else if n == String::from_str("warn") {
            LogLevel::Warn
        } else if n == String::from_str("error") {
            LogLevel::Error
        } else {
            LogLevel::Info
        }
    }
}

impl Config {
    /// Holds when the node has an identity and a usable port.
    pub open spec fn spec_valid(&self) -> bool {
        self.node.id@.len() > 0 && self.server.port != 0
    }

    /// Checks the configuration: the node id must be non-empty and the port
    /// non-zero, tested in that order.
    pub fn validate(&self) -> (r: Result<(), Error>)
        ensures
            r is Ok <==> self.spec_valid(),
            self.node.id@.len() == 0 ==> (r matches Err(Error::Config(m)) && m@
                == "node.id is required"@),
            self.node.id@.len() > 0 && self.server.port == 0 ==> (r matches Err(Error::Config(m))
                && m@ == "server.port must be non-zero"@),
    {
        if self.node.id.as_str().is_empty() {
            return Err(Error::Config(String::from_str("node.id is required")));
        }
        if self.server.port == 0 {
            return Err(Error::Config(String::from_str("server.port must be non-zero")));
        }
        Ok(())
    }

    /// The configured logging level; the name is matched without regard to case.
    pub fn logging_level(&self) -> (r: LogLevel)
        ensures
            r == level_named(lowercase_of(self.logging.level@)),
    {
        let lowered = to_lowercase(self.logging.level.as_str());
        LogLevel::from_lowercase_name(lowered.as_str())
    }
}

pub fn default_host() -> (r: String)
    ensures
        r@ == "0.0.0.0"@,
{
    String::from_str("0.0.0.0")
}

pub fn default_port() -> (r: u16)
    ensures
        r == DEFAULT_PORT,
{
    DEFAULT_PORT
}

pub fn default_true() -> (r: bool)
    ensures
        r,
{
    true
}

pub fn default_storage_type() -> (r: String)
    ensures
        r@ == "memory"@,
{
    String::from_str("memory")
}

pub fn default_log_level() -> (r: String)
    ensures
        r@ == "info"@,
{
    String::from_str("info")
}

pub fn default_log_format() -> (r: String)
    ensures
        r@ == "pretty"@,
{
    String::from_str("pretty")
}

pub fn default_heartbeat_interval() -> (r: u64)
    ensures
        r == DEFAULT_HEARTBEAT_INTERVAL,
{
    DEFAULT_HEARTBEAT_INTERVAL
}

pub fn default_session_timeout() -> (r: u64)
    ensures
        r == DEFAULT_SESSION_TIMEOUT,
{
    DEFAULT_SESSION_TIMEOUT
}

pub fn default_max_hop_count() -> (r: u32)
    ensures
        r == DEFAULT_MAX_HOP_COUNT,
{
    DEFAULT_MAX_HOP_COUNT
}

impl Default for ServerConfig {
    fn default() -> (r: ServerConfig)
        ensures
            r.host@ == "0.0.0.0"@,
            r.port == DEFAULT_PORT,
            r.tls is None,
    {
        ServerConfig { host: default_host(), port: default_port(), tls: None }
    }
}

impl Default for ApiConfig {
    fn default() -> (r: ApiConfig)
        ensures
            !r.auth.enabled,
            r.auth.tokens@.len() == 0,
    {
        ApiConfig { auth: AuthConfig::default() }
    }
}

impl Default for AuthConfig {
    fn default() -> (r: AuthConfig)
        ensures
            !r.enabled,
            r.tokens@.len() == 0,
    {
        AuthConfig { enabled: false, tokens: Vec::new() }
    }
}

impl Default for PeerPolicies {
    /// Every category is accepted and CDMs are forwarded.
    fn default() -> (r: PeerPolicies)
        ensures
            r.accept_cdm,
            r.accept_object_state,
            r.accept_maneuver,
            r.forward_cdm,
    {
        PeerPolicies {
            accept_cdm: default_true(),
            accept_object_state: default_true(),
            accept_maneuver: default_true(),
            forward_cdm: default_true(),
        }
    }
}

impl Default for StorageConfig {
    fn default() -> (r: StorageConfig)
        ensures
            r.storage_type@ == "memory"@,
            r.file_path is None,
    {
        StorageConfig { storage_type: default_storage_type(), file_path: None }
    }
}

impl Default for LoggingConfig {
    fn default() -> (r: LoggingConfig)
        ensures
            r.level@ == "info"@,
            r.format@ == "pretty"@,
    {
        LoggingConfig { level: default_log_level(), format: default_log_format() }
    }
}

impl Default for ProtocolConfig {
    fn default() -> (r: ProtocolConfig)
        ensures
            r.heartbeat_interval_seconds == DEFAULT_HEARTBEAT_INTERVAL,
            r.session_timeout_seconds == DEFAULT_SESSION_TIMEOUT,
            r.max_hop_count == DEFAULT_MAX_HOP_COUNT,
    {
        ProtocolConfig {
            heartbeat_interval_seconds: default_heartbeat_interval(),
            session_timeout_seconds: default_session_timeout(),
            max_hop_count: default_max_hop_count(),
        }
    }
}

} // verus!
