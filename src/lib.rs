//! Core of a gossip node that distributes conjunction data messages (CDMs)
//! among independently operated peers: the message envelope and its loop
//! guards, the routing decision, the peer registry, the CDM model and its
//! validator, storage with message deduplication, and protocol version
//! negotiation.

pub mod api;
pub mod binary64;
pub mod cdm;
pub mod config;
pub mod envelope;
pub mod error;
pub mod ids;
pub mod messages;
pub mod node;
pub mod peer;
pub mod routing;
pub mod storage;
pub mod text;
pub mod time;

pub use binary64::Binary64;
pub use cdm::{validate_cdm, CdmObject, CdmRecord, ObjectRecord};
pub use config::Config;
pub use envelope::{Envelope, MessageType};
pub use error::Error;
pub use messages::{negotiate_version, HelloPayload, VersionNegotiationResult};
pub use peer::{PeerInfo, PeerManager, PeerStatus};
pub use routing::{RoutingDecision, RoutingEngine};
pub use storage::{MemoryStorage, Storage};
pub use time::Timestamp;
