//! The wire envelope around every protocol message, with its two loop guards:
//! the hop count, which grows by one per forward, and the TTL, which shrinks by
//! one per forward and stops forwarding at zero.

use crate::ids::{is_hyphenated_uuid, new_uuid};
use crate::time::Timestamp;
use vstd::prelude::*;

verus! {

/// Protocol version stamped on new envelopes.
pub const PROTOCOL_VERSION: &'static str = "1.0.0";

/// TTL of a freshly created envelope.
pub const INITIAL_TTL: u32 = 10;

#[verifier::external_type_specification]
#[verifier::external_body]
pub struct ExJsonValue(serde_json::Value);

/// Relies on the derived `Clone` of `serde_json::Value`, which copies the
/// value field by field.
pub assume_specification[ <serde_json::Value as Clone>::clone ](v: &serde_json::Value) -> (r:
    serde_json::Value)
    ensures
        r == *v,
;

/// The kinds of protocol message.
#[derive(Clone, Copy, Debug, PartialEq, Eq, Structural)]
pub enum MessageType {
    Hello,
    ObjectStateAnnounce,
    ObjectStateWithdraw,
    CdmAnnounce,
    CdmWithdraw,
    ManeuverIntent,
    ManeuverStatus,
    Heartbeat,
    Error,
}

/// Point-to-point session messages, which are never gossiped.
pub open spec fn is_session_message(t: MessageType) -> bool {
    t is Hello || t is Heartbeat || t is Error
}

/// The wire name of a message type.
pub open spec fn wire_name(t: MessageType) -> Seq<char> {
    match t {
        MessageType::Hello => "HELLO"@,
        MessageType::ObjectStateAnnounce => "OBJECT_STATE_ANNOUNCE"@,
        MessageType::ObjectStateWithdraw => "OBJECT_STATE_WITHDRAW"@,
        MessageType::CdmAnnounce => "CDM_ANNOUNCE"@,
        MessageType::CdmWithdraw => "CDM_WITHDRAW"@,
        MessageType::ManeuverIntent => "MANEUVER_INTENT"@,
        MessageType::ManeuverStatus => "MANEUVER_STATUS"@,
        MessageType::Heartbeat => "HEARTBEAT"@,
        MessageType::Error => "ERROR"@,
    }
}

/// The message type with this wire name, if any.
pub open spec fn type_named(name: Seq<char>) -> Option<MessageType> {
    if name == "HELLO"@ {
        Some(MessageType::Hello)
    } else if name == "OBJECT_STATE_ANNOUNCE"@ {
        Some(MessageType::ObjectStateAnnounce)
    } else if name == "OBJECT_STATE_WITHDRAW"@ {
        Some(MessageType::ObjectStateWithdraw)
    } else if name == "CDM_ANNOUNCE"@ {
        Some(MessageType::CdmAnnounce)
    } else if name == "CDM_WITHDRAW"@ {
        Some(MessageType::CdmWithdraw)
    } else if name == "MANEUVER_INTENT"@ {
        Some(MessageType::ManeuverIntent)
    } else if name == "MANEUVER_STATUS"@ {
        Some(MessageType::ManeuverStatus)
    } else if name == "HEARTBEAT"@ {
        Some(MessageType::Heartbeat)
    } else if name == "ERROR"@ {
        Some(MessageType::Error)
    } else {
        None
    }
}

impl MessageType {
    /// Reads a wire name; unknown names are refused.
    pub fn from_wire_name(name: &str) -> (r: Option<MessageType>)
        ensures
            r == type_named(name@),
            r matches Some(t) ==> wire_name(t) == name@,
    {
        let n = String::from_str(name);
        if n == String::from_str("HELLO") {
            Some(MessageType::Hello)
        } else if n == String::from_str("OBJECT_STATE_ANNOUNCE") {
            Some(MessageType::ObjectStateAnnounce)
        } else if n == String::from_str("OBJECT_STATE_WITHDRAW") {
            Some(MessageType::ObjectStateWithdraw)
        } else if n == String::from_str("CDM_ANNOUNCE") {
            Some(MessageType::CdmAnnounce)
        } else if n == String::from_str("CDM_WITHDRAW") {
            Some(MessageType::CdmWithdraw)
        } else if n == String::from_str("MANEUVER_INTENT") {
            Some(MessageType::ManeuverIntent)
        } else if n == String::from_str("MANEUVER_STATUS") {
            Some(MessageType::ManeuverStatus)
        } else if n == String::from_str("HEARTBEAT") {
            Some(MessageType::Heartbeat)
        } else if n == String::from_str("ERROR") {
            Some(MessageType::Error)
        } else {
            None
        }
    }

    /// The wire name, e.g. `CDM_ANNOUNCE`.
    pub fn as_str(&self) -> (r: &'static str)
        ensures
            r@ == wire_name(*self),
    {
        match self {
            MessageType::Hello => "HELLO",
            MessageType::ObjectStateAnnounce => "OBJECT_STATE_ANNOUNCE",
            MessageType::ObjectStateWithdraw => "OBJECT_STATE_WITHDRAW",
            MessageType::CdmAnnounce => "CDM_ANNOUNCE",
            MessageType::CdmWithdraw => "CDM_WITHDRAW",
            MessageType::ManeuverIntent => "MANEUVER_INTENT",
            MessageType::ManeuverStatus => "MANEUVER_STATUS",
            MessageType::Heartbeat => "HEARTBEAT",
            MessageType::Error => "ERROR",
        }
    }
}

/// A protocol message with its routing metadata.
#[derive(Debug)]
pub struct Envelope {
    pub protocol_version: String,
    /// Correlation id, the same on every hop of one logical message.
    pub message_id: String,
    /// When the message was originated; never changes across hops.
    pub timestamp: Timestamp,
    /// The node that originated the message; never changes across hops.
    pub source_node_id: String,
    pub message_type: MessageType,
    pub hop_count: u32,
    pub ttl: u32,
    pub payload: serde_json::Value,
}

impl Envelope {
    /// `other` is a copy of `self` forwarded once: one more hop, one less TTL,
    /// everything else the same.
    pub open spec fn spec_forwarded_from(other: Envelope, from: Envelope) -> bool {
        &&& other.protocol_version@ == from.protocol_version@
        &&& other.message_id@ == from.message_id@
        &&& other.timestamp == from.timestamp
        &&& other.source_node_id@ == from.source_node_id@
        &&& other.message_type == from.message_type
        &&& other.payload == from.payload
        &&& other.hop_count == from.hop_count + 1
        &&& other.ttl == from.ttl - 1
    }

    /// A new envelope from this node: current version, a fresh id, the
    /// current time, no hops yet and the initial TTL.
    pub fn new(source_node_id: String, message_type: MessageType, payload: serde_json::Value) -> (r:
        Envelope)
        ensures
            r.protocol_version@ == PROTOCOL_VERSION@,
            is_hyphenated_uuid(r.message_id@),
            r.timestamp.nanos < 1_000_000_000,
            r.source_node_id == source_node_id,
            r.message_type == message_type,
            r.hop_count == 0,
            r.ttl == INITIAL_TTL,
            r.payload == payload,
    {
        Envelope {
            protocol_version: String::from_str(PROTOCOL_VERSION),
            message_id: new_uuid(),
            timestamp: Timestamp::now(),
            source_node_id,
            message_type,
            hop_count: 0,
            ttl: INITIAL_TTL,
            payload,
        }
    }

    /// The copy to send onwards, or `None` once the TTL is spent.
    pub fn forwarded(&self) -> (r: Option<Envelope>)
        requires
            self.ttl > 0 ==> self.hop_count < u32::MAX,
        ensures
            self.ttl == 0 <==> r is None,
            r matches Some(f) ==> Self::spec_forwarded_from(f, *self),
    {
        if self.ttl == 0 {
            return None;
        }
        Some(
            Envelope {
                protocol_version: self.protocol_version.clone(),
                message_id: self.message_id.clone(),
                timestamp: self.timestamp,
                source_node_id: self.source_node_id.clone(),
                message_type: self.message_type,
                hop_count: self.hop_count + 1,
                ttl: self.ttl - 1,
                payload: self.payload.clone(),
            },
        )
    }

    /// True while the TTL allows another forward.
    pub fn can_forward(&self) -> (r: bool)
        ensures
            r == (self.ttl > 0),
    {
        self.ttl > 0
    }
}

} // verus!
