//! Payloads of the protocol messages, and version negotiation between two
//! nodes at session setup.

use crate::binary64::Binary64;
use crate::text::{decimal_text, parse_u32, parse_u32_spec, texts, u32_to_text};
use crate::time::Timestamp;
use vstd::prelude::*;

verus! {

/// Protocol version that a node announces in its HELLO.
pub const PROTOCOL_VERSION: &'static str = "1.0";

/// A HELLO message: who the node is and what it supports.
#[derive(Clone, Debug)]
pub struct HelloPayload {
    pub node_name: String,
    pub protocol_version: String,
    pub supported_versions: Vec<String>,
    pub capabilities: Vec<String>,
    pub auth_token: Option<String>,
}

impl Default for HelloPayload {
    fn default() -> (r: HelloPayload)
        ensures
            r.node_name@ == "SpaceComms Node"@,
            r.protocol_version@ == PROTOCOL_VERSION@,
            texts(r.capabilities@) == seq!["CDM"@, "OBJECT_STATE"@, "MANEUVER"@],
            texts(r.supported_versions@) == seq!["1.0"@, "1.1"@],
            r.auth_token is None,
    {
        let capabilities = vec![
            String::from_str("CDM"),
            String::from_str("OBJECT_STATE"),
            String::from_str("MANEUVER"),
        ];
        let supported_versions = vec![String::from_str("1.0"), String::from_str("1.1")];
        assert(texts(capabilities@) == seq!["CDM"@, "OBJECT_STATE"@, "MANEUVER"@]);
        assert(texts(supported_versions@) == seq!["1.0"@, "1.1"@]);
        HelloPayload {
            node_name: String::from_str("SpaceComms Node"),
            protocol_version: String::from_str(PROTOCOL_VERSION),
            supported_versions,
            capabilities,
            auth_token: None,
        }
    }
}

/// Outcome of version negotiation.
#[derive(Clone, Debug, PartialEq, Eq)]
pub enum VersionNegotiationResult {
    /// Both sides can talk at this version.
    Compatible(String),
    /// The two versions cannot be reconciled.
    Incompatible { local: String, remote: String, reason: String },
}

/// A negotiation outcome with its texts as character sequences.
pub ghost enum NegotiationView {
    Compatible(Seq<char>),
    Incompatible { local: Seq<char>, remote: Seq<char>, reason: Seq<char> },
}

impl View for VersionNegotiationResult {
    type V = NegotiationView;

    open spec fn view(&self) -> NegotiationView {
        match self {
            VersionNegotiationResult::Compatible(v) => NegotiationView::Compatible(v@),
            VersionNegotiationResult::Incompatible { local, remote, reason } =>
                NegotiationView::Incompatible { local: local@, remote: remote@, reason: reason@ },
        }
    }
}

/// Index of the first `.` in `s`, or its length when there is none.
pub open spec fn first_dot(s: Seq<char>) -> nat
    decreases s.len(),
{
    if s.len() == 0 {
        0
    } else if s[0] == '.' {
        0
    } else {
        1 + first_dot(s.drop_first())
    }
}

/// Reads `major[.minor[...]]`: the first two dot-separated fields as numbers,
/// a missing minor being 0; anything after a second dot is ignored.
pub open spec fn parse_version_spec(v: Seq<char>) -> Option<(u32, u32)> {
    let i = first_dot(v) as int;
    if i >= v.len() {
        match parse_u32_spec(v) {
            Some(major) => Some((major, 0u32)),
            None => None,
        }
    } else {
        let rest = v.subrange(i + 1, v.len() as int);
        let j = first_dot(rest) as int;
        match (parse_u32_spec(v.take(i)), parse_u32_spec(rest.take(j))) {
            (Some(major), Some(minor)) => Some((major, minor)),
            _ => None,
        }
    }
}

pub open spec fn min_u32(a: u32, b: u32) -> u32 {
    if a <= b {
        a
    } else {
        b
    }
}

/// Negotiation between two announced versions: equal majors agree on the
/// lower minor; different majors, or a version that cannot be read, do not
/// agree.
pub open spec fn negotiation(local: Seq<char>, remote: Seq<char>) -> NegotiationView {
    match (parse_version_spec(local), parse_version_spec(remote)) {
        (Some((lmaj, lmin)), Some((rmaj, rmin))) => if lmaj != rmaj {
            NegotiationView::Incompatible {
                local,
                remote,
                reason: "Major version mismatch: local v"@ + decimal_text(lmaj as nat)
                    + ".x vs remote v"@ + decimal_text(rmaj as nat) + ".x"@,
            }
        } else {
            NegotiationView::Compatible(
                decimal_text(lmaj as nat) + "."@ + decimal_text(min_u32(lmin, rmin) as nat),
            )
        },
        _ => NegotiationView::Incompatible {
            local,
            remote,
            reason: "Could not parse version strings"@,
        },
    }
}

proof fn lemma_first_dot_bound(s: Seq<char>)
    ensures
        first_dot(s) <= s.len(),
        first_dot(s) < s.len() ==> s[first_dot(s) as int] == '.',
    decreases s.len(),
{
    if s.len() > 0 && s[0] != '.' {
        lemma_first_dot_bound(s.drop_first());
    }
}

fn find_dot(s: &str) -> (r: usize)
    ensures
        r == first_dot(s@),
{
    let n = s.unicode_len();
    let mut i: usize = 0;
    assert(s@.subrange(0, n as int) == s@);
    while i < n
        invariant
            i <= n,
            n == s@.len(),
            first_dot(s@) == i + first_dot(s@.subrange(i as int, n as int)),
        decreases n - i,
    {
        if s.get_char(i) == '.' {
            return i;
        }
        assert(s@.subrange(i as int, n as int).drop_first() == s@.subrange(i + 1, n as int));
        i = i + 1;
    }
    i
}

/// Reads a version string as `parse_version_spec` describes.
pub fn parse_version(v: &str) -> (r: Option<(u32, u32)>)
    ensures
        r == parse_version_spec(v@),
{
    let n = v.unicode_len();
    let i = find_dot(v);
    proof {
        lemma_first_dot_bound(v@);
    }
    if i >= n {
        return match parse_u32(v) {
            Some(major) => Some((major, 0u32)),
            None => None,
        };
    }
    let rest = v.substring_char(i + 1, n);
    let j = find_dot(rest);
    proof {
        lemma_first_dot_bound(rest@);
    }
    let major = parse_u32(v.substring_char(0, i));
    let minor = parse_u32(rest.substring_char(0, j));
    match (major, minor) {
        (Some(a), Some(b)) => Some((a, b)),
        _ => None,
    }
}

/// Negotiates the protocol version between this node and a remote one.
pub fn negotiate_version(local: &HelloPayload, remote: &HelloPayload) -> (r:
    VersionNegotiationResult)
    ensures
        r@ == negotiation(local.protocol_version@, remote.protocol_version@),
{
    let lv = parse_version(local.protocol_version.as_str());
    let rv = parse_version(remote.protocol_version.as_str());
    match (lv, rv) {
        (Some((lmaj, lmin)), Some((rmaj, rmin))) => {
            if lmaj != rmaj {
                let reason = String::from_str("Major version mismatch: local v").concat(
                    u32_to_text(lmaj).as_str(),
                ).concat(".x vs remote v").concat(u32_to_text(rmaj).as_str()).concat(".x");
                return VersionNegotiationResult::Incompatible {
                    local: local.protocol_version.clone(),
                    remote: remote.protocol_version.clone(),
                    reason,
                };
            }
            let m = if lmin <= rmin {
                lmin
            } else {
                rmin
            };
            VersionNegotiationResult::Compatible(
                u32_to_text(lmaj).concat(".").concat(u32_to_text(m).as_str()),
            )
        },
        _ => VersionNegotiationResult::Incompatible {
            local: local.protocol_version.clone(),
            remote: remote.protocol_version.clone(),
            reason: String::from_str("Could not parse version strings"),
        },
    }
}

/// A state vector: position in km and velocity in km/s in a named
/// reference frame.
#[derive(Clone, Debug)]
pub struct StateVector {
    pub reference_frame: String,
    pub epoch: Option<Timestamp>,
    pub x_km: Binary64,
    pub y_km: Binary64,
    pub z_km: Binary64,
    pub vx_km_s: Binary64,
    pub vy_km_s: Binary64,
    pub vz_km_s: Binary64,
}

/// Position covariance in the radial / transverse / normal frame.
#[derive(Clone, Debug)]
pub struct CovarianceRtn {
    pub reference_frame: String,
    pub cr_r: Binary64,
    pub ct_r: Binary64,
    pub ct_t: Binary64,
    pub cn_r: Binary64,
    pub cn_t: Binary64,
    pub cn_n: Binary64,
}

/// Frame of a covariance when none is given.
pub fn default_rtn() -> (r: String)
    ensures
        r@ == "RTN"@,
{
    String::from_str("RTN")
}

/// Kind of tracked object.
#[derive(Clone, Copy, Debug, PartialEq, Eq, Structural)]
pub enum ObjectType {
    Payload,
    Debris,
    RocketBody,
    Unknown,
}

#[verifier::external_type_specification]
#[verifier::external_body]
#[verifier::reject_recursive_types(K)]
#[verifier::reject_recursive_types(V)]
pub struct ExJsonMap<K, V>(serde_json::Map<K, V>);

/// Relies on `Clone` of `serde_json::Map<String, Value>`, which clones the
/// underlying map entry by entry.
pub assume_specification[ <serde_json::Map<String, serde_json::Value> as Clone>::clone ](
    m: &serde_json::Map<String, serde_json::Value>,
) -> (r: serde_json::Map<String, serde_json::Value>)
    ensures
        r == *m,
;

/// An object state announcement.
#[derive(Clone, Debug)]
pub struct ObjectStateAnnouncePayload {
    pub object_id: String,
    pub object_name: String,
    pub object_type: ObjectType,
    pub owner_operator: Option<String>,
    pub epoch: Timestamp,
    pub state_vector: StateVector,
    pub covariance: Option<CovarianceRtn>,
    pub metadata: serde_json::Map<String, serde_json::Value>,
}

/// Why an object's state is withdrawn.
#[derive(Clone, Copy, Debug, PartialEq, Eq, Structural)]
pub enum WithdrawReason {
    Decayed,
    ManeuverComplete,
    Superseded,
    Error,
}

/// An object state withdrawal.
#[derive(Clone, Debug)]
pub struct ObjectStateWithdrawPayload {
    pub object_id: String,
    pub reason: WithdrawReason,
    pub effective_time: Timestamp,
}

/// Why a CDM is withdrawn.
#[derive(Clone, Copy, Debug, PartialEq, Eq, Structural)]
pub enum CdmWithdrawReason {
    Superseded,
    TcaPassed,
    FalsePositive,
    Error,
}

/// A CDM withdrawal.
#[derive(Clone, Debug)]
pub struct CdmWithdrawPayload {
    pub cdm_id: String,
    pub reason: CdmWithdrawReason,
    pub superseded_by: Option<String>,
    pub effective_time: Timestamp,
}

/// Purpose of a maneuver.
#[derive(Clone, Copy, Debug, PartialEq, Eq, Structural)]
pub enum ManeuverType {
    CollisionAvoidance,
    StationKeeping,
    Deorbit,
    Other,
}

/// A velocity change in the velocity / normal / binormal frame.
#[derive(Clone, Debug)]
pub struct DeltaV {
    pub reference_frame: String,
    pub dv_v_m_s: Binary64,
    pub dv_n_m_s: Binary64,
    pub dv_b_m_s: Binary64,
}

/// Frame of a velocity change when none is given.
pub fn default_vnb() -> (r: String)
    ensures
        r@ == "VNB"@,
{
    String::from_str("VNB")
}

/// A planned maneuver.
#[derive(Clone, Debug)]
pub struct ManeuverIntentPayload {
    pub maneuver_id: String,
    pub object_id: String,
    pub related_cdm_id: Option<String>,
    pub planned_start: Timestamp,
    pub planned_duration_s: Binary64,
    pub maneuver_type: ManeuverType,
    pub delta_v: Option<DeltaV>,
    pub predicted_post_maneuver_state: Option<StateVector>,
}

/// Progress of a maneuver.
#[derive(Clone, Copy, Debug, PartialEq, Eq, Structural)]
pub enum ManeuverStatusType {
    Planned,
    InProgress,
    Completed,
    Cancelled,
    Failed,
}

/// A maneuver progress report.
#[derive(Clone, Debug)]
pub struct ManeuverStatusPayload {
    pub maneuver_id: String,
    pub object_id: String,
    pub status: ManeuverStatusType,
    pub actual_start: Option<Timestamp>,
    pub actual_duration_s: Option<Binary64>,
    pub achieved_delta_v: Option<DeltaV>,
    pub post_maneuver_state: Option<StateVector>,
}

/// A heartbeat with optional counts of what the node holds.
#[derive(Clone, Copy, Debug, PartialEq, Eq, Structural)]
pub struct HeartbeatPayload {
    pub sequence: u64,
    pub objects_tracked: Option<u64>,
    pub cdms_active: Option<u64>,
}

/// Protocol error codes.
#[derive(Clone, Copy, Debug, PartialEq, Eq, Structural)]
pub enum ErrorCode {
    InvalidMessage,
    UnsupportedVersion,
    Unauthorized,
    RateLimited,
    InternalError,
}

/// The wire name of an error code.
pub open spec fn error_code_name(c: ErrorCode) -> Seq<char> {
    match c {
        ErrorCode::InvalidMessage => "INVALID_MESSAGE"@,
        ErrorCode::UnsupportedVersion => "UNSUPPORTED_VERSION"@,
        ErrorCode::Unauthorized => "UNAUTHORIZED"@,
        ErrorCode::RateLimited => "RATE_LIMITED"@,
        ErrorCode::InternalError => "INTERNAL_ERROR"@,
    }
}

impl ErrorCode {
    /// The wire name, e.g. `INVALID_MESSAGE`.
    pub fn as_str(&self) -> (r: &'static str)
        ensures
            r@ == error_code_name(*self),
    {
        match self {
            ErrorCode::InvalidMessage => "INVALID_MESSAGE",
            ErrorCode::UnsupportedVersion => "UNSUPPORTED_VERSION",
            ErrorCode::Unauthorized => "UNAUTHORIZED",
            ErrorCode::RateLimited => "RATE_LIMITED",
            ErrorCode::InternalError => "INTERNAL_ERROR",
        }
    }
}

/// A protocol error report.
#[derive(Clone, Debug)]
pub struct ErrorPayload {
    pub error_code: ErrorCode,
    pub error_message: String,
    pub related_message_id: Option<String>,
}

} // verus!
