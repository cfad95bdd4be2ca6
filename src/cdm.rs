//! Conjunction data messages: the record, the objects it pairs, and the rules
//! a record must satisfy before a node accepts it.

use crate::binary64::{Binary64, ONE_BITS};
use crate::error::Error;
use crate::messages::{CovarianceRtn, ObjectType, StateVector};
use crate::time::Timestamp;
use vstd::prelude::*;

verus! {

/// Encoding of 1e-3, above which a conjunction is rated high.
pub const HIGH_RISK_BITS: u64 = 0x3F50_624D_D2F1_A9FC;

/// Encoding of 1e-5, above which a conjunction is rated medium.
pub const MEDIUM_RISK_BITS: u64 = 0x3EE4_F8B5_88E3_68F1;

/// Encoding of 1e-4, above which an operator should prepare to maneuver.
pub const PREPARE_BITS: u64 = 0x3F1A_36E2_EB1C_432D;

/// A conjunction data message.
#[derive(Clone, Debug)]
pub struct CdmRecord {
    pub cdm_id: String,
    pub creation_date: Timestamp,
    pub originator: String,
    pub message_for: String,
    /// Time of closest approach.
    pub tca: Timestamp,
    pub miss_distance_m: Binary64,
    pub collision_probability: Binary64,
    pub object1: CdmObject,
    pub object2: CdmObject,
    pub relative_state: Option<RelativeState>,
    pub screening_data: Option<ScreeningData>,
    pub data_quality_score: Option<Binary64>,
    pub conjunction_category: Option<ConjunctionCategory>,
    pub recommended_action: Option<RecommendedAction>,
}

/// One of the two objects of a conjunction.
#[derive(Clone, Debug)]
pub struct CdmObject {
    pub object_id: String,
    pub object_name: String,
    pub object_type: ObjectType,
    pub owner_operator: Option<String>,
    pub maneuverable: bool,
    pub state_vector: StateVector,
    pub covariance_rtm: Option<CovarianceRtn>,
}

/// Relative position (m) and velocity (m/s) at closest approach, in the
/// radial / transverse / normal frame.
#[derive(Clone, Copy, Debug)]
pub struct RelativeState {
    pub relative_position_r_m: Binary64,
    pub relative_position_t_m: Binary64,
    pub relative_position_n_m: Binary64,
    pub relative_velocity_r_m_s: Binary64,
    pub relative_velocity_t_m_s: Binary64,
    pub relative_velocity_n_m_s: Binary64,
}

/// How the conjunction was screened.
#[derive(Clone, Debug)]
pub struct ScreeningData {
    pub screen_type: ScreenType,
    pub screen_volume_shape: Option<String>,
    pub hard_body_radius_m: Option<Binary64>,
}

#[derive(Clone, Copy, Debug, PartialEq, Eq, Structural)]
pub enum ScreenType {
    Routine,
    Special,
    Emergency,
}

/// Risk tier of a conjunction.
#[derive(Clone, Copy, Debug, PartialEq, Eq, Structural)]
pub enum ConjunctionCategory {
    High,
    Medium,
    Low,
}

/// Suggested operator response.
#[derive(Clone, Copy, Debug, PartialEq, Eq, Structural)]
pub enum RecommendedAction {
    Monitor,
    Prepare,
    Maneuver,
}

/// The tracked state of one object.
#[derive(Clone, Debug)]
pub struct ObjectRecord {
    pub object_id: String,
    pub object_name: String,
    pub object_type: ObjectType,
    pub owner_operator: Option<String>,
    pub epoch: Timestamp,
    pub state_vector: StateVector,
    pub covariance: Option<CovarianceRtn>,
    pub source_node: String,
    pub last_updated: Timestamp,
}

/// The first rule that an object breaks, as the message that reports it.
pub open spec fn object_violation(obj: CdmObject, field: Seq<char>) -> Option<Seq<char>> {
    if obj.object_id@.len() == 0 {
        Some(field + ".object_id is required"@)
    } else if obj.object_name@.len() == 0 {
        Some(field + ".object_name is required"@)
    } else {
        None
    }
}

/// The first rule that a record breaks, checked in a fixed order, as the
/// message that reports it; `None` when it breaks none.
pub open spec fn cdm_violation(c: CdmRecord) -> Option<Seq<char>> {
    if c.cdm_id@.len() == 0 {
        Some("cdm_id is required"@)
    } else if c.originator@.len() == 0 {
        Some("originator is required"@)
    } else if c.message_for@.len() == 0 {
        Some("message_for is required"@)
    } else if c.miss_distance_m.spec_is_nan() || c.miss_distance_m.spec_lt(Binary64 { bits: 0 }) {
        Some("miss_distance_m must be non-negative"@)
    } else if c.collision_probability.spec_is_nan() || c.collision_probability.spec_lt(
        Binary64 { bits: 0 },
    ) || (Binary64 {
        bits: ONE_BITS,
    }).spec_lt(c.collision_probability) {
        Some("collision_probability must be between 0.0 and 1.0"@)
    } else if object_violation(c.object1, "object1"@) is Some {
        object_violation(c.object1, "object1"@)
    } else if object_violation(c.object2, "object2"@) is Some {
        object_violation(c.object2, "object2"@)
    } else if c.tca.spec_before(c.creation_date) {
        Some("tca must be after creation_date"@)
    } else {
        None
    }
}

/// The domain rules of a CDM: identifying texts present, a miss distance
/// that is a number and not negative, a probability that is a number in
/// [0, 1], both objects
/// identified and named, and closest approach not before creation.
pub open spec fn cdm_valid(c: CdmRecord) -> bool {
    &&& c.cdm_id@.len() > 0
    &&& c.originator@.len() > 0
    &&& c.message_for@.len() > 0
    &&& !c.miss_distance_m.spec_is_nan()
    &&& !c.miss_distance_m.spec_lt(Binary64 { bits: 0 })
    &&& !c.collision_probability.spec_is_nan()
    &&& !c.collision_probability.spec_lt(Binary64 { bits: 0 })
    &&& !(Binary64 { bits: ONE_BITS }).spec_lt(c.collision_probability)
    &&& c.object1.object_id@.len() > 0
    &&& c.object1.object_name@.len() > 0
    &&& c.object2.object_id@.len() > 0
    &&& c.object2.object_name@.len() > 0
    &&& !c.tca.spec_before(c.creation_date)
}

/// Checks that an object is identified and named; `field_name` prefixes the
/// message.
pub fn validate_cdm_object(obj: &CdmObject, field_name: &str) -> (r: Result<(), Error>)
    ensures
        match object_violation(*obj, field_name@) {
            None => r is Ok,
            Some(m) => r matches Err(Error::CdmValidation(s)) && s@ == m,
        },
{
    if obj.object_id.as_str().is_empty() {
        return Err(
            Error::CdmValidation(String::from_str(field_name).concat(".object_id is required")),
        );
    }
    if obj.object_name.as_str().is_empty() {
        return Err(
            Error::CdmValidation(String::from_str(field_name).concat(".object_name is required")),
        );
    }
    Ok(())
}

/// Checks a record against the domain rules, stopping at the first one it
/// breaks.
pub fn validate_cdm(cdm: &CdmRecord) -> (r: Result<(), Error>)
    ensures
        r is Ok <==> cdm_valid(*cdm),
        match cdm_violation(*cdm) {
            None => r is Ok,
            Some(m) => r matches Err(Error::CdmValidation(s)) && s@ == m,
        },
        cdm.collision_probability.spec_lt(Binary64 { bits: 0 }) ==> r is Err,
        (Binary64 { bits: ONE_BITS }).spec_lt(cdm.collision_probability) ==> r is Err,
        cdm.miss_distance_m.spec_lt(Binary64 { bits: 0 }) ==> r is Err,
        cdm.miss_distance_m.spec_is_nan() || cdm.collision_probability.spec_is_nan() ==> r is Err,
        cdm.tca.spec_before(cdm.creation_date) ==> r is Err,
{
    if cdm.cdm_id.as_str().is_empty() {
        return Err(Error::CdmValidation(String::from_str("cdm_id is required")));
    }
    if cdm.originator.as_str().is_empty() {
        return Err(Error::CdmValidation(String::from_str("originator is required")));
    }
    if cdm.message_for.as_str().is_empty() {
        return Err(Error::CdmValidation(String::from_str("message_for is required")));
    }
    let zero = Binary64::zero();
    if cdm.miss_distance_m.is_nan() || cdm.miss_distance_m.lt(&zero) {
        return Err(Error::CdmValidation(String::from_str("miss_distance_m must be non-negative")));
    }
    if cdm.collision_probability.is_nan() || cdm.collision_probability.lt(&zero)
        || Binary64::one().lt(&cdm.collision_probability) {
        return Err(
            Error::CdmValidation(
                String::from_str("collision_probability must be between 0.0 and 1.0"),
            ),
        );
    }
    let first = validate_cdm_object(&cdm.object1, "object1");
    if first.is_err() {
        return first;
    }
    let second = validate_cdm_object(&cdm.object2, "object2");
    if second.is_err() {
        return second;
    }
    if cdm.tca.before(&cdm.creation_date) {
        return Err(Error::CdmValidation(String::from_str("tca must be after creation_date")));
    }
    Ok(())
}

/// Finishes parsing a CDM from what the decoder produced: a decoding failure
/// becomes `Error::Parse` with the decoder's message, a decoded record is
/// validated and returned unchanged when it passes.
pub fn accept_decoded_cdm(decoded: Result<CdmRecord, String>) -> (r: Result<CdmRecord, Error>)
    ensures
        decoded matches Err(m) ==> r == Err::<CdmRecord, Error>(Error::Parse(m)),
        decoded matches Ok(c) ==> (r is Ok <==> cdm_valid(c)),
        decoded matches Ok(c) ==> (cdm_valid(c) ==> r == Ok::<CdmRecord, Error>(c)),
        decoded matches Ok(c) ==> match cdm_violation(c) {
            None => true,
            Some(m) => r matches Err(Error::CdmValidation(s)) && s@ == m,
        },
{
    match decoded {
        Err(m) => Err(Error::Parse(m)),
        Ok(c) => match validate_cdm(&c) {
            Ok(()) => Ok(c),
            Err(e) => Err(e),
        },
    }
}

/// Risk tier for a collision probability: above 1e-3 high, above 1e-5
/// medium, otherwise low.
pub open spec fn category_for(p: Binary64) -> ConjunctionCategory {
    if (Binary64 { bits: HIGH_RISK_BITS }).spec_lt(p) {
        ConjunctionCategory::High
    } else if (Binary64 { bits: MEDIUM_RISK_BITS }).spec_lt(p) {
        ConjunctionCategory::Medium
    } else {
        ConjunctionCategory::Low
    }
}

/// Suggested response for a collision probability: above 1e-4 prepare,
/// otherwise monitor.
pub open spec fn action_for(p: Binary64) -> RecommendedAction {
    if (Binary64 { bits: PREPARE_BITS }).spec_lt(p) {
        RecommendedAction::Prepare
    } else {
        RecommendedAction::Monitor
    }
}

/// Rates a conjunction by its collision probability.
pub fn conjunction_category_for(collision_probability: Binary64) -> (r: ConjunctionCategory)
    ensures
        r == category_for(collision_probability),
{
    if Binary64::from_bits(HIGH_RISK_BITS).lt(&collision_probability) {
        ConjunctionCategory::High
    } else if Binary64::from_bits(MEDIUM_RISK_BITS).lt(&collision_probability) {
        ConjunctionCategory::Medium
    } else {
        ConjunctionCategory::Low
    }
}

/// Suggests an operator response for a collision probability.
pub fn recommended_action_for(collision_probability: Binary64) -> (r: RecommendedAction)
    ensures
        r == action_for(collision_probability),
{
    if Binary64::from_bits(PREPARE_BITS).lt(&collision_probability) {
        RecommendedAction::Prepare
    } else {
        RecommendedAction::Monitor
    }
}

} // verus!
