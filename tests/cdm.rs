use spacecomms::cdm::{
    accept_decoded_cdm, conjunction_category_for, recommended_action_for, validate_cdm_object,
    ConjunctionCategory, RecommendedAction, ScreenType, ScreeningData,
};
use spacecomms::messages::{ObjectType, StateVector};
use spacecomms::{validate_cdm, Binary64, CdmObject, CdmRecord, Error, Timestamp};

fn num(x: f64) -> Binary64 {
    Binary64::from_bits(x.to_bits())
}

fn state(x: f64, y: f64, vy: f64, epoch: Timestamp) -> StateVector {
    StateVector {
        reference_frame: "TEME".to_string(),
        epoch: Some(epoch),
        x_km: num(x),
        y_km: num(y),
        z_km: num(0.0),
        vx_km_s: num(0.0),
        vy_km_s: num(vy),
        vz_km_s: num(0.0),
    }
}

fn create_test_cdm() -> CdmRecord {
    let now = Timestamp::now();
    let tca = Timestamp::new(now.seconds + 2 * 86_400, now.nanos);
    CdmRecord {
        cdm_id: "CDM-TEST-001".to_string(),
        creation_date: now,
        originator: "TEST-PROVIDER".to_string(),
        message_for: "TEST-OPERATOR".to_string(),
        tca,
        miss_distance_m: num(150.0),
        collision_probability: num(1.2e-4),
        object1: CdmObject {
            object_id: "NORAD-12345".to_string(),
            object_name: "SAT-1".to_string(),
            object_type: ObjectType::Payload,
            owner_operator: Some("Operator A".to_string()),
            maneuverable: true,
            state_vector: state(6878.137, 0.0, 7.612, now),
            covariance_rtm: None,
        },
        object2: CdmObject {
            object_id: "NORAD-99999".to_string(),
            object_name: "DEBRIS-1".to_string(),
            object_type: ObjectType::Debris,
            owner_operator: None,
            maneuverable: false,
            state_vector: state(6878.200, 0.050, 7.610, now),
            covariance_rtm: None,
        },
        relative_state: None,
        screening_data: Some(ScreeningData {
            screen_type: ScreenType::Routine,
            screen_volume_shape: Some("ELLIPSOID".to_string()),
            hard_body_radius_m: Some(num(15.0)),
        }),
        data_quality_score: None,
        conjunction_category: None,
        recommended_action: None,
    }
}

fn validation_message(r: Result<(), Error>) -> String {
    match r {
        Err(Error::CdmValidation(m)) => m,
        other => panic!("expected a validation error, got {:?}", other),
    }
}

#[test]
fn test_valid_cdm() {
    let cdm = create_test_cdm();
    assert!(validate_cdm(&cdm).is_ok());
}

#[test]
fn test_missing_cdm_id() {
    let mut cdm = create_test_cdm();
    cdm.cdm_id = String::new();
    assert!(validate_cdm(&cdm).is_err());
}

#[test]
fn test_invalid_collision_probability() {
    let mut cdm = create_test_cdm();
    cdm.collision_probability = num(1.5);
    assert!(validate_cdm(&cdm).is_err());
}

#[test]
fn test_tca_before_creation() {
    let mut cdm = create_test_cdm();
    cdm.tca = Timestamp::new(cdm.creation_date.seconds - 3600, cdm.creation_date.nanos);
    assert!(validate_cdm(&cdm).is_err());
}

#[test]
fn probability_and_distance_bounds() {
    for p in [-1e-9, -0.5, 1.0000001, 2.0, f64::INFINITY, f64::NEG_INFINITY] {
        let mut cdm = create_test_cdm();
        cdm.collision_probability = num(p);
        assert_eq!(
            validation_message(validate_cdm(&cdm)),
            "collision_probability must be between 0.0 and 1.0"
        );
    }
    for p in [0.0, -0.0, 1.0, 0.5, 1e-300] {
        let mut cdm = create_test_cdm();
        cdm.collision_probability = num(p);
        assert!(validate_cdm(&cdm).is_ok(), "{} should pass", p);
    }
    for d in [-0.001, -150.0, f64::NEG_INFINITY] {
        let mut cdm = create_test_cdm();
        cdm.miss_distance_m = num(d);
        assert_eq!(validation_message(validate_cdm(&cdm)), "miss_distance_m must be non-negative");
    }
    let mut cdm = create_test_cdm();
    cdm.miss_distance_m = num(-0.0);
    assert!(validate_cdm(&cdm).is_ok());
}

#[test]
fn tca_equal_to_creation_passes() {
    let mut cdm = create_test_cdm();
    cdm.tca = cdm.creation_date;
    assert!(validate_cdm(&cdm).is_ok());
    cdm.tca = Timestamp::new(cdm.creation_date.seconds, cdm.creation_date.nanos.saturating_sub(1));
    if cdm.creation_date.nanos > 0 {
        assert_eq!(validation_message(validate_cdm(&cdm)), "tca must be after creation_date");
    }
}

#[test]
fn first_broken_rule_is_reported() {
    let mut cdm = create_test_cdm();
    cdm.originator = String::new();
    cdm.collision_probability = num(3.0);
    assert_eq!(validation_message(validate_cdm(&cdm)), "originator is required");

    let mut cdm = create_test_cdm();
    cdm.message_for = String::new();
    assert_eq!(validation_message(validate_cdm(&cdm)), "message_for is required");

    let mut cdm = create_test_cdm();
    cdm.object2.object_name = String::new();
    assert_eq!(validation_message(validate_cdm(&cdm)), "object2.object_name is required");

    let mut cdm = create_test_cdm();
    cdm.object1.object_id = String::new();
    assert_eq!(validation_message(validate_cdm(&cdm)), "object1.object_id is required");
}

#[test]
fn object_check_uses_field_name() {
    let mut obj = create_test_cdm().object1;
    assert!(validate_cdm_object(&obj, "primary").is_ok());
    obj.object_name = String::new();
    assert_eq!(
        validate_cdm_object(&obj, "primary"),
        Err(Error::CdmValidation("primary.object_name is required".to_string()))
    );
}

#[test]
fn decoded_valid_record_comes_back_unchanged() {
    let cdm = create_test_cdm();
    let back = accept_decoded_cdm(Ok(cdm.clone())).unwrap();
    assert_eq!(back.cdm_id, cdm.cdm_id);
    assert_eq!(back.tca, cdm.tca);
    assert_eq!(back.collision_probability, cdm.collision_probability);
}

#[test]
fn malformed_and_invalid_are_different_errors() {
    match accept_decoded_cdm(Err("missing field `tca`".to_string())) {
        Err(Error::Parse(m)) => assert_eq!(m, "missing field `tca`"),
        other => panic!("expected a parse error, got {:?}", other.map(|c| c.cdm_id)),
    }
    let mut cdm = create_test_cdm();
    cdm.cdm_id = String::new();
    let r = accept_decoded_cdm(Ok(cdm));
    assert!(matches!(r, Err(Error::CdmValidation(_))));
    assert!(r.err().unwrap().is_validation());
}

#[test]
fn risk_rating() {
    assert_eq!(conjunction_category_for(num(5e-3)), ConjunctionCategory::High);
    assert_eq!(conjunction_category_for(num(1e-3)), ConjunctionCategory::Medium);
    assert_eq!(conjunction_category_for(num(5e-5)), ConjunctionCategory::Medium);
    assert_eq!(conjunction_category_for(num(1e-5)), ConjunctionCategory::Low);
    assert_eq!(recommended_action_for(num(1.2e-4)), RecommendedAction::Prepare);
    assert_eq!(recommended_action_for(num(1e-4)), RecommendedAction::Monitor);
    assert_eq!(recommended_action_for(num(f64::NAN)), RecommendedAction::Monitor);
}

#[test]
fn binary64_order() {
    assert!(num(-1.0).lt(&num(0.0)));
    assert!(!num(-0.0).lt(&num(0.0)));
    assert!(!num(0.0).lt(&num(-0.0)));
    assert!(num(0.5).lt(&num(1.0)));
    assert!(!num(f64::NAN).lt(&num(1.0)));
    assert!(!num(1.0).lt(&num(f64::NAN)));
    assert!(num(f64::NEG_INFINITY).lt(&num(-1e308)));
    assert!(num(f64::NAN).is_nan());
}

#[test]
fn error_messages() {
    let e = Error::NotFound("CDM not found: X".to_string());
    assert!(e.is_not_found());
    assert!(!e.is_validation());
    assert_eq!(e.message(), "Not found: CDM not found: X");
    assert_eq!(Error::CdmValidation("bad".to_string()).message(), "CDM validation error: bad");
}

#[test]
fn test_large_cdm_handled() {
    let mut cdm = create_test_cdm();
    cdm.cdm_id = "C".repeat(100_000);
    cdm.object1.object_name = "N".repeat(10_000);
    assert!(validate_cdm(&cdm).is_ok());
}

#[test]
fn nan_measurements_are_refused() {
    let mut cdm = create_test_cdm();
    cdm.miss_distance_m = num(f64::NAN);
    assert_eq!(validation_message(validate_cdm(&cdm)), "miss_distance_m must be non-negative");
    let mut cdm = create_test_cdm();
    cdm.collision_probability = num(f64::NAN);
    assert_eq!(
        validation_message(validate_cdm(&cdm)),
        "collision_probability must be between 0.0 and 1.0"
    );
    let mut cdm = create_test_cdm();
    cdm.collision_probability = Binary64::from_bits(0xFFF8_0000_0000_0001);
    assert!(validate_cdm(&cdm).is_err());
}
