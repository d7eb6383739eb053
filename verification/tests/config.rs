//! Tests of the textual configuration: reading records, the errors that name
//! offending fields, and round trips through write-then-read.

use fht_animation::config::{
    curve_config, parse_cubic, parse_curve, parse_spring, ConfigError, ConfigValue, CurveConfig,
    CurveParams, Field,
};
use fht_animation::curve::cubic::{self, ControlPoint};
use fht_animation::curve::spring;
use fht_animation::Easing;

fn num(v: f64) -> ConfigValue {
    ConfigValue::Number(v.to_bits())
}

fn spring_entries() -> Vec<(String, ConfigValue)> {
    vec![
        ("initial-velocity".to_string(), num(0.5)),
        ("clamp".to_string(), ConfigValue::Boolean(true)),
        ("mass".to_string(), num(1.5)),
        ("damping-ratio".to_string(), num(0.3)),
        ("stiffness".to_string(), num(100.0)),
    ]
}

#[test]
fn spring_record_reads_all_fields() {
    let parsed = parse_spring(&spring_entries()).expect("well-formed spring record");
    assert_eq!(parsed.initial_velocity, 0.5f64.to_bits());
    assert!(parsed.clamp);
    assert_eq!(parsed.mass, 1.5f64.to_bits());
    assert_eq!(parsed.damping_ratio, 0.3f64.to_bits());
    assert_eq!(parsed.stiffness, 100.0f64.to_bits());
}

#[test]
fn spring_epsilon_defaults_to_the_documented_tolerance() {
    let parsed = parse_spring(&spring_entries()).unwrap();
    assert_eq!(parsed.epsilon, 0.0001f64.to_bits());
    assert_eq!(parsed.epsilon, spring::DEFAULT_EPSILON);

    let mut with_epsilon = spring_entries();
    with_epsilon.push(("epsilon".to_string(), num(1e-6)));
    let parsed = parse_spring(&with_epsilon).unwrap();
    assert_eq!(parsed.epsilon, 1e-6f64.to_bits());
}

#[test]
fn duplicate_spring_field_is_an_error() {
    let mut entries = spring_entries();
    entries.push(("mass".to_string(), num(2.0)));
    assert_eq!(parse_spring(&entries), Err(ConfigError::DuplicateField(Field::Mass)));
}

#[test]
fn missing_spring_field_is_an_error() {
    let entries: Vec<(String, ConfigValue)> = spring_entries()
        .into_iter()
        .filter(|(k, _)| k != "clamp")
        .collect();
    assert_eq!(parse_spring(&entries), Err(ConfigError::MissingField(Field::Clamp)));
    let empty: Vec<(String, ConfigValue)> = Vec::new();
    assert_eq!(
        parse_spring(&empty),
        Err(ConfigError::MissingField(Field::InitialVelocity))
    );
}

#[test]
fn wrong_spring_value_type_is_an_error() {
    let mut entries = spring_entries();
    entries[1] = ("clamp".to_string(), num(1.0));
    assert_eq!(parse_spring(&entries), Err(ConfigError::WrongType(Field::Clamp)));
}

#[test]
fn unknown_spring_key_is_an_error() {
    let mut entries = spring_entries();
    entries.push(("p1".to_string(), num(0.0)));
    assert_eq!(parse_spring(&entries), Err(ConfigError::UnknownField));
}

#[test]
fn error_messages_name_the_field() {
    let e = ConfigError::DuplicateField(Field::Mass);
    assert_eq!(e.message(), "duplicate field mass");
    let e = ConfigError::MissingField(Field::DampingRatio);
    assert_eq!(e.message(), "missing field damping-ratio");
    let e = ConfigError::WrongType(Field::P1);
    assert_eq!(e.message(), "wrong type for field p1");
}

#[test]
fn cubic_record_reads_both_points() {
    let entries = vec![
        ("p1".to_string(), ConfigValue::Pair(0.25f64.to_bits(), 0.1f64.to_bits())),
        ("p2".to_string(), ConfigValue::Pair(0.25f64.to_bits(), 1.0f64.to_bits())),
    ];
    let curve = parse_cubic(&entries).expect("well-formed cubic record");
    assert_eq!(curve.p1, ControlPoint { x: 0.25f64.to_bits(), y: 0.1f64.to_bits() });
    assert_eq!(curve.p2, ControlPoint { x: 0.25f64.to_bits(), y: 1.0f64.to_bits() });
}

#[test]
fn cubic_record_rejects_duplicates_and_gaps() {
    let twice = vec![
        ("p1".to_string(), ConfigValue::Pair(0, 0)),
        ("p1".to_string(), ConfigValue::Pair(1, 1)),
    ];
    assert_eq!(parse_cubic(&twice), Err(ConfigError::DuplicateField(Field::P1)));

    let only_p1 = vec![("p1".to_string(), ConfigValue::Pair(0, 0))];
    assert_eq!(parse_cubic(&only_p1), Err(ConfigError::MissingField(Field::P2)));

    let wrong = vec![
        ("p1".to_string(), num(0.25)),
        ("p2".to_string(), ConfigValue::Pair(0, 0)),
    ];
    assert_eq!(parse_cubic(&wrong), Err(ConfigError::WrongType(Field::P1)));
}

#[test]
fn curve_documents_are_discriminated_by_shape() {
    let simple = parse_curve(&CurveConfig::Text("ease-in-out".to_string()));
    assert_eq!(simple, Ok(CurveParams::Simple(Easing::EaseInOut)));

    let unknown = parse_curve(&CurveConfig::Text("bounce".to_string()));
    assert_eq!(unknown, Err(ConfigError::UnknownEasing));

    let spring = parse_curve(&CurveConfig::Entries(spring_entries()));
    assert!(matches!(spring, Ok(CurveParams::Spring(_))));

    let cubic_entries = vec![
        ("p1".to_string(), ConfigValue::Pair(0, 0)),
        ("p2".to_string(), ConfigValue::Pair(0, 0)),
    ];
    let cubic = parse_curve(&CurveConfig::Entries(cubic_entries));
    assert!(matches!(cubic, Ok(CurveParams::Cubic(_))));

    let neither = vec![("granularity".to_string(), num(1.0))];
    assert_eq!(
        parse_curve(&CurveConfig::Entries(neither)),
        Err(ConfigError::NoVariant)
    );
}

#[test]
fn simple_curve_round_trips() {
    let params = CurveParams::Simple(Easing::EaseOutElastic);
    assert_eq!(parse_curve(&curve_config(&params)), Ok(params));
}

#[test]
fn spring_curve_round_trips() {
    let params = CurveParams::Spring(spring::Params {
        initial_velocity: (-2.5f64).to_bits(),
        clamp: true,
        mass: 1.25f64.to_bits(),
        damping_ratio: 0.875f64.to_bits(),
        stiffness: 123.456f64.to_bits(),
        epsilon: 1e-5f64.to_bits(),
    });
    assert_eq!(parse_curve(&curve_config(&params)), Ok(params));
}

#[test]
fn cubic_curve_round_trips() {
    let params = CurveParams::Cubic(cubic::Curve {
        p1: ControlPoint { x: 0.17f64.to_bits(), y: 0.67f64.to_bits() },
        p2: ControlPoint { x: 0.83f64.to_bits(), y: 0.67f64.to_bits() },
    });
    assert_eq!(parse_curve(&curve_config(&params)), Ok(params));
}

#[test]
fn every_easing_round_trips_as_a_document() {
    let all = [
        Easing::EaseIn,
        Easing::EaseInOutCubic,
        Easing::EaseOutSine,
        Easing::EaseInOutBounce,
        Easing::Linear,
    ];
    for e in all {
        let params = CurveParams::Simple(e);
        let config = curve_config(&params);
        match &config {
            CurveConfig::Text(name) => assert_eq!(Easing::from_name(name), Some(e)),
            CurveConfig::Entries(_) => panic!("easings are written as bare names"),
        }
        assert_eq!(parse_curve(&config), Ok(params));
    }
}
