//! Textual configuration of curves.
//!
//! A curve can be read from and written to a structured key/value form: a
//! bare string names an easing preset, a map carries the fields of a spring
//! or of a cubic curve. Which record a map holds is decided by its fields —
//! a spring is tried first, then a cubic. Within a record every field may
//! appear at most once, the spring's `epsilon` is optional with a default,
//! and every other field is required; violations are reported as errors that
//! name the offending field.
//!
//! This module owns the whole decision: given the key/value entries, it
//! validates them and produces the parameter set, and it lays a parameter
//! set back out as entries. Reading back what was written is proved to
//! recover the parameters exactly. Turning bytes of a concrete format into
//! entries (and numbers into their 64-bit representations) is the host's
//! side of the bargain.

use vstd::prelude::*;
use vstd::string::StringExecFns;

use crate::curve::cubic;
use crate::curve::spring;
use crate::curve::{easing_name, easing_of_name, str_eq, Easing};

verus! {

/// A primitive value in a configuration map: a number carried as the 64-bit
/// representation of a double, a boolean, or a pair of numbers.
#[derive(Debug, Clone, Copy, PartialEq, Eq, Structural)]
pub enum ConfigValue {
    /// A number, as the 64-bit representation of a double.
    Number(u64),
    /// A boolean.
    Boolean(bool),
    /// A pair of numbers, such as a control point.
    Pair(u64, u64),
}

/// One curve as the configuration format carries it: an easing preset, the
/// serialisable spring record, or the two control points of a cubic curve.
#[derive(Debug, Clone, Copy, PartialEq, Eq, Structural)]
pub enum CurveParams {
    /// A preset easing function.
    Simple(Easing),
    /// A spring, with its damping given as a ratio.
    Spring(spring::Params),
    /// A cubic Bézier curve.
    Cubic(cubic::Curve),
}

/// A configuration document for one curve: a bare name or a key/value map,
/// with the entries in document order.
#[derive(Debug)]
pub enum CurveConfig {
    /// A bare string naming an easing preset.
    Text(String),
    /// A key/value map.
    Entries(Vec<(String, ConfigValue)>),
}

/// The mathematical content of a [`CurveConfig`]: keys as character
/// sequences.
pub enum ConfigView {
    /// A bare name.
    Text(Seq<char>),
    /// Key/value entries in document order.
    Entries(Seq<(Seq<char>, ConfigValue)>),
}

/// The entries of a map with every key taken to its character sequence.
pub open spec fn entries_view(pairs: Seq<(String, ConfigValue)>) -> Seq<(Seq<char>, ConfigValue)> {
    pairs.map_values(|p: (String, ConfigValue)| (p.0@, p.1))
}

impl View for CurveConfig {
    type V = ConfigView;

    open spec fn view(&self) -> ConfigView {
        match self {
            CurveConfig::Text(s) => ConfigView::Text(s@),
            CurveConfig::Entries(m) => ConfigView::Entries(entries_view(m@)),
        }
    }
}

/// A field of one of the configuration records.
#[derive(Debug, Clone, Copy, PartialEq, Eq, Structural)]
pub enum Field {
    /// The spring's initial velocity.
    InitialVelocity,
    /// The spring's clamp flag.
    Clamp,
    /// The spring's mass.
    Mass,
    /// The spring's damping ratio.
    DampingRatio,
    /// The spring's stiffness.
    Stiffness,
    /// The spring's settling tolerance.
    Epsilon,
    /// The cubic curve's first control point.
    P1,
    /// The cubic curve's second control point.
    P2,
}

/// The key under which a field appears in a configuration map.
pub open spec fn field_name(f: Field) -> Seq<char> {
    match f {
        Field::InitialVelocity => "initial-velocity"@,
        Field::Clamp => "clamp"@,
        Field::Mass => "mass"@,
        Field::DampingRatio => "damping-ratio"@,
        Field::Stiffness => "stiffness"@,
        Field::Epsilon => "epsilon"@,
        Field::P1 => "p1"@,
        Field::P2 => "p2"@,
    }
}

impl Field {
    /// The key under which this field appears in a configuration map.
    pub fn name(&self) -> (r: String)
        ensures
            r@ == field_name(*self),
    {
        match self {
            Field::InitialVelocity => "initial-velocity".to_owned(),
            Field::Clamp => "clamp".to_owned(),
            Field::Mass => "mass".to_owned(),
            Field::DampingRatio => "damping-ratio".to_owned(),
            Field::Stiffness => "stiffness".to_owned(),
            Field::Epsilon => "epsilon".to_owned(),
            Field::P1 => "p1".to_owned(),
            Field::P2 => "p2".to_owned(),
        }
    }
}

/// Why a configuration was rejected.
#[derive(Debug, Clone, Copy, PartialEq, Eq, Structural)]
pub enum ConfigError {
    /// A bare name does not denote an easing preset.
    UnknownEasing,
    /// A key is not a field of the record being read.
    UnknownField,
    /// A field appears more than once.
    DuplicateField(Field),
    /// A required field is absent.
    MissingField(Field),
    /// A field's value has the wrong type.
    WrongType(Field),
    /// A map matches neither the spring record nor the cubic record.
    NoVariant,
}

/// The description of an error, naming the offending field.
pub open spec fn error_message(e: ConfigError) -> Seq<char> {
    match e {
        ConfigError::UnknownEasing => "unknown easing name"@,
        ConfigError::UnknownField => "unknown field"@,
        ConfigError::DuplicateField(f) => "duplicate field "@ + field_name(f),
        ConfigError::MissingField(f) => "missing field "@ + field_name(f),
        ConfigError::WrongType(f) => "wrong type for field "@ + field_name(f),
        ConfigError::NoVariant => "data matches no curve variant"@,
    }
}

impl ConfigError {
    /// A description of the error, naming the offending field.
    pub fn message(&self) -> (r: String)
        ensures
            r@ == error_message(*self),
    {
        match self {
            ConfigError::UnknownEasing => "unknown easing name".to_owned(),
            ConfigError::UnknownField => "unknown field".to_owned(),
            ConfigError::DuplicateField(f) => {
                let n: String = f.name();
                "duplicate field ".to_owned().concat(n.as_str())
            },
            ConfigError::MissingField(f) => {
                let n: String = f.name();
                "missing field ".to_owned().concat(n.as_str())
            },
            ConfigError::WrongType(f) => {
                let n: String = f.name();
                "wrong type for field ".to_owned().concat(n.as_str())
            },
            ConfigError::NoVariant => "data matches no curve variant".to_owned(),
        }
    }
}

/// The spring field a key denotes, if any.
pub open spec fn spring_field_of(key: Seq<char>) -> Option<Field> {
    if key == "initial-velocity"@ {
        Some(Field::InitialVelocity)
    } else if key == "clamp"@ {
        Some(Field::Clamp)
    } else if key == "mass"@ {
        Some(Field::Mass)
    } else if key == "damping-ratio"@ {
        Some(Field::DampingRatio)
    } else if key == "stiffness"@ {
        Some(Field::Stiffness)
    } else if key == "epsilon"@ {
        Some(Field::Epsilon)
    } else {
        None
    }
}

/// The cubic field a key denotes, if any.
pub open spec fn cubic_field_of(key: Seq<char>) -> Option<Field> {
    if key == "p1"@ {
        Some(Field::P1)
    } else if key == "p2"@ {
        Some(Field::P2)
    } else {
        None
    }
}

fn spring_field_key(key: &String) -> (r: Option<Field>)
    ensures
        r == spring_field_of(key@),
{
    if str_eq(key.as_str(), "initial-velocity") {
        Some(Field::InitialVelocity)
    } else if str_eq(key.as_str(), "clamp") {
        Some(Field::Clamp)
    } else if str_eq(key.as_str(), "mass") {
        Some(Field::Mass)
    } else if str_eq(key.as_str(), "damping-ratio") {
        Some(Field::DampingRatio)
    } else if str_eq(key.as_str(), "stiffness") {
        Some(Field::Stiffness)
    } else if str_eq(key.as_str(), "epsilon") {
        Some(Field::Epsilon)
    } else {
        None
    }
}

fn cubic_field_key(key: &String) -> (r: Option<Field>)
    ensures
        r == cubic_field_of(key@),
{
    if str_eq(key.as_str(), "p1") {
        Some(Field::P1)
    } else if str_eq(key.as_str(), "p2") {
        Some(Field::P2)
    } else {
        None
    }
}

/// The spring fields collected so far while reading a map.
#[derive(Debug, Clone, Copy)]
pub struct SpringPartial {
    /// Value of `initial-velocity`, when seen.
    pub initial_velocity: Option<u64>,
    /// Value of `clamp`, when seen.
    pub clamp: Option<bool>,
    /// Value of `mass`, when seen.
    pub mass: Option<u64>,
    /// Value of `damping-ratio`, when seen.
    pub damping_ratio: Option<u64>,
    /// Value of `stiffness`, when seen.
    pub stiffness: Option<u64>,
    /// Value of `epsilon`, when seen.
    pub epsilon: Option<u64>,
}

/// No spring field seen yet.
pub open spec fn spring_partial_empty() -> SpringPartial {
    SpringPartial {
        initial_velocity: None,
        clamp: None,
        mass: None,
        damping_ratio: None,
        stiffness: None,
        epsilon: None,
    }
}

/// Fold one map entry into the spring fields collected so far: the key must
/// be a spring field not yet seen, and the value must have the field's type.
pub open spec fn spring_step(acc: SpringPartial, key: Seq<char>, value: ConfigValue) -> Result<
    SpringPartial,
    ConfigError,
> {
    match spring_field_of(key) {
        None => Err(ConfigError::UnknownField),
        Some(Field::InitialVelocity) => if acc.initial_velocity is Some {
            Err(ConfigError::DuplicateField(Field::InitialVelocity))
        } else {
            match value {
                ConfigValue::Number(b) => Ok(SpringPartial { initial_velocity: Some(b), ..acc }),
                _ => Err(ConfigError::WrongType(Field::InitialVelocity)),
            }
        },
        Some(Field::Clamp) => if acc.clamp is Some {
            Err(ConfigError::DuplicateField(Field::Clamp))
        } else {
            match value {
                ConfigValue::Boolean(b) => Ok(SpringPartial { clamp: Some(b), ..acc }),
                _ => Err(ConfigError::WrongType(Field::Clamp)),
            }
        },
        Some(Field::Mass) => if acc.mass is Some {
            Err(ConfigError::DuplicateField(Field::Mass))
        } else {
            match value {
                ConfigValue::Number(b) => Ok(SpringPartial { mass: Some(b), ..acc }),
                _ => Err(ConfigError::WrongType(Field::Mass)),
            }
        },
        Some(Field::DampingRatio) => if acc.damping_ratio is Some {
            Err(ConfigError::DuplicateField(Field::DampingRatio))
        } else {
            match value {
                ConfigValue::Number(b) => Ok(SpringPartial { damping_ratio: Some(b), ..acc }),
                _ => Err(ConfigError::WrongType(Field::DampingRatio)),
            }
        },
        Some(Field::Stiffness) => if acc.stiffness is Some {
            Err(ConfigError::DuplicateField(Field::Stiffness))
        } else {
            match value {
                ConfigValue::Number(b) => Ok(SpringPartial { stiffness: Some(b), ..acc }),
                _ => Err(ConfigError::WrongType(Field::Stiffness)),
            }
        },
        Some(Field::Epsilon) => if acc.epsilon is Some {
            Err(ConfigError::DuplicateField(Field::Epsilon))
        } else {
            match value {
                ConfigValue::Number(b) => Ok(SpringPartial { epsilon: Some(b), ..acc }),
                _ => Err(ConfigError::WrongType(Field::Epsilon)),
            }
        },
        Some(_) => Err(ConfigError::UnknownField),
    }
}

/// Fold the entries from position `i` on into the spring fields collected so
/// far, stopping at the first offending entry.
pub open spec fn spring_scan(
    entries: Seq<(Seq<char>, ConfigValue)>,
    i: int,
    acc: SpringPartial,
) -> Result<SpringPartial, ConfigError>
    decreases entries.len() - i,
{
    if i < 0 || i >= entries.len() {
        Ok(acc)
    } else {
        match spring_step(acc, entries[i].0, entries[i].1) {
            Err(e) => Err(e),
            Ok(next) => spring_scan(entries, i + 1, next),
        }
    }
}

/// What reading a spring record from the entries yields: the record, or the
/// first error — an offending entry, or the first required field that is
/// absent, in the record's field order. `epsilon` alone may be absent; it
/// defaults.
pub open spec fn spec_parse_spring(entries: Seq<(Seq<char>, ConfigValue)>) -> Result<
    spring::Params,
    ConfigError,
> {
    match spring_scan(entries, 0, spring_partial_empty()) {
        Err(e) => Err(e),
        Ok(acc) => if acc.initial_velocity is None {
            Err(ConfigError::MissingField(Field::InitialVelocity))
        } else if acc.clamp is None {
            Err(ConfigError::MissingField(Field::Clamp))
        } else if acc.mass is None {
            Err(ConfigError::MissingField(Field::Mass))
        } else if acc.damping_ratio is None {
            Err(ConfigError::MissingField(Field::DampingRatio))
        } else if acc.stiffness is None {
            Err(ConfigError::MissingField(Field::Stiffness))
        } else {
            Ok(
                spring::Params {
                    initial_velocity: acc.initial_velocity.unwrap(),
                    clamp: acc.clamp.unwrap(),
                    mass: acc.mass.unwrap(),
                    damping_ratio: acc.damping_ratio.unwrap(),
                    stiffness: acc.stiffness.unwrap(),
                    epsilon: if acc.epsilon is Some {
                        acc.epsilon.unwrap()
                    } else {
                        spring::DEFAULT_EPSILON
                    },
                },
            )
        },
    }
}

/// Read a spring record from map entries.
///
/// Succeeds exactly when every key is a spring field, no field repeats,
/// every value has its field's type, and the five required fields are all
/// present; the error otherwise names the first offence in document order,
/// with absent fields reported in the record's field order.
pub fn parse_spring(pairs: &Vec<(String, ConfigValue)>) -> (r: Result<spring::Params, ConfigError>)
    ensures
        r == spec_parse_spring(entries_view(pairs@)),
{
    let ghost entries = entries_view(pairs@);
    let mut acc = SpringPartial {
        initial_velocity: None,
        clamp: None,
        mass: None,
        damping_ratio: None,
        stiffness: None,
        epsilon: None,
    };
    let mut i: usize = 0;
    while i < pairs.len()
        invariant
            entries == entries_view(pairs@),
            entries.len() == pairs@.len(),
            i <= pairs@.len(),
            spring_scan(entries, 0, spring_partial_empty()) == spring_scan(entries, i as int, acc),
        decreases pairs@.len() - i,
    {
        proof {
            assert(entries[i as int] == (pairs@[i as int].0@, pairs@[i as int].1));
        }
        let key: &String = &pairs[i].0;
        let value: ConfigValue = pairs[i].1;
        let step: Result<SpringPartial, ConfigError> = match spring_field_key(key) {
            None => Err(ConfigError::UnknownField),
            Some(Field::InitialVelocity) => if acc.initial_velocity.is_some() {
                Err(ConfigError::DuplicateField(Field::InitialVelocity))
            } else {
                match value {
                    ConfigValue::Number(b) => Ok(
                        SpringPartial { initial_velocity: Some(b), ..acc },
                    ),
                    _ => Err(ConfigError::WrongType(Field::InitialVelocity)),
                }
            },
            Some(Field::Clamp) => if acc.clamp.is_some() {
                Err(ConfigError::DuplicateField(Field::Clamp))
            } else {
                match value {
                    ConfigValue::Boolean(b) => Ok(SpringPartial { clamp: Some(b), ..acc }),
                    _ => Err(ConfigError::WrongType(Field::Clamp)),
                }
            },
            Some(Field::Mass) => if acc.mass.is_some() {
                Err(ConfigError::DuplicateField(Field::Mass))
            } else {
                match value {
                    ConfigValue::Number(b) => Ok(SpringPartial { mass: Some(b), ..acc }),
                    _ => Err(ConfigError::WrongType(Field::Mass)),
                }
            },
            Some(Field::DampingRatio) => if acc.damping_ratio.is_some() {
                Err(ConfigError::DuplicateField(Field::DampingRatio))
            } else {
                match value {
                    ConfigValue::Number(b) => Ok(SpringPartial { damping_ratio: Some(b), ..acc }),
                    _ => Err(ConfigError::WrongType(Field::DampingRatio)),
                }
            },
            Some(Field::Stiffness) => if acc.stiffness.is_some() {
                Err(ConfigError::DuplicateField(Field::Stiffness))
            } else {
                match value {
                    ConfigValue::Number(b) => Ok(SpringPartial { stiffness: Some(b), ..acc }),
                    _ => Err(ConfigError::WrongType(Field::Stiffness)),
                }
            },
            Some(Field::Epsilon) => if acc.epsilon.is_some() {
                Err(ConfigError::DuplicateField(Field::Epsilon))
            } else {
                match value {
                    ConfigValue::Number(b) => Ok(SpringPartial { epsilon: Some(b), ..acc }),
                    _ => Err(ConfigError::WrongType(Field::Epsilon)),
                }
            },
            Some(_) => Err(ConfigError::UnknownField),
        };
        match step {
            Err(e) => {
                return Err(e);
            },
            Ok(next) => {
                acc = next;
            },
        }
        i = i + 1;
    }
    if acc.initial_velocity.is_none() {
        return Err(ConfigError::MissingField(Field::InitialVelocity));
    }
    if acc.clamp.is_none() {
        return Err(ConfigError::MissingField(Field::Clamp));
    }
    if acc.mass.is_none() {
        return Err(ConfigError::MissingField(Field::Mass));
    }
    if acc.damping_ratio.is_none() {
        return Err(ConfigError::MissingField(Field::DampingRatio));
    }
    if acc.stiffness.is_none() {
        return Err(ConfigError::MissingField(Field::Stiffness));
    }
    Ok(
        spring::Params {
            initial_velocity: acc.initial_velocity.unwrap(),
            clamp: acc.clamp.unwrap(),
            mass: acc.mass.unwrap(),
            damping_ratio: acc.damping_ratio.unwrap(),
            stiffness: acc.stiffness.unwrap(),
            epsilon: match acc.epsilon {
                Some(b) => b,
                None => spring::DEFAULT_EPSILON,
            },
        },
    )
}

/// The cubic fields collected so far while reading a map.
#[derive(Debug, Clone, Copy)]
pub struct CubicPartial {
    /// Value of `p1`, when seen.
    pub p1: Option<cubic::ControlPoint>,
    /// Value of `p2`, when seen.
    pub p2: Option<cubic::ControlPoint>,
}

/// No cubic field seen yet.
pub open spec fn cubic_partial_empty() -> CubicPartial {
    CubicPartial { p1: None, p2: None }
}

/// Fold one map entry into the cubic fields collected so far.
pub open spec fn cubic_step(acc: CubicPartial, key: Seq<char>, value: ConfigValue) -> Result<
    CubicPartial,
    ConfigError,
> {
    match cubic_field_of(key) {
        None => Err(ConfigError::UnknownField),
        Some(Field::P1) => if acc.p1 is Some {
            Err(ConfigError::DuplicateField(Field::P1))
        } else {
            match value {
                ConfigValue::Pair(x, y) => Ok(
                    CubicPartial { p1: Some(cubic::ControlPoint { x, y }), ..acc },
                ),
                _ => Err(ConfigError::WrongType(Field::P1)),
            }
        },
        Some(Field::P2) => if acc.p2 is Some {
            Err(ConfigError::DuplicateField(Field::P2))
        } else {
            match value {
                ConfigValue::Pair(x, y) => Ok(
                    CubicPartial { p2: Some(cubic::ControlPoint { x, y }), ..acc },
                ),
                _ => Err(ConfigError::WrongType(Field::P2)),
            }
        },
        Some(_) => Err(ConfigError::UnknownField),
    }
}

/// Fold the entries from position `i` on into the cubic fields collected so
/// far, stopping at the first offending entry.
pub open spec fn cubic_scan(
    entries: Seq<(Seq<char>, ConfigValue)>,
    i: int,
    acc: CubicPartial,
) -> Result<CubicPartial, ConfigError>
    decreases entries.len() - i,
{
    if i < 0 || i >= entries.len() {
        Ok(acc)
    } else {
        match cubic_step(acc, entries[i].0, entries[i].1) {
            Err(e) => Err(e),
            Ok(next) => cubic_scan(entries, i + 1, next),
        }
    }
}

/// What reading a cubic record from the entries yields: both control points,
/// or the first error.
pub open spec fn spec_parse_cubic(entries: Seq<(Seq<char>, ConfigValue)>) -> Result<
    cubic::Curve,
    ConfigError,
> {
    match cubic_scan(entries, 0, cubic_partial_empty()) {
        Err(e) => Err(e),
        Ok(acc) => if acc.p1 is None {
            Err(ConfigError::MissingField(Field::P1))
        } else if acc.p2 is None {
            Err(ConfigError::MissingField(Field::P2))
        } else {
            Ok(cubic::Curve { p1: acc.p1.unwrap(), p2: acc.p2.unwrap() })
        },
    }
}

/// Read a cubic record from map entries.
///
/// Succeeds exactly when the keys are `p1` and `p2`, each exactly once, each
/// with a pair value; the error otherwise names the first offence in
/// document order, with absent fields reported in the order `p1`, `p2`.
pub fn parse_cubic(pairs: &Vec<(String, ConfigValue)>) -> (r: Result<cubic::Curve, ConfigError>)
    ensures
        r == spec_parse_cubic(entries_view(pairs@)),
{
    let ghost entries = entries_view(pairs@);
    let mut acc = CubicPartial { p1: None, p2: None };
    let mut i: usize = 0;
    while i < pairs.len()
        invariant
            entries == entries_view(pairs@),
            entries.len() == pairs@.len(),
            i <= pairs@.len(),
            cubic_scan(entries, 0, cubic_partial_empty()) == cubic_scan(entries, i as int, acc),
        decreases pairs@.len() - i,
    {
        proof {
            assert(entries[i as int] == (pairs@[i as int].0@, pairs@[i as int].1));
        }
        let key: &String = &pairs[i].0;
        let value: ConfigValue = pairs[i].1;
        let step: Result<CubicPartial, ConfigError> = match cubic_field_key(key) {
            None => Err(ConfigError::UnknownField),
            Some(Field::P1) => if acc.p1.is_some() {
                Err(ConfigError::DuplicateField(Field::P1))
            } else {
                match value {
                    ConfigValue::Pair(x, y) => Ok(
                        CubicPartial { p1: Some(cubic::ControlPoint { x, y }), ..acc },
                    ),
                    _ => Err(ConfigError::WrongType(Field::P1)),
                }
            },
            Some(Field::P2) => if acc.p2.is_some() {
                Err(ConfigError::DuplicateField(Field::P2))
            } else {
                match value {
                    ConfigValue::Pair(x, y) => Ok(
                        CubicPartial { p2: Some(cubic::ControlPoint { x, y }), ..acc },
                    ),
                    _ => Err(ConfigError::WrongType(Field::P2)),
                }
            },
            Some(_) => Err(ConfigError::UnknownField),
        };
        match step {
            Err(e) => {
                return Err(e);
            },
            Ok(next) => {
                acc = next;
            },
        }
        i = i + 1;
    }
    if acc.p1.is_none() {
        return Err(ConfigError::MissingField(Field::P1));
    }
    if acc.p2.is_none() {
        return Err(ConfigError::MissingField(Field::P2));
    }
    let p1: cubic::ControlPoint = acc.p1.unwrap();
    let p2: cubic::ControlPoint = acc.p2.unwrap();
    Ok(cubic::Curve { p1, p2 })
}

/// What reading a whole curve configuration yields. A bare name must denote
/// an easing preset. A map is read as a spring record first and as a cubic
/// record otherwise; when neither fits, the document matches no variant.
pub open spec fn spec_parse_curve(cfg: ConfigView) -> Result<CurveParams, ConfigError> {
    match cfg {
        ConfigView::Text(s) => match easing_of_name(s) {
            Some(e) => Ok(CurveParams::Simple(e)),
            None => Err(ConfigError::UnknownEasing),
        },
        ConfigView::Entries(entries) => match spec_parse_spring(entries) {
            Ok(p) => Ok(CurveParams::Spring(p)),
            Err(_) => match spec_parse_cubic(entries) {
                Ok(c) => Ok(CurveParams::Cubic(c)),
                Err(_) => Err(ConfigError::NoVariant),
            },
        },
    }
}

/// Read a curve configuration: a bare easing name, a spring record, or a
/// cubic record.
pub fn parse_curve(cfg: &CurveConfig) -> (r: Result<CurveParams, ConfigError>)
    ensures
        r == spec_parse_curve(cfg@),
{
    match cfg {
        CurveConfig::Text(s) => match Easing::from_name(s.as_str()) {
            Some(e) => Ok(CurveParams::Simple(e)),
            None => Err(ConfigError::UnknownEasing),
        },
        CurveConfig::Entries(pairs) => match parse_spring(pairs) {
            Ok(p) => Ok(CurveParams::Spring(p)),
            Err(_) => match parse_cubic(pairs) {
                Ok(c) => Ok(CurveParams::Cubic(c)),
                Err(_) => Err(ConfigError::NoVariant),
            },
        },
    }
}

/// The entries a spring record is written as: every field under its key, in
/// the record's field order, the damping as a ratio.
pub open spec fn spring_entries(p: spring::Params) -> Seq<(Seq<char>, ConfigValue)> {
    seq![
        (field_name(Field::InitialVelocity), ConfigValue::Number(p.initial_velocity)),
        (field_name(Field::Clamp), ConfigValue::Boolean(p.clamp)),
        (field_name(Field::Mass), ConfigValue::Number(p.mass)),
        (field_name(Field::DampingRatio), ConfigValue::Number(p.damping_ratio)),
        (field_name(Field::Stiffness), ConfigValue::Number(p.stiffness)),
        (field_name(Field::Epsilon), ConfigValue::Number(p.epsilon)),
    ]
}

/// The entries a cubic record is written as: its two control points.
pub open spec fn cubic_entries(c: cubic::Curve) -> Seq<(Seq<char>, ConfigValue)> {
    seq![
        (field_name(Field::P1), ConfigValue::Pair(c.p1.x, c.p1.y)),
        (field_name(Field::P2), ConfigValue::Pair(c.p2.x, c.p2.y)),
    ]
}

/// The configuration a curve is written as: the easing's bare name, or the
/// record's entries.
pub open spec fn spec_curve_config(params: CurveParams) -> ConfigView {
    match params {
        CurveParams::Simple(e) => ConfigView::Text(easing_name(e)),
        CurveParams::Spring(p) => ConfigView::Entries(spring_entries(p)),
        CurveParams::Cubic(c) => ConfigView::Entries(cubic_entries(c)),
    }
}

/// Write a curve as a configuration document. Baked tables are never
/// written: a cubic curve is written as its two control points alone.
pub fn curve_config(params: &CurveParams) -> (r: CurveConfig)
    ensures
        r@ == spec_curve_config(*params),
{
    match params {
        CurveParams::Simple(e) => CurveConfig::Text(e.name()),
        CurveParams::Spring(p) => {
            let mut entries: Vec<(String, ConfigValue)> = Vec::new();
            entries.push((Field::InitialVelocity.name(), ConfigValue::Number(p.initial_velocity)));
            entries.push((Field::Clamp.name(), ConfigValue::Boolean(p.clamp)));
            entries.push((Field::Mass.name(), ConfigValue::Number(p.mass)));
            entries.push((Field::DampingRatio.name(), ConfigValue::Number(p.damping_ratio)));
            entries.push((Field::Stiffness.name(), ConfigValue::Number(p.stiffness)));
            entries.push((Field::Epsilon.name(), ConfigValue::Number(p.epsilon)));
            proof {
                assert(entries_view(entries@) =~= spring_entries(*p));
            }
            CurveConfig::Entries(entries)
        },
        CurveParams::Cubic(c) => {
            let mut entries: Vec<(String, ConfigValue)> = Vec::new();
            entries.push((Field::P1.name(), ConfigValue::Pair(c.p1.x, c.p1.y)));
            entries.push((Field::P2.name(), ConfigValue::Pair(c.p2.x, c.p2.y)));
            proof {
                assert(entries_view(entries@) =~= cubic_entries(*c));
            }
            CurveConfig::Entries(entries)
        },
    }
}

/// The value shape each spring field requires: a boolean for the clamp
/// flag, a number for everything else.
pub open spec fn spring_value_ok(f: Field, v: ConfigValue) -> bool {
    match f {
        Field::Clamp => v is Boolean,
        Field::InitialVelocity => v is Number,
        Field::Mass => v is Number,
        Field::DampingRatio => v is Number,
        Field::Stiffness => v is Number,
        Field::Epsilon => v is Number,
        _ => false,
    }
}

/// Some entry at or after position `i` carries the given key.
pub open spec fn has_key_from(
    entries: Seq<(Seq<char>, ConfigValue)>,
    i: int,
    name: Seq<char>,
) -> bool {
    exists|j: int| i <= j < entries.len() && (#[trigger] entries[j].0) == name
}

/// Some entry carries the given key.
pub open spec fn has_key(entries: Seq<(Seq<char>, ConfigValue)>, name: Seq<char>) -> bool {
    has_key_from(entries, 0, name)
}

/// A well-formed spring record: every key is a spring field and its value
/// has that field's type, no key repeats, and the five required fields are
/// all present.
pub open spec fn spring_entries_ok(entries: Seq<(Seq<char>, ConfigValue)>) -> bool {
    &&& forall|j: int|
        0 <= j < entries.len() ==> (#[trigger] spring_field_of(entries[j].0)) is Some
            && spring_value_ok(spring_field_of(entries[j].0).unwrap(), entries[j].1)
    &&& forall|j1: int, j2: int|
        #![trigger entries[j1].0, entries[j2].0]
        0 <= j1 < j2 < entries.len() ==> entries[j1].0 != entries[j2].0
    &&& has_key(entries, field_name(Field::InitialVelocity))
    &&& has_key(entries, field_name(Field::Clamp))
    &&& has_key(entries, field_name(Field::Mass))
    &&& has_key(entries, field_name(Field::DampingRatio))
    &&& has_key(entries, field_name(Field::Stiffness))
}

/// What the scan demands of the entries from position `i` on, given the
/// fields already collected: every remaining key a spring field with a
/// well-typed value, no repeated keys, and no key for a field already seen.
spec fn spring_suffix_ok(
    entries: Seq<(Seq<char>, ConfigValue)>,
    i: int,
    acc: SpringPartial,
) -> bool {
    &&& forall|j: int|
        i <= j < entries.len() ==> (#[trigger] spring_field_of(entries[j].0)) is Some
            && spring_value_ok(spring_field_of(entries[j].0).unwrap(), entries[j].1)
    &&& forall|j1: int, j2: int|
        #![trigger entries[j1].0, entries[j2].0]
        i <= j1 < j2 < entries.len() ==> entries[j1].0 != entries[j2].0
    &&& acc.initial_velocity is Some ==> !has_key_from(
        entries,
        i,
        field_name(Field::InitialVelocity),
    )
    &&& acc.clamp is Some ==> !has_key_from(entries, i, field_name(Field::Clamp))
    &&& acc.mass is Some ==> !has_key_from(entries, i, field_name(Field::Mass))
    &&& acc.damping_ratio is Some ==> !has_key_from(entries, i, field_name(Field::DampingRatio))
    &&& acc.stiffness is Some ==> !has_key_from(entries, i, field_name(Field::Stiffness))
    &&& acc.epsilon is Some ==> !has_key_from(entries, i, field_name(Field::Epsilon))
}

/// The scan from position `i` succeeds exactly when the remaining entries
/// are acceptable for the fields collected so far, and then a field of the
/// result is set exactly when it was already collected or its key remains.
proof fn lemma_spring_scan_ok(entries: Seq<(Seq<char>, ConfigValue)>, i: int, acc: SpringPartial)
    requires
        0 <= i <= entries.len(),
    ensures
        spring_scan(entries, i, acc) is Ok <==> spring_suffix_ok(entries, i, acc),
        spring_scan(entries, i, acc) matches Ok(r) ==> {
            &&& (r.initial_velocity is Some <==> acc.initial_velocity is Some || has_key_from(
                entries,
                i,
                field_name(Field::InitialVelocity),
            ))
            &&& (r.clamp is Some <==> acc.clamp is Some || has_key_from(
                entries,
                i,
                field_name(Field::Clamp),
            ))
            &&& (r.mass is Some <==> acc.mass is Some || has_key_from(
                entries,
                i,
                field_name(Field::Mass),
            ))
            &&& (r.damping_ratio is Some <==> acc.damping_ratio is Some || has_key_from(
                entries,
                i,
                field_name(Field::DampingRatio),
            ))
            &&& (r.stiffness is Some <==> acc.stiffness is Some || has_key_from(
                entries,
                i,
                field_name(Field::Stiffness),
            ))
        },
    decreases entries.len() - i,
{
    lemma_field_names_distinct();
    if i >= entries.len() {
    } else {
        match spring_step(acc, entries[i].0, entries[i].1) {
            Err(_) => {
                assert(!spring_suffix_ok(entries, i, acc)) by {
                    if spring_field_of(entries[i].0) is Some {
                        let f = spring_field_of(entries[i].0).unwrap();
                        assert(entries[i].0 == field_name(f));
                    }
                }
            },
            Ok(next) => {
                lemma_spring_scan_ok(entries, i + 1, next);
                let f = spring_field_of(entries[i].0).unwrap();
                assert(entries[i].0 == field_name(f));
                assert(spring_suffix_ok(entries, i, acc) ==> spring_suffix_ok(
                    entries,
                    i + 1,
                    next,
                ));
                assert forall|g: Field|
                    spring_suffix_ok(entries, i + 1, next) && g != f implies entries[i].0
                    != field_name(g) by {
                    if entries[i].0 == field_name(g) {
                        assert(spring_field_of(field_name(g)) == Some(f));
                        assert(spring_field_of(field_name(g)) == Some(g));
                    }
                }
                if spring_suffix_ok(entries, i + 1, next) {
                    assert(spring_suffix_ok(entries, i, acc)) by {
                        assert forall|j1: int, j2: int|
                            i <= j1 < j2 < entries.len() implies (#[trigger] entries[j1].0)
                            != (#[trigger] entries[j2].0) by {
                            if j1 == i && entries[j2].0 == entries[i].0 {
                                assert(has_key_from(entries, i + 1, field_name(f)));
                            }
                        }
                    }
                }
            },
        }
    }
}

/// Reading a spring record succeeds exactly when the entries form a
/// well-formed spring record: every key a spring field with a value of its
/// type, no key twice, and the five required fields present.
pub proof fn lemma_parse_spring_succeeds_iff(entries: Seq<(Seq<char>, ConfigValue)>)
    ensures
        spec_parse_spring(entries) is Ok <==> spring_entries_ok(entries),
{
    lemma_spring_scan_ok(entries, 0, spring_partial_empty());
}

/// The value shape each cubic field requires: a pair of numbers.
pub open spec fn cubic_value_ok(f: Field, v: ConfigValue) -> bool {
    match f {
        Field::P1 => v is Pair,
        Field::P2 => v is Pair,
        _ => false,
    }
}

/// A well-formed cubic record: the keys are `p1` and `p2`, each exactly
/// once, each with a pair value.
pub open spec fn cubic_entries_ok(entries: Seq<(Seq<char>, ConfigValue)>) -> bool {
    &&& forall|j: int|
        0 <= j < entries.len() ==> (#[trigger] cubic_field_of(entries[j].0)) is Some
            && cubic_value_ok(cubic_field_of(entries[j].0).unwrap(), entries[j].1)
    &&& forall|j1: int, j2: int|
        #![trigger entries[j1].0, entries[j2].0]
        0 <= j1 < j2 < entries.len() ==> entries[j1].0 != entries[j2].0
    &&& has_key(entries, field_name(Field::P1))
    &&& has_key(entries, field_name(Field::P2))
}

/// What the scan demands of the entries from position `i` on, given the
/// points already collected.
spec fn cubic_suffix_ok(entries: Seq<(Seq<char>, ConfigValue)>, i: int, acc: CubicPartial) -> bool {
    &&& forall|j: int|
        i <= j < entries.len() ==> (#[trigger] cubic_field_of(entries[j].0)) is Some
            && cubic_value_ok(cubic_field_of(entries[j].0).unwrap(), entries[j].1)
    &&& forall|j1: int, j2: int|
        #![trigger entries[j1].0, entries[j2].0]
        i <= j1 < j2 < entries.len() ==> entries[j1].0 != entries[j2].0
    &&& acc.p1 is Some ==> !has_key_from(entries, i, field_name(Field::P1))
    &&& acc.p2 is Some ==> !has_key_from(entries, i, field_name(Field::P2))
}

/// The scan from position `i` succeeds exactly when the remaining entries
/// are acceptable for the points collected so far.
proof fn lemma_cubic_scan_ok(entries: Seq<(Seq<char>, ConfigValue)>, i: int, acc: CubicPartial)
    requires
        0 <= i <= entries.len(),
    ensures
        cubic_scan(entries, i, acc) is Ok <==> cubic_suffix_ok(entries, i, acc),
        cubic_scan(entries, i, acc) matches Ok(r) ==> {
            &&& (r.p1 is Some <==> acc.p1 is Some || has_key_from(
                entries,
                i,
                field_name(Field::P1),
            ))
            &&& (r.p2 is Some <==> acc.p2 is Some || has_key_from(
                entries,
                i,
                field_name(Field::P2),
            ))
        },
    decreases entries.len() - i,
{
    lemma_field_names_distinct();
    if i >= entries.len() {
    } else {
        match cubic_step(acc, entries[i].0, entries[i].1) {
            Err(_) => {
                assert(!cubic_suffix_ok(entries, i, acc)) by {
                    if cubic_field_of(entries[i].0) is Some {
                        let f = cubic_field_of(entries[i].0).unwrap();
                        assert(entries[i].0 == field_name(f));
                    }
                }
            },
            Ok(next) => {
                lemma_cubic_scan_ok(entries, i + 1, next);
                let f = cubic_field_of(entries[i].0).unwrap();
                assert(entries[i].0 == field_name(f));
                assert(cubic_suffix_ok(entries, i, acc) ==> cubic_suffix_ok(entries, i + 1, next));
                assert forall|g: Field|
                    cubic_suffix_ok(entries, i + 1, next) && g != f implies entries[i].0
                    != field_name(g) by {
                    if entries[i].0 == field_name(g) {
                        assert(cubic_field_of(field_name(g)) == Some(f));
                        assert(cubic_field_of(field_name(g)) == Some(g));
                    }
                }
                if cubic_suffix_ok(entries, i + 1, next) {
                    assert(cubic_suffix_ok(entries, i, acc)) by {
                        assert forall|j1: int, j2: int|
                            i <= j1 < j2 < entries.len() implies (#[trigger] entries[j1].0)
                            != (#[trigger] entries[j2].0) by {
                            if j1 == i && entries[j2].0 == entries[i].0 {
                                assert(has_key_from(entries, i + 1, field_name(f)));
                            }
                        }
                    }
                }
            },
        }
    }
}

/// Reading a cubic record succeeds exactly when the entries form a
/// well-formed cubic record: `p1` and `p2`, each exactly once, each a pair.
pub proof fn lemma_parse_cubic_succeeds_iff(entries: Seq<(Seq<char>, ConfigValue)>)
    ensures
        spec_parse_cubic(entries) is Ok <==> cubic_entries_ok(entries),
{
    lemma_cubic_scan_ok(entries, 0, cubic_partial_empty());
}

/// Writing a curve and reading the document back recovers the curve
/// exactly, for every variant and all parameter values: the configuration
/// format loses nothing.
pub proof fn lemma_curve_config_round_trip(params: CurveParams)
    ensures
        spec_parse_curve(spec_curve_config(params)) == Ok::<CurveParams, ConfigError>(params),
{
    match params {
        CurveParams::Simple(e) => {
            crate::curve::lemma_easing_name_round_trip(e);
        },
        CurveParams::Spring(p) => {
            lemma_field_names_distinct();
            reveal_with_fuel(spring_scan, 8);
            assert(spec_parse_spring(spring_entries(p)) == Ok::<spring::Params, ConfigError>(p));
        },
        CurveParams::Cubic(c) => {
            lemma_field_names_distinct();
            reveal_with_fuel(spring_scan, 2);
            reveal_with_fuel(cubic_scan, 4);
            assert(spec_parse_spring(cubic_entries(c)) == Err::<spring::Params, ConfigError>(ConfigError::UnknownField));
            assert(spec_parse_cubic(cubic_entries(c)) == Ok::<cubic::Curve, ConfigError>(c));
        },
    }
}

/// Ground facts telling the eight field names apart.
proof fn lemma_field_names_distinct()
    ensures
        forall|f: Field, g: Field| f != g ==> field_name(f) != field_name(g),
{
    reveal_strlit("initial-velocity");
    reveal_strlit("clamp");
    reveal_strlit("mass");
    reveal_strlit("damping-ratio");
    reveal_strlit("stiffness");
    reveal_strlit("epsilon");
    reveal_strlit("p1");
    reveal_strlit("p2");
    assert("initial-velocity"@.len() == 16);
    assert("clamp"@.len() == 5);
    assert("mass"@.len() == 4);
    assert("damping-ratio"@.len() == 13);
    assert("stiffness"@.len() == 9);
    assert("epsilon"@.len() == 7);
    assert("p1"@.len() == 2);
    assert("p2"@.len() == 2);
    assert("p1"@[1] == '1');
    assert("p2"@[1] == '2');
}

} // verus!
