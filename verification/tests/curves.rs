//! Tests of the curve types: the easing catalogue and its names, the baked
//! cubic table search, and the spring parameter builders.

use fht_animation::curve::cubic::{self, ControlPoint, BAKED_POINTS};
use fht_animation::curve::spring;
use fht_animation::{AnimationCurve, Easing};

/// Bake the sample table of a cubic Bézier curve exactly as a host does:
/// 255 samples of the parametric curve, as raw 64-bit representations.
fn bake(p1: (f64, f64), p2: (f64, f64)) -> Vec<ControlPoint> {
    let (x0, y0) = p1;
    let (x1, y1) = p2;
    let coord = |a: f64, b: f64, t: f64| {
        3.0 * t * (1.0 - t).powf(2.0) * a + 3.0 * t.powf(2.0) * (1.0 - t) * b + t.powf(3.0)
    };
    let mut points = Vec::new();
    for i in 0..BAKED_POINTS {
        let t = (i + 1) as f64 / BAKED_POINTS as f64;
        points.push(ControlPoint {
            x: coord(x0, x1, t).to_bits(),
            y: coord(y0, y1, t).to_bits(),
        });
    }
    points
}

/// Evaluate `y(x)` the way a host does: verified bracketing, then linear
/// interpolation between the bracketing samples.
fn table_y(table: &Vec<ControlPoint>, x: f64) -> f64 {
    let lower = cubic::bracket_index(table, x.to_bits());
    let (x0, y0) = (f64::from_bits(table[lower].x), f64::from_bits(table[lower].y));
    let (x1, y1) = (f64::from_bits(table[lower + 1].x), f64::from_bits(table[lower + 1].y));
    let delta = (x - x0) / (x1 - x0);
    if delta.is_nan() || delta.is_infinite() {
        0.0
    } else {
        y0 + (y1 - y0) * delta
    }
}

#[test]
fn baked_ease_table_passes_the_check() {
    let table = bake((0.25, 0.1), (0.25, 1.0));
    assert!(cubic::check_table(&table));
}

#[test]
fn standard_ease_at_one_half() {
    // The standard "ease" curve, queried at x = 0.5, is close to 0.802.
    let table = bake((0.25, 0.1), (0.25, 1.0));
    assert!(cubic::check_table(&table));
    let y = table_y(&table, 0.5);
    assert!((y - 0.802).abs() < 0.01, "y(0.5) = {y}");
}

#[test]
fn ease_endpoints_are_pinned() {
    let table = bake((0.25, 0.1), (0.25, 1.0));
    assert_eq!(table_y(&table, 1.0), 1.0);
    assert!(table_y(&table, 0.0).abs() < 1e-3);
}

#[test]
fn linear_control_points_give_the_identity() {
    let table = bake((0.25, 0.25), (0.75, 0.75));
    assert!(cubic::check_table(&table));
    for i in 0..=100 {
        let x = i as f64 / 100.0;
        assert!((table_y(&table, x) - x).abs() < 1e-12);
    }
}

#[test]
fn bracket_index_on_a_flat_run() {
    // A sorted table whose keys jump from 0 to 1 halfway: the bracket of a
    // query in between is the last low sample.
    let mut table = Vec::new();
    for i in 0..BAKED_POINTS {
        let x = if i < 128 { 0.0f64 } else { 1.0f64 };
        table.push(ControlPoint { x: x.to_bits(), y: x.to_bits() });
    }
    assert!(cubic::check_table(&table));
    let lower = cubic::bracket_index(&table, 0.5f64.to_bits());
    assert_eq!(lower, 127);
    let lower = cubic::bracket_index(&table, 0.0f64.to_bits());
    assert_eq!(lower, 0);
}

#[test]
fn check_table_rejects_bad_tables() {
    let short = vec![ControlPoint { x: 0, y: 0 }; 10];
    assert!(!cubic::check_table(&short));

    let mut unsorted = bake((0.25, 0.1), (0.25, 1.0));
    let first = unsorted[0];
    unsorted[200] = first;
    assert!(!cubic::check_table(&unsorted));
}

#[test]
fn easing_names_round_trip() {
    let all = [
        Easing::EaseIn,
        Easing::EaseInCubic,
        Easing::EaseInOut,
        Easing::EaseInOutCubic,
        Easing::EaseInOutQuart,
        Easing::EaseInOutQuint,
        Easing::EaseInQuad,
        Easing::EaseInQuart,
        Easing::EaseInQuint,
        Easing::EaseOut,
        Easing::EaseOutCubic,
        Easing::EaseOutQuad,
        Easing::EaseOutQuart,
        Easing::EaseOutQuint,
        Easing::EaseInSine,
        Easing::EaseOutSine,
        Easing::EaseInOutSine,
        Easing::EaseInCirc,
        Easing::EaseOutCirc,
        Easing::EaseInOutCirc,
        Easing::EaseInElastic,
        Easing::EaseOutElastic,
        Easing::EaseInOutElastic,
        Easing::EaseInExpo,
        Easing::EaseOutExpo,
        Easing::EaseInOutExpo,
        Easing::EaseInBack,
        Easing::EaseOutBack,
        Easing::EaseInOutBack,
        Easing::EaseInBounce,
        Easing::EaseOutBounce,
        Easing::EaseInOutBounce,
        Easing::Linear,
    ];
    for e in all {
        assert_eq!(Easing::from_name(e.name().as_str()), Some(e));
    }
}

#[test]
fn easing_names_are_kebab_case() {
    assert_eq!(Easing::EaseInOutQuart.name(), "ease-in-out-quart");
    assert_eq!(Easing::EaseIn.name(), "ease-in");
    assert_eq!(Easing::Linear.name(), "linear");
    assert_eq!(Easing::from_name("ease-in-out-bounce"), Some(Easing::EaseInOutBounce));
}

#[test]
fn unknown_easing_names_are_rejected() {
    assert_eq!(Easing::from_name("EaseIn"), None);
    assert_eq!(Easing::from_name(""), None);
    assert_eq!(Easing::from_name("ease-in-"), None);
}

#[test]
fn default_curve_is_linear() {
    assert_eq!(AnimationCurve::default(), AnimationCurve::Simple(Easing::Linear));
    assert_eq!(Easing::default(), Easing::Linear);
}

#[test]
fn spring_builders_replace_single_parameters() {
    let base = spring::Curve::new(
        1.0f64.to_bits(),
        false,
        2.0f64.to_bits(),
        3.0f64.to_bits(),
        4.0f64.to_bits(),
    );
    assert_eq!(base.epsilon, spring::DEFAULT_EPSILON);
    assert_eq!(base.epsilon, 0.0001f64.to_bits());

    let c = base.with_clamp(true);
    assert!(c.clamp);
    assert_eq!(c.mass, base.mass);

    let m = base.with_mass(9.0f64.to_bits());
    assert_eq!(m.mass, 9.0f64.to_bits());
    assert_eq!(m.damping, base.damping);

    let d = base.with_damping(8.5f64.to_bits());
    assert_eq!(d.damping, 8.5f64.to_bits());

    let s = base.with_stiffness(80.0f64.to_bits());
    assert_eq!(s.stiffness, 80.0f64.to_bits());

    let e = base.with_epsilon(1e-6f64.to_bits());
    assert_eq!(e.epsilon, 1e-6f64.to_bits());
    assert_eq!(e.stiffness, base.stiffness);
}

#[test]
fn cubic_curve_keeps_its_control_points() {
    let p1 = ControlPoint { x: 0.25f64.to_bits(), y: 0.1f64.to_bits() };
    let p2 = ControlPoint { x: 0.25f64.to_bits(), y: 1.0f64.to_bits() };
    let c = cubic::Curve::new(p1, p2);
    assert_eq!(c.p1, p1);
    assert_eq!(c.p2, p2);
}
