//! Parameter set of a damped-spring curve.
//!
//! A spring animates from a normalised start of `0` to a rest position of `1`.
//! Its motion is determined by six parameters: mass, stiffness, damping,
//! initial velocity, a settling tolerance (`epsilon`) and a clamp flag. The
//! parameters are real numbers for the simulator; this module carries each one
//! as the 64-bit representation of the corresponding IEEE 754 double, so the
//! record itself is exact integer data. Evaluating the displacement and the
//! settling time is numeric work that a host performs on the decoded values.

use vstd::prelude::*;

verus! {

/// The parameters of a spring-based curve.
///
/// Every `u64` field holds the bit representation of a double-precision
/// value. `damping` is the absolute damping coefficient; hosts that work with
/// a damping ratio derive `damping = ratio * 2 * sqrt(mass * stiffness)` and
/// store the result here.
#[derive(Debug, Clone, Copy, PartialEq, Eq, Structural)]
pub struct Curve {
    /// Velocity of the value at time zero.
    pub initial_velocity: u64,
    /// When true the animation stops the first time it reaches the rest
    /// position instead of overshooting.
    pub clamp: bool,
    /// Mass of the oscillating body.
    pub mass: u64,
    /// Absolute damping coefficient.
    pub damping: u64,
    /// Stiffness of the spring.
    pub stiffness: u64,
    /// Tolerance within which the spring counts as settled.
    pub epsilon: u64,
}

/// Bit representation of the default settling tolerance, the double `0.0001`.
pub const DEFAULT_EPSILON: u64 = 0x3F1A36E2EB1C432D;

impl Curve {
    /// Create a spring parameter set with the default tolerance.
    pub fn new(initial_velocity: u64, clamp: bool, mass: u64, damping: u64, stiffness: u64) -> (r:
        Curve)
        ensures
            r == (Curve {
                initial_velocity,
                clamp,
                mass,
                damping,
                stiffness,
                epsilon: DEFAULT_EPSILON,
            }),
    {
        Curve { initial_velocity, clamp, mass, damping, stiffness, epsilon: DEFAULT_EPSILON }
    }

    /// Replace the clamp flag, leaving every other parameter unchanged.
    pub fn with_clamp(self, clamp: bool) -> (r: Curve)
        ensures
            r == (Curve { clamp, ..self }),
    {
        Curve { clamp, ..self }
    }

    /// Replace the mass, leaving every other parameter unchanged.
    pub fn with_mass(self, mass: u64) -> (r: Curve)
        ensures
            r == (Curve { mass, ..self }),
    {
        Curve { mass, ..self }
    }

    /// Replace the damping coefficient, leaving every other parameter
    /// unchanged. A damping ratio is converted to a coefficient by the host
    /// before it is stored.
    pub fn with_damping(self, damping: u64) -> (r: Curve)
        ensures
            r == (Curve { damping, ..self }),
    {
        Curve { damping, ..self }
    }

    /// Replace the stiffness, leaving every other parameter unchanged.
    pub fn with_stiffness(self, stiffness: u64) -> (r: Curve)
        ensures
            r == (Curve { stiffness, ..self }),
    {
        Curve { stiffness, ..self }
    }

    /// Replace the settling tolerance, leaving every other parameter
    /// unchanged.
    pub fn with_epsilon(self, epsilon: u64) -> (r: Curve)
        ensures
            r == (Curve { epsilon, ..self }),
    {
        Curve { epsilon, ..self }
    }
}

/// The serialisable parameter record of a spring.
///
/// The textual configuration format names a damping ratio rather than the
/// absolute coefficient that [`Curve`] stores, so the record read from and
/// written to a configuration keeps the ratio. Deriving the coefficient from
/// the ratio (and back) is numeric work done by the host.
#[derive(Debug, Clone, Copy, PartialEq, Eq, Structural)]
pub struct Params {
    /// Velocity of the value at time zero.
    pub initial_velocity: u64,
    /// Whether the spring stops at the first crossing of the rest position.
    pub clamp: bool,
    /// Mass of the oscillating body.
    pub mass: u64,
    /// Ratio of the damping coefficient to critical damping.
    pub damping_ratio: u64,
    /// Stiffness of the spring.
    pub stiffness: u64,
    /// Tolerance within which the spring counts as settled.
    pub epsilon: u64,
}

} // verus!
