//! Animation curves: the easing catalogue and the tagged union of curve
//! flavours.
//!
//! An [`Easing`] names one closed-form easing function from the standard
//! catalogue. Each preset has a stable kebab-case name used by the textual
//! configuration format; the mapping between presets and names is defined and
//! proved invertible here.

use vstd::prelude::*;

pub mod cubic;
pub mod spring;

verus! {

/// One animation curve: a named easing preset, a damped spring, or a cubic
/// Bézier given by two control points.
#[derive(Debug, Clone, Copy, PartialEq, Eq, Structural)]
pub enum AnimationCurve {
    /// A preset easing function.
    Simple(Easing),
    /// A spring-based curve.
    Spring(spring::Curve),
    /// A cubic Bézier curve with two control points.
    Cubic(cubic::Curve),
}

impl Default for AnimationCurve {
    /// The default curve: the linear easing.
    fn default() -> (r: AnimationCurve)
        ensures
            r == AnimationCurve::Simple(Easing::Linear),
    {
        AnimationCurve::Simple(Easing::Linear)
    }
}

/// The catalogue of easing presets.
///
/// Each preset is a closed-form function `y(x)` on the unit interval; the
/// evaluation itself is numeric work done by a host. What this crate defines
/// is the catalogue and the stable name of each preset.
#[derive(Debug, Clone, Copy, PartialEq, Eq, Structural)]
pub enum Easing {
    EaseIn,
    EaseInCubic,
    EaseInOut,
    EaseInOutCubic,
    EaseInOutQuart,
    EaseInOutQuint,
    EaseInQuad,
    EaseInQuart,
    EaseInQuint,
    EaseOut,
    EaseOutCubic,
    EaseOutQuad,
    EaseOutQuart,
    EaseOutQuint,
    EaseInSine,
    EaseOutSine,
    EaseInOutSine,
    EaseInCirc,
    EaseOutCirc,
    EaseInOutCirc,
    EaseInElastic,
    EaseOutElastic,
    EaseInOutElastic,
    EaseInExpo,
    EaseOutExpo,
    EaseInOutExpo,
    EaseInBack,
    EaseOutBack,
    EaseInOutBack,
    EaseInBounce,
    EaseOutBounce,
    EaseInOutBounce,
    Linear,
}

impl Default for Easing {
    /// The default preset: linear.
    fn default() -> (r: Easing)
        ensures
            r == Easing::Linear,
    {
        Easing::Linear
    }
}

/// The kebab-case name of an easing preset.
pub open spec fn easing_name(e: Easing) -> Seq<char> {
    match e {
        Easing::EaseIn => "ease-in"@,
        Easing::EaseInCubic => "ease-in-cubic"@,
        Easing::EaseInOut => "ease-in-out"@,
        Easing::EaseInOutCubic => "ease-in-out-cubic"@,
        Easing::EaseInOutQuart => "ease-in-out-quart"@,
        Easing::EaseInOutQuint => "ease-in-out-quint"@,
        Easing::EaseInQuad => "ease-in-quad"@,
        Easing::EaseInQuart => "ease-in-quart"@,
        Easing::EaseInQuint => "ease-in-quint"@,
        Easing::EaseOut => "ease-out"@,
        Easing::EaseOutCubic => "ease-out-cubic"@,
        Easing::EaseOutQuad => "ease-out-quad"@,
        Easing::EaseOutQuart => "ease-out-quart"@,
        Easing::EaseOutQuint => "ease-out-quint"@,
        Easing::EaseInSine => "ease-in-sine"@,
        Easing::EaseOutSine => "ease-out-sine"@,
        Easing::EaseInOutSine => "ease-in-out-sine"@,
        Easing::EaseInCirc => "ease-in-circ"@,
        Easing::EaseOutCirc => "ease-out-circ"@,
        Easing::EaseInOutCirc => "ease-in-out-circ"@,
        Easing::EaseInElastic => "ease-in-elastic"@,
        Easing::EaseOutElastic => "ease-out-elastic"@,
        Easing::EaseInOutElastic => "ease-in-out-elastic"@,
        Easing::EaseInExpo => "ease-in-expo"@,
        Easing::EaseOutExpo => "ease-out-expo"@,
        Easing::EaseInOutExpo => "ease-in-out-expo"@,
        Easing::EaseInBack => "ease-in-back"@,
        Easing::EaseOutBack => "ease-out-back"@,
        Easing::EaseInOutBack => "ease-in-out-back"@,
        Easing::EaseInBounce => "ease-in-bounce"@,
        Easing::EaseOutBounce => "ease-out-bounce"@,
        Easing::EaseInOutBounce => "ease-in-out-bounce"@,
        Easing::Linear => "linear"@,
    }
}

/// The preset a name denotes, if any.
pub open spec fn easing_of_name(s: Seq<char>) -> Option<Easing> {
    if s == "ease-in"@ {
        Some(Easing::EaseIn)
    } else if s == "ease-in-cubic"@ {
        Some(Easing::EaseInCubic)
    } else if s == "ease-in-out"@ {
        Some(Easing::EaseInOut)
    } else if s == "ease-in-out-cubic"@ {
        Some(Easing::EaseInOutCubic)
    } else if s == "ease-in-out-quart"@ {
        Some(Easing::EaseInOutQuart)
    } else if s == "ease-in-out-quint"@ {
        Some(Easing::EaseInOutQuint)
    } else if s == "ease-in-quad"@ {
        Some(Easing::EaseInQuad)
    } else if s == "ease-in-quart"@ {
        Some(Easing::EaseInQuart)
    } else if s == "ease-in-quint"@ {
        Some(Easing::EaseInQuint)
    } else if s == "ease-out"@ {
        Some(Easing::EaseOut)
    } else if s == "ease-out-cubic"@ {
        Some(Easing::EaseOutCubic)
    } else if s == "ease-out-quad"@ {
        Some(Easing::EaseOutQuad)
    } else if s == "ease-out-quart"@ {
        Some(Easing::EaseOutQuart)
    } else if s == "ease-out-quint"@ {
        Some(Easing::EaseOutQuint)
    } else if s == "ease-in-sine"@ {
        Some(Easing::EaseInSine)
    } else if s == "ease-out-sine"@ {
        Some(Easing::EaseOutSine)
    } else if s == "ease-in-out-sine"@ {
        Some(Easing::EaseInOutSine)
    } else if s == "ease-in-circ"@ {
        Some(Easing::EaseInCirc)
    } else if s == "ease-out-circ"@ {
        Some(Easing::EaseOutCirc)
    } else if s == "ease-in-out-circ"@ {
        Some(Easing::EaseInOutCirc)
    } else if s == "ease-in-elastic"@ {
        Some(Easing::EaseInElastic)
    } else if s == "ease-out-elastic"@ {
        Some(Easing::EaseOutElastic)
    } else if s == "ease-in-out-elastic"@ {
        Some(Easing::EaseInOutElastic)
    } else if s == "ease-in-expo"@ {
        Some(Easing::EaseInExpo)
    } else if s == "ease-out-expo"@ {
        Some(Easing::EaseOutExpo)
    } else if s == "ease-in-out-expo"@ {
        Some(Easing::EaseInOutExpo)
    } else if s == "ease-in-back"@ {
        Some(Easing::EaseInBack)
    } else if s == "ease-out-back"@ {
        Some(Easing::EaseOutBack)
    } else if s == "ease-in-out-back"@ {
        Some(Easing::EaseInOutBack)
    } else if s == "ease-in-bounce"@ {
        Some(Easing::EaseInBounce)
    } else if s == "ease-out-bounce"@ {
        Some(Easing::EaseOutBounce)
    } else if s == "ease-in-out-bounce"@ {
        Some(Easing::EaseInOutBounce)
    } else if s == "linear"@ {
        Some(Easing::Linear)
    } else {
        None
    }
}

/// Exact string equality of two string slices.
pub(crate) fn str_eq(a: &str, b: &str) -> (r: bool)
    ensures
        r == (a@ == b@),
{
    let a_owned: String = a.to_owned();
    let b_owned: String = b.to_owned();
    a_owned == b_owned
}

impl Easing {
    /// The kebab-case name of this preset, as used by the configuration
    /// format.
    pub fn name(&self) -> (r: String)
        ensures
            r@ == easing_name(*self),
    {
        match self {
            Easing::EaseIn => "ease-in".to_owned(),
            Easing::EaseInCubic => "ease-in-cubic".to_owned(),
            Easing::EaseInOut => "ease-in-out".to_owned(),
            Easing::EaseInOutCubic => "ease-in-out-cubic".to_owned(),
            Easing::EaseInOutQuart => "ease-in-out-quart".to_owned(),
            Easing::EaseInOutQuint => "ease-in-out-quint".to_owned(),
            Easing::EaseInQuad => "ease-in-quad".to_owned(),
            Easing::EaseInQuart => "ease-in-quart".to_owned(),
            Easing::EaseInQuint => "ease-in-quint".to_owned(),
            Easing::EaseOut => "ease-out".to_owned(),
            Easing::EaseOutCubic => "ease-out-cubic".to_owned(),
            Easing::EaseOutQuad => "ease-out-quad".to_owned(),
            Easing::EaseOutQuart => "ease-out-quart".to_owned(),
            Easing::EaseOutQuint => "ease-out-quint".to_owned(),
            Easing::EaseInSine => "ease-in-sine".to_owned(),
            Easing::EaseOutSine => "ease-out-sine".to_owned(),
            Easing::EaseInOutSine => "ease-in-out-sine".to_owned(),
            Easing::EaseInCirc => "ease-in-circ".to_owned(),
            Easing::EaseOutCirc => "ease-out-circ".to_owned(),
            Easing::EaseInOutCirc => "ease-in-out-circ".to_owned(),
            Easing::EaseInElastic => "ease-in-elastic".to_owned(),
            Easing::EaseOutElastic => "ease-out-elastic".to_owned(),
            Easing::EaseInOutElastic => "ease-in-out-elastic".to_owned(),
            Easing::EaseInExpo => "ease-in-expo".to_owned(),
            Easing::EaseOutExpo => "ease-out-expo".to_owned(),
            Easing::EaseInOutExpo => "ease-in-out-expo".to_owned(),
            Easing::EaseInBack => "ease-in-back".to_owned(),
            Easing::EaseOutBack => "ease-out-back".to_owned(),
            Easing::EaseInOutBack => "ease-in-out-back".to_owned(),
            Easing::EaseInBounce => "ease-in-bounce".to_owned(),
            Easing::EaseOutBounce => "ease-out-bounce".to_owned(),
            Easing::EaseInOutBounce => "ease-in-out-bounce".to_owned(),
            Easing::Linear => "linear".to_owned(),
        }
    }

    /// The preset a name denotes, or `None` when the name is not in the
    /// catalogue.
    pub fn from_name(name: &str) -> (r: Option<Easing>)
        ensures
            r == easing_of_name(name@),
    {
        if str_eq(name, "ease-in") {
            Some(Easing::EaseIn)
        } else if str_eq(name, "ease-in-cubic") {
            Some(Easing::EaseInCubic)
        } else if str_eq(name, "ease-in-out") {
            Some(Easing::EaseInOut)
        } else if str_eq(name, "ease-in-out-cubic") {
            Some(Easing::EaseInOutCubic)
        } else if str_eq(name, "ease-in-out-quart") {
            Some(Easing::EaseInOutQuart)
        } else if str_eq(name, "ease-in-out-quint") {
            Some(Easing::EaseInOutQuint)
        } else if str_eq(name, "ease-in-quad") {
            Some(Easing::EaseInQuad)
        } else if str_eq(name, "ease-in-quart") {
            Some(Easing::EaseInQuart)
        } else if str_eq(name, "ease-in-quint") {
            Some(Easing::EaseInQuint)
        } else if str_eq(name, "ease-out") {
            Some(Easing::EaseOut)
        } else if str_eq(name, "ease-out-cubic") {
            Some(Easing::EaseOutCubic)
        } else if str_eq(name, "ease-out-quad") {
            Some(Easing::EaseOutQuad)
        } else if str_eq(name, "ease-out-quart") {
            Some(Easing::EaseOutQuart)
        } else if str_eq(name, "ease-out-quint") {
            Some(Easing::EaseOutQuint)
        } else if str_eq(name, "ease-in-sine") {
            Some(Easing::EaseInSine)
        } else if str_eq(name, "ease-out-sine") {
            Some(Easing::EaseOutSine)
        } else if str_eq(name, "ease-in-out-sine") {
            Some(Easing::EaseInOutSine)
        } else if str_eq(name, "ease-in-circ") {
            Some(Easing::EaseInCirc)
        } else if str_eq(name, "ease-out-circ") {
            Some(Easing::EaseOutCirc)
        } else if str_eq(name, "ease-in-out-circ") {
            Some(Easing::EaseInOutCirc)
        } else if str_eq(name, "ease-in-elastic") {
            Some(Easing::EaseInElastic)
        } else if str_eq(name, "ease-out-elastic") {
            Some(Easing::EaseOutElastic)
        } else if str_eq(name, "ease-in-out-elastic") {
            Some(Easing::EaseInOutElastic)
        } else if str_eq(name, "ease-in-expo") {
            Some(Easing::EaseInExpo)
        } else if str_eq(name, "ease-out-expo") {
            Some(Easing::EaseOutExpo)
        } else if str_eq(name, "ease-in-out-expo") {
            Some(Easing::EaseInOutExpo)
        } else if str_eq(name, "ease-in-back") {
            Some(Easing::EaseInBack)
        } else if str_eq(name, "ease-out-back") {
            Some(Easing::EaseOutBack)
        } else if str_eq(name, "ease-in-out-back") {
            Some(Easing::EaseInOutBack)
        } else if str_eq(name, "ease-in-bounce") {
            Some(Easing::EaseInBounce)
        } else if str_eq(name, "ease-out-bounce") {
            Some(Easing::EaseOutBounce)
        } else if str_eq(name, "ease-in-out-bounce") {
            Some(Easing::EaseInOutBounce)
        } else if str_eq(name, "linear") {
            Some(Easing::Linear)
        } else {
            None
        }
    }
}

/// A name the catalogue accepts is the accepted preset's own name: nothing
/// but the catalogue's names is accepted.
pub proof fn lemma_easing_of_name_sound(s: Seq<char>)
    ensures
        easing_of_name(s) matches Some(e) ==> easing_name(e) == s,
{
}

/// Reading a preset's name back yields the preset: the catalogue's names are
/// pairwise distinct, so the name mapping loses nothing.
#[verifier::rlimit(60)]
pub proof fn lemma_easing_name_round_trip(e: Easing)
    ensures
        easing_of_name(easing_name(e)) == Some(e),
{
    reveal_strlit("ease-in");
    reveal_strlit("ease-in-cubic");
    reveal_strlit("ease-in-out");
    reveal_strlit("ease-in-out-cubic");
    reveal_strlit("ease-in-out-quart");
    reveal_strlit("ease-in-out-quint");
    reveal_strlit("ease-in-quad");
    reveal_strlit("ease-in-quart");
    reveal_strlit("ease-in-quint");
    reveal_strlit("ease-out");
    reveal_strlit("ease-out-cubic");
    reveal_strlit("ease-out-quad");
    reveal_strlit("ease-out-quart");
    reveal_strlit("ease-out-quint");
    reveal_strlit("ease-in-sine");
    reveal_strlit("ease-out-sine");
    reveal_strlit("ease-in-out-sine");
    reveal_strlit("ease-in-circ");
    reveal_strlit("ease-out-circ");
    reveal_strlit("ease-in-out-circ");
    reveal_strlit("ease-in-elastic");
    reveal_strlit("ease-out-elastic");
    reveal_strlit("ease-in-out-elastic");
    reveal_strlit("ease-in-expo");
    reveal_strlit("ease-out-expo");
    reveal_strlit("ease-in-out-expo");
    reveal_strlit("ease-in-back");
    reveal_strlit("ease-out-back");
    reveal_strlit("ease-in-out-back");
    reveal_strlit("ease-in-bounce");
    reveal_strlit("ease-out-bounce");
    reveal_strlit("ease-in-out-bounce");
    reveal_strlit("linear");
    assert("ease-in"@.len() == 7);
    assert("ease-in-cubic"@.len() == 13);
    assert("ease-in-out"@.len() == 11);
    assert("ease-in-out-cubic"@.len() == 17);
    assert("ease-in-out-quart"@.len() == 17);
    assert("ease-in-out-quint"@.len() == 17);
    assert("ease-in-quad"@.len() == 12);
    assert("ease-in-quart"@.len() == 13);
    assert("ease-in-quint"@.len() == 13);
    assert("ease-out"@.len() == 8);
    assert("ease-out-cubic"@.len() == 14);
    assert("ease-out-quad"@.len() == 13);
    assert("ease-out-quart"@.len() == 14);
    assert("ease-out-quint"@.len() == 14);
    assert("ease-in-sine"@.len() == 12);
    assert("ease-out-sine"@.len() == 13);
    assert("ease-in-out-sine"@.len() == 16);
    assert("ease-in-circ"@.len() == 12);
    assert("ease-out-circ"@.len() == 13);
    assert("ease-in-out-circ"@.len() == 16);
    assert("ease-in-elastic"@.len() == 15);
    assert("ease-out-elastic"@.len() == 16);
    assert("ease-in-out-elastic"@.len() == 19);
    assert("ease-in-expo"@.len() == 12);
    assert("ease-out-expo"@.len() == 13);
    assert("ease-in-out-expo"@.len() == 16);
    assert("ease-in-back"@.len() == 12);
    assert("ease-out-back"@.len() == 13);
    assert("ease-in-out-back"@.len() == 16);
    assert("ease-in-bounce"@.len() == 14);
    assert("ease-out-bounce"@.len() == 15);
    assert("ease-in-out-bounce"@.len() == 18);
    assert("linear"@.len() == 6);
    assert("ease-in-back"@[8] == 'b');
    assert("ease-in-bounce"@[5] == 'i');
    assert("ease-in-circ"@[8] == 'c');
    assert("ease-in-cubic"@[5] == 'i');
    assert("ease-in-cubic"@[8] == 'c');
    assert("ease-in-elastic"@[5] == 'i');
    assert("ease-in-expo"@[8] == 'e');
    assert("ease-in-out-back"@[5] == 'i');
    assert("ease-in-out-back"@[12] == 'b');
    assert("ease-in-out-circ"@[5] == 'i');
    assert("ease-in-out-circ"@[12] == 'c');
    assert("ease-in-out-cubic"@[12] == 'c');
    assert("ease-in-out-expo"@[5] == 'i');
    assert("ease-in-out-expo"@[12] == 'e');
    assert("ease-in-out-quart"@[12] == 'q');
    assert("ease-in-out-quart"@[14] == 'a');
    assert("ease-in-out-quint"@[12] == 'q');
    assert("ease-in-out-quint"@[14] == 'i');
    assert("ease-in-out-sine"@[5] == 'i');
    assert("ease-in-out-sine"@[12] == 's');
    assert("ease-in-quad"@[8] == 'q');
    assert("ease-in-quart"@[5] == 'i');
    assert("ease-in-quart"@[8] == 'q');
    assert("ease-in-quart"@[10] == 'a');
    assert("ease-in-quint"@[5] == 'i');
    assert("ease-in-quint"@[8] == 'q');
    assert("ease-in-quint"@[10] == 'i');
    assert("ease-in-sine"@[8] == 's');
    assert("ease-out-back"@[5] == 'o');
    assert("ease-out-back"@[9] == 'b');
    assert("ease-out-bounce"@[5] == 'o');
    assert("ease-out-circ"@[5] == 'o');
    assert("ease-out-circ"@[9] == 'c');
    assert("ease-out-cubic"@[5] == 'o');
    assert("ease-out-cubic"@[9] == 'c');
    assert("ease-out-elastic"@[5] == 'o');
    assert("ease-out-expo"@[5] == 'o');
    assert("ease-out-expo"@[9] == 'e');
    assert("ease-out-quad"@[5] == 'o');
    assert("ease-out-quad"@[9] == 'q');
    assert("ease-out-quart"@[5] == 'o');
    assert("ease-out-quart"@[9] == 'q');
    assert("ease-out-quart"@[11] == 'a');
    assert("ease-out-quint"@[5] == 'o');
    assert("ease-out-quint"@[9] == 'q');
    assert("ease-out-quint"@[11] == 'i');
    assert("ease-out-sine"@[5] == 'o');
    assert("ease-out-sine"@[9] == 's');
}

} // verus!
