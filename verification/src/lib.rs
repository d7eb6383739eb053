//! Time-driven value animation: easing curves, cubic Bézier lookup tables,
//! spring parameter sets, and a pausable animation clock.
//!
//! The crate works on plain integer data. Timestamps and durations are
//! nanosecond counts; curve parameters that are IEEE 754 doubles elsewhere are
//! carried here as their 64-bit representations, so every decision the crate
//! makes (bracketing a sample table, validating a configuration map, advancing
//! the animation clock) is arithmetic on integers and can be specified exactly.
//!
//! A host drives an [`Animation`] by calling [`Animation::tick`] with a
//! monotonic timestamp on every frame. The tick reports the elapsed time on
//! the animation's own clock; the host maps it through the configured curve
//! and interpolates its values. Pausing freezes the animation clock by
//! shifting its origin under the wall clock, which is proved to leave the
//! elapsed time untouched.

use vstd::prelude::*;

pub mod config;
pub mod curve;

pub use curve::cubic::Curve as CubicCurve;
pub use curve::spring::Curve as SpringCurve;
pub use curve::AnimationCurve;
pub use curve::Easing;

verus! {

/// The state of an animation: either advancing with the clock or paused.
#[derive(Debug, Clone, Copy, PartialEq, Eq, Structural)]
pub enum AnimationState {
    /// The animation is running.
    Running,
    /// The animation is paused; ticks move the clock origin instead of the
    /// value.
    Paused,
}

impl AnimationState {
    /// The opposite state: pausing a running animation and vice versa.
    pub fn toggled(self) -> (r: AnimationState)
        ensures
            r == (match self {
                AnimationState::Running => AnimationState::Paused,
                AnimationState::Paused => AnimationState::Running,
            }),
    {
        match self {
            AnimationState::Running => AnimationState::Paused,
            AnimationState::Paused => AnimationState::Running,
        }
    }
}

/// One update a host may deliver to an animation.
#[derive(Debug, Clone, Copy, PartialEq, Eq, Structural)]
pub enum AnimationEvent {
    /// Advance the animation to the given monotonic timestamp, in
    /// nanoseconds.
    Tick(u64),
    /// Put the animation in the given state.
    SetState(AnimationState),
    /// The animation has finished. The driver ignores this; it exists for the
    /// host's own bookkeeping.
    Finished,
}

/// The clock and configuration of one animation.
///
/// Timestamps are nanoseconds of a monotonic clock; `duration` is a
/// nanosecond span. The value being animated lives with the host: this type
/// decides, from timestamps alone, how far along the animation is and when it
/// is finished. The well-formedness invariant [`Animation::wf`] — the last
/// tick never precedes the clock origin — is established by [`Animation::new`]
/// and preserved by every operation.
#[derive(Debug, Clone, Copy, PartialEq, Eq, Structural)]
pub struct Animation {
    /// Whether ticks advance the value or only the bookkeeping.
    pub state: AnimationState,
    /// The curve mapping elapsed time to progress.
    pub curve: AnimationCurve,
    /// Origin of the animation's own clock.
    pub started_at: u64,
    /// Timestamp of the most recent tick.
    pub last_tick: u64,
    /// Nominal length of the animation. For a spring curve this is the
    /// spring's own settling time, recorded when the curve is set.
    pub duration: u64,
}

impl Animation {
    /// The clock origin never lies after the most recent tick.
    pub open spec fn wf(self) -> bool {
        self.started_at <= self.last_tick
    }

    /// Time elapsed on the animation's own clock at the last tick.
    pub open spec fn spec_elapsed(self) -> int {
        self.last_tick - self.started_at
    }

    /// The animation counts as finished once the elapsed time has reached
    /// its duration.
    pub open spec fn spec_is_finished(self) -> bool {
        self.last_tick - self.started_at >= self.duration
    }

    /// The result of a tick at `now` while paused: the clock origin moves by
    /// exactly the wall time since the previous tick, in either direction, so
    /// the elapsed time stays frozen.
    pub open spec fn paused_tick(self, now: u64) -> Animation {
        Animation {
            started_at: (self.started_at + now - self.last_tick) as u64,
            last_tick: now,
            ..self
        }
    }

    /// The result of a tick at `now` while running: only the last-tick
    /// timestamp advances.
    pub open spec fn running_tick(self, now: u64) -> Animation {
        Animation { last_tick: now, ..self }
    }

    /// Create a running animation whose clock starts at `now`, with the
    /// default linear curve.
    pub fn new(now: u64, duration: u64) -> (r: Animation)
        ensures
            r == (Animation {
                state: AnimationState::Running,
                curve: AnimationCurve::Simple(Easing::Linear),
                started_at: now,
                last_tick: now,
                duration,
            }),
            r.wf(),
    {
        Animation {
            state: AnimationState::Running,
            curve: AnimationCurve::default(),
            started_at: now,
            last_tick: now,
            duration,
        }
    }

    /// Replace the state, leaving everything else unchanged.
    pub fn with_state(self, state: AnimationState) -> (r: Animation)
        ensures
            r == (Animation { state, ..self }),
    {
        Animation { state, ..self }
    }

    /// Set the state in place.
    pub fn set_state(&mut self, state: AnimationState)
        ensures
            *final(self) == (Animation { state, ..*old(self) }),
    {
        self.state = state;
    }

    /// Replace the duration, unless the curve is a spring: a spring's
    /// duration is fixed by its parameters, so the request is ignored.
    pub fn with_duration(self, duration: u64) -> (r: Animation)
        ensures
            r == (Animation {
                duration: if self.curve is Spring {
                    self.duration
                } else {
                    duration
                },
                ..self
            }),
    {
        if !(matches!(self.curve, AnimationCurve::Spring(_))) {
            Animation { duration, ..self }
        } else {
            self
        }
    }

    /// Set the duration in place, unless the curve is a spring.
    pub fn set_duration(&mut self, duration: u64)
        ensures
            *final(self) == (Animation {
                duration: if old(self).curve is Spring {
                    old(self).duration
                } else {
                    duration
                },
                ..*old(self)
            }),
    {
        if !(matches!(self.curve, AnimationCurve::Spring(_))) {
            self.duration = duration;
        }
    }

    /// Replace the curve. A spring dictates the animation's duration:
    /// `spring_duration` must then be the spring's settling time, in
    /// nanoseconds, and it overwrites the current duration. For any other
    /// curve the duration is kept and `spring_duration` is ignored.
    pub fn with_curve(self, curve: AnimationCurve, spring_duration: u64) -> (r: Animation)
        ensures
            r == (Animation {
                curve,
                duration: if curve is Spring {
                    spring_duration
                } else {
                    self.duration
                },
                ..self
            }),
    {
        if matches!(curve, AnimationCurve::Spring(_)) {
            Animation { curve, duration: spring_duration, ..self }
        } else {
            Animation { curve, ..self }
        }
    }

    /// Set the curve in place; see [`Animation::with_curve`].
    pub fn set_curve(&mut self, curve: AnimationCurve, spring_duration: u64)
        ensures
            *final(self) == (Animation {
                curve,
                duration: if curve is Spring {
                    spring_duration
                } else {
                    old(self).duration
                },
                ..*old(self)
            }),
    {
        if matches!(curve, AnimationCurve::Spring(_)) {
            self.duration = spring_duration;
        }
        self.curve = curve;
    }

    /// Restart the clock: both the origin and the last tick move to `now`.
    /// Values and state are untouched.
    pub fn restart(&mut self, now: u64)
        ensures
            *final(self) == (Animation { started_at: now, last_tick: now, ..*old(self) }),
            final(self).wf(),
    {
        self.started_at = now;
        self.last_tick = now;
    }

    /// Advance the animation to the monotonic timestamp `now`.
    ///
    /// While paused, the clock origin shifts by the wall time since the last
    /// tick — in either direction, to absorb out-of-order delivery — so the
    /// elapsed time is unchanged and no value update is due: the result is
    /// `None`. While running, the last tick moves to `now` and the result
    /// carries the elapsed time for the host to map through the curve.
    pub fn tick(&mut self, now: u64) -> (elapsed: Option<u64>)
        requires
            old(self).wf(),
            old(self).state is Paused ==> old(self).started_at + now >= old(self).last_tick,
            old(self).state is Paused ==> old(self).started_at + now - old(self).last_tick
                <= u64::MAX,
            old(self).state is Running ==> now >= old(self).started_at,
        ensures
            final(self).wf(),
            old(self).state is Paused ==> *final(self) == old(self).paused_tick(now) && elapsed
                is None,
            old(self).state is Running ==> *final(self) == old(self).running_tick(now) && elapsed
                == Some((now - old(self).started_at) as u64),
    {
        if self.state == AnimationState::Paused {
            if self.last_tick <= now {
                let delta: u64 = now - self.last_tick;
                self.started_at = self.started_at + delta;
            } else {
                let delta: u64 = self.last_tick - now;
                self.started_at = self.started_at - delta;
            }
            self.last_tick = now;
            None
        } else {
            let elapsed: u64 = now - self.started_at;
            self.last_tick = now;
            Some(elapsed)
        }
    }

    /// Apply one update event: a tick, a state change, or nothing for
    /// `Finished`.
    pub fn update(&mut self, event: AnimationEvent) -> (elapsed: Option<u64>)
        requires
            old(self).wf(),
            event matches AnimationEvent::Tick(now) ==> {
                &&& old(self).state is Paused ==> old(self).started_at + now >= old(
                    self,
                ).last_tick && old(self).started_at + now - old(self).last_tick <= u64::MAX
                &&& old(self).state is Running ==> now >= old(self).started_at
            },
        ensures
            final(self).wf(),
            match event {
                AnimationEvent::Tick(now) => {
                    &&& old(self).state is Paused ==> *final(self) == old(self).paused_tick(now)
                        && elapsed is None
                    &&& old(self).state is Running ==> *final(self) == old(self).running_tick(now)
                        && elapsed == Some((now - old(self).started_at) as u64)
                },
                AnimationEvent::SetState(state) => *final(self) == (Animation {
                    state,
                    ..*old(self)
                }) && elapsed is None,
                AnimationEvent::Finished => *final(self) == *old(self) && elapsed is None,
            },
    {
        match event {
            AnimationEvent::Tick(now) => self.tick(now),
            AnimationEvent::SetState(state) => {
                self.set_state(state);
                None
            },
            AnimationEvent::Finished => None,
        }
    }

    /// Whether the elapsed time has reached the duration.
    pub fn is_finished(&self) -> (r: bool)
        requires
            self.wf(),
        ensures
            r == self.spec_is_finished(),
    {
        self.last_tick - self.started_at >= self.duration
    }

    /// Time elapsed on the animation's own clock at the last tick, in
    /// nanoseconds. The numerator of the host's time progress.
    pub fn elapsed_nanos(&self) -> (r: u64)
        requires
            self.wf(),
        ensures
            r == self.spec_elapsed(),
    {
        self.last_tick - self.started_at
    }
}

/// Ticking a running animation at a timestamp at least `duration` past the
/// clock origin leaves the animation finished.
pub proof fn lemma_tick_reaches_finish(a: Animation, now: u64)
    requires
        a.wf(),
        now >= a.started_at,
        now - a.started_at >= a.duration,
    ensures
        a.running_tick(now).spec_is_finished(),
{
}

/// A paused tick never changes the elapsed time: the clock origin absorbs
/// exactly the wall time since the previous tick, whichever sign it has.
pub proof fn lemma_paused_tick_freezes_elapsed(a: Animation, now: u64)
    requires
        a.wf(),
        a.started_at + now >= a.last_tick,
        a.started_at + now - a.last_tick <= u64::MAX,
    ensures
        a.paused_tick(now).wf(),
        a.paused_tick(now).spec_elapsed() == a.spec_elapsed(),
        a.paused_tick(now).spec_is_finished() == a.spec_is_finished(),
{
}

/// After pausing from `a.last_tick` to `pause_end` and resuming, a tick at
/// `resume_now` sees the elapsed time the animation would have seen had it
/// never been paused and had the pause interval not existed: the clock origin
/// has shifted by exactly the paused wall duration.
pub proof fn lemma_pause_interval_absent(a: Animation, pause_end: u64, resume_now: u64)
    requires
        a.wf(),
        pause_end >= a.last_tick,
        a.started_at + pause_end - a.last_tick <= u64::MAX,
        resume_now >= pause_end,
    ensures
        resume_now - a.paused_tick(pause_end).started_at == (resume_now - (pause_end
            - a.last_tick)) - a.started_at,
{
}

} // verus!
