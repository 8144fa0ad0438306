//! The one motion module.
//!
//! The toolkit owns page and dialog transitions. What the application adds is
//! at most one transition per change, from the two durations below, and zero
//! when the platform asks for reduced motion.

use vstd::prelude::*;

verus! {

/// Moving from one surface to another.
pub const NAVIGATION_MS: u32 = 200;
/// Crossing one piece of content over another in place.
pub const CROSSFADE_MS: u32 = 150;

/// The two transitions the application is allowed to add.
#[derive(Clone, Copy, Debug, PartialEq, Eq, Structural)]
pub enum Transition {
    /// Navigation between surfaces.
    Navigation,
    /// A state crossfade in place.
    Crossfade,
}

/// How long a transition runs when animation is allowed.
pub open spec fn nominal(transition: Transition) -> u32 {
    match transition {
        Transition::Navigation => NAVIGATION_MS,
        Transition::Crossfade => CROSSFADE_MS,
    }
}

/// How long a transition runs when animation is allowed.
pub fn nominal_ms(transition: Transition) -> (ms: u32)
    ensures
        ms == nominal(transition),
{
    match transition {
        Transition::Navigation => NAVIGATION_MS,
        Transition::Crossfade => CROSSFADE_MS,
    }
}

/// How long a transition runs, with the platform's answer on animation
/// supplied: zero under reduced motion, the nominal duration otherwise.
pub fn duration_ms_when(animations_enabled: bool, transition: Transition) -> (ms: u32)
    ensures
        ms == if animations_enabled { nominal(transition) } else { 0 },
{
    if !animations_enabled {
        return 0;
    }
    nominal_ms(transition)
}

/// Every transition the application adds runs for some time while motion is
/// allowed, so a zero duration means reduced motion and nothing else.
pub proof fn every_nominal_duration_is_positive()
    ensures
        forall|t: Transition| #[trigger] nominal(t) > 0,
{
}

} // verus!
