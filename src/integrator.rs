//! The recursive colour estimator, as one decision per bounce.
use vstd::prelude::*;

verus! {

/// The fixed bound on the number of bounces a path may take.
pub const MAX_DEPTH: u32 = 50;

/// What happened to the ray at the current bounce.
#[derive(Clone, Copy, Debug, PartialEq, Eq, Structural)]
pub enum Event {
    /// The ray hit nothing in the scene.
    Miss,
    /// The ray hit an object whose material absorbed it.
    Absorbed,
    /// The ray hit an object whose material sent out a continuation ray.
    Scattered,
}

/// What the estimator does with that event.
#[derive(Clone, Copy, Debug, PartialEq, Eq, Structural)]
pub enum Step {
    /// Return the sky gradient for the ray's direction.
    Background,
    /// Return black.
    Black,
    /// Multiply the attenuation by the estimate of the continuation ray, one
    /// bounce deeper.
    Continue,
}

pub open spec fn step_spec(depth: int, max_depth: int, event: Event) -> Step {
    match event {
        Event::Miss => Step::Background,
        Event::Scattered => if depth < max_depth { Step::Continue } else { Step::Black },
        Event::Absorbed => Step::Black,
    }
}

/// The estimator's decision at bounce `depth`: a miss ends the path on the
/// background; a hit continues only below `max_depth` and only if the material
/// scattered, and ends on black otherwise.
pub fn trace_step(depth: u32, max_depth: u32, event: Event) -> (r: Step)
    ensures
        r == step_spec(depth as int, max_depth as int, event),
{
    match event {
        Event::Miss => Step::Background,
        Event::Scattered => if depth < max_depth {
            Step::Continue
        } else {
            Step::Black
        },
        Event::Absorbed => Step::Black,
    }
}

/// With a bound of zero bounces nothing scatters: every hit gives black and
/// every miss the background.
pub proof fn lemma_zero_depth_never_bounces(depth: u32, event: Event)
    ensures
        step_spec(depth as int, 0, event) == (if event == Event::Miss {
            Step::Background
        } else {
            Step::Black
        }),
{
}

} // verus!
