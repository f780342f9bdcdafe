use vstd::prelude::*;

verus! {

/// What tracing one ray into the scene found.
#[derive(Clone, Copy, Debug, PartialEq, Eq, Structural)]
pub enum Surface {
    /// No primitive was hit: the ray sees the sky.
    Missed,
    /// A primitive was hit and its material absorbed the ray.
    Absorbed,
    /// A primitive was hit and its material scattered the ray onwards.
    Scattered,
}

/// What the integrator makes of one ray.
#[derive(Clone, Copy, Debug, PartialEq, Eq, Structural)]
pub enum Step {
    /// The ray contributes no light.
    Black,
    /// The ray contributes the sky gradient along its direction.
    Sky,
    /// The ray's color is the material's attenuation times the color of the
    /// scattered ray, traced with the bounce budget `depth`.
    Bounce { depth: u32 },
}

/// The integrator's rule for a ray traced with bounce budget `depth`: an
/// exhausted budget gathers no light, whatever the scene holds; otherwise a
/// miss sees the sky, an absorption is black, and a scatter goes on with one
/// bounce fewer.
pub open spec fn step_of(depth: nat, surface: Surface) -> Step {
    if depth == 0 {
        Step::Black
    } else {
        match surface {
            Surface::Missed => Step::Sky,
            Surface::Absorbed => Step::Black,
            Surface::Scattered => Step::Bounce { depth: (depth - 1) as u32 },
        }
    }
}

/// Decides what becomes of a ray traced with bounce budget `depth`, given
/// what the scene and the hit material reported for it.
pub fn next_step(depth: u32, surface: Surface) -> (r: Step)
    ensures
        r == step_of(depth as nat, surface),
        depth == 0 ==> r == Step::Black,
{
    if depth == 0 {
        return Step::Black;
    }
    match surface {
        Surface::Missed => Step::Sky,
        Surface::Absorbed => Step::Black,
        Surface::Scattered => Step::Bounce { depth: depth - 1 },
    }
}

/// The number of bounces a path takes when its rays meet `events` in turn,
/// starting with budget `depth`.
pub open spec fn bounces(depth: nat, events: Seq<Surface>) -> nat
    decreases events.len(),
{
    if events.len() == 0 {
        0
    } else {
        match step_of(depth, events[0]) {
            Step::Bounce { depth: d } => 1 + bounces(d as nat, events.drop_first()),
            _ => 0,
        }
    }
}

/// A path never bounces more often than its starting budget allows, whatever
/// its rays meet: the recursion of the integrator is bounded by the budget.
pub proof fn lemma_bounces_bounded(depth: nat, events: Seq<Surface>)
    requires
        depth <= u32::MAX,
    ensures
        bounces(depth, events) <= depth,
    decreases events.len(),
{
    if events.len() > 0 {
        match step_of(depth, events[0]) {
            Step::Bounce { depth: d } => {
                lemma_bounces_bounded(d as nat, events.drop_first());
            },
            _ => {},
        }
    }
}

} // verus!
