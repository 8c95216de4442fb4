//! The decisions of the light-transport integrator.
//!
//! The integrator follows a ray through the scene: while bounces are left it
//! looks at what the ray meets, and either stops (black, or the sky behind)
//! or goes on with the scattered ray and one bounce fewer. The colour
//! arithmetic that goes with each outcome happens where the colours are kept.
use vstd::prelude::*;

verus! {

/// What one look at the scene showed for a ray; `S` is what a scattering
/// surface hands on (the attenuation and the outgoing ray).
pub enum Probe<S> {
    /// The ray meets nothing: the sky shows.
    Missed,
    /// The ray meets a surface that takes it in.
    Absorbed,
    /// The ray meets a surface that sends it on.
    Scattered(S),
}

/// What the integrator does next.
pub enum Step<S> {
    /// The ray contributes nothing.
    Black,
    /// The ray shows the sky.
    Sky,
    /// Trace the scattered ray with the given number of bounces left, and
    /// attenuate what it returns.
    Bounce(u16, S),
}

/// The step that follows a look at the scene with `depth` bounces left.
pub open spec fn step_after<S>(depth: u16, probe: Probe<S>) -> Step<S> {
    match probe {
        Probe::Missed => Step::Sky,
        Probe::Absorbed => Step::Black,
        Probe::Scattered(s) => Step::Bounce((depth - 1) as u16, s),
    }
}

/// One level of the integrator. With no bounces left the ray is black and
/// `probe` is never asked; otherwise `probe` looks at the scene once, and a
/// scattered ray goes on with one bounce fewer.
pub fn next_step<S, F: FnOnce() -> Probe<S>>(depth: u16, probe: F) -> (r: Step<S>)
    requires
        depth > 0 ==> probe.requires(()),
    ensures
        depth == 0 ==> r == Step::<S>::Black,
        depth > 0 ==> exists|p: Probe<S>| probe.ensures((), p) && r == step_after(depth, p),
{
    if depth == 0 {
        return Step::Black;
    }
    let seen = probe();
    let ghost observed = seen;
    let r = match seen {
        Probe::Missed => Step::Sky,
        Probe::Absorbed => Step::Black,
        Probe::Scattered(s) => Step::Bounce(depth - 1, s),
    };
    assert(probe.ensures((), observed) && r == step_after(depth, observed));
    r
}

} // verus!
