//! What each kind of material does with a ray that reaches it.
//!
//! The directions and colours are computed where the vectors are kept; the
//! choices between absorbing, reflecting and refracting are made here.
use vstd::prelude::*;

verus! {

/// The outcome of a ray meeting a material.
#[derive(Clone, Copy, PartialEq, Eq, Structural, Debug)]
pub enum Scatter {
    /// The ray is taken in and contributes nothing further.
    Absorbed,
    /// The ray leaves in a random direction about the normal.
    Diffused,
    /// The ray leaves as a mirror reflection (possibly perturbed).
    Reflected,
    /// The ray passes into or out of the material, bent by Snell's law.
    Refracted,
}

impl Scatter {
    /// Whether a ray goes on from the surface.
    pub fn goes_on(&self) -> (b: bool)
        ensures
            b == !(*self is Absorbed),
    {
        !matches!(self, Scatter::Absorbed)
    }
}

/// A stand-in material that absorbs every ray.
#[derive(Clone, Copy, Debug)]
pub struct MaterialMock;

impl MaterialMock {
    pub fn scatter(&self) -> (r: Scatter)
        ensures
            r == Scatter::Absorbed,
    {
        Scatter::Absorbed
    }
}

/// A diffuse surface always sends the ray on; it never absorbs it.
pub fn lambertian_outcome() -> (r: Scatter)
    ensures
        r == Scatter::Diffused,
{
    Scatter::Diffused
}

/// A metal reflects the ray when the (fuzzed) reflection leaves the surface,
/// that is when its dot product with the normal is positive, and absorbs it
/// otherwise.
pub fn metal_outcome(leaves_surface: bool) -> (r: Scatter)
    ensures
        r == (if leaves_surface {
            Scatter::Reflected
        } else {
            Scatter::Absorbed
        }),
{
    if leaves_surface {
        Scatter::Reflected
    } else {
        Scatter::Absorbed
    }
}

/// Glass never absorbs. Where Snell's law has no solution (total internal
/// reflection) the ray reflects; otherwise one random draw decides, and the
/// ray reflects when the draw falls below the Schlick reflectance. The draw
/// is made only when it is needed.
pub fn dielectric_outcome<F: FnOnce() -> bool>(cannot_refract: bool, draw_reflects: F) -> (r:
    Scatter)
    requires
        !cannot_refract ==> draw_reflects.requires(()),
    ensures
        cannot_refract ==> r == Scatter::Reflected,
        !cannot_refract ==> exists|b: bool|
            draw_reflects.ensures((), b) && r == (if b {
                Scatter::Reflected
            } else {
                Scatter::Refracted
            }),
        r != Scatter::Absorbed,
{
    if cannot_refract || draw_reflects() {
        Scatter::Reflected
    } else {
        Scatter::Refracted
    }
}

} // verus!
