//! The rendering kernel of a Monte-Carlo path tracer for scenes of spheres:
//! which surface a ray hits, what its material does with it, and how the
//! integrator goes on, together with the encoding of the finished image.
pub mod hit;
pub mod integrator;
pub mod material;
pub mod ppm;
pub mod scene;
