// Decision and packing logic of a Monte-Carlo path tracer for scenes of spheres:
// the rays' carrier type, the depth-bounded step of the radiance estimate, and the
// conversion of scaled channels to a 24-bit colour.

pub mod color;
pub mod integrator;
pub mod ray;
