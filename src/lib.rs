//! Integer side of a small path tracer: 8-bit pixel colours, their PPM
//! text form, and the bounded bounce walk that drives the integrator.
pub mod color;
pub mod ppm;
pub mod trace;
