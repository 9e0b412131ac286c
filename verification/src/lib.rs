//! Verified core of a stochastic path tracer.
//!
//! Real numbers are single-precision IEEE-754 values.  The library never
//! computes with them: it stores them as bit patterns (see
//! [`misc::scalar::Scalar`]), orders them, and decides on them.  The
//! arithmetic of rays, surfaces and colours belongs to the caller, who hands
//! its results in as plain values, as closures, or as surfaces of its own that
//! implement [`hittables::hittable::Hittable`].
//!
//! * [`misc`]: numbers, vectors, rays, hit records, the integrator's
//!   bookkeeping.
//! * [`hittables`]: what counts as a hit for each kind of surface, and the
//!   nearest hit among many.
//! * [`materials`]: what each material decides when a ray arrives.
//! * [`image`]: image buffers, copies between them, and export as text.
//! * [`scene`]: the description of a scene and the building of one.
//! * [`thread_pool`]: the rules of a tracing worker and the merging of its
//!   results.

pub mod hittables;
pub mod image;
pub mod materials;
pub mod misc;
pub mod scene;
pub mod thread_pool;
