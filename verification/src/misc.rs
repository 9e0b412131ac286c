//! Numbers, vectors and the other small values that the rest is built from,
//! and the integrator's bookkeeping.

pub mod color;
pub mod decimal;
pub mod default_rand_gen;
pub mod hit_record;
pub mod ray;
pub mod scalar;
pub mod scene;
pub mod tracer;
pub mod vector;
