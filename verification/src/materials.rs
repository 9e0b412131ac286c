//! Surface materials: what each is made of, and what each decides when a ray
//! arrives.

pub mod emission;
pub mod lambertian;
pub mod material;
pub mod reflective;
pub mod refractive;
