//! Bounding volumes.

pub mod aabb;
