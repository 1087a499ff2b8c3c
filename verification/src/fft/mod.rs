//! Host-side planning of dense complex FFTs.

pub mod geometry;
pub mod kernel;
pub mod plan;
pub mod schedule;
pub mod strategy;
