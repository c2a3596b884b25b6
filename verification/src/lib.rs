//! Acoustic design model for a cylindrical flute-like bore with tone holes.
//!
//! All physical dimensions are carried as fixed-point integers:
//! lengths and radii in micro-centimetres (1 cm = 1_000_000 units),
//! frequencies in millihertz (1 Hz = 1_000 units).  The floating-point
//! impedance evaluation that refines a pitch estimate lives outside this
//! library; everything here is exact integer logic with proved contracts.

pub mod geometry;
pub mod model;
pub mod pitch;

pub use model::Flute;
pub use model::FluteError;
pub use model::Hole;
