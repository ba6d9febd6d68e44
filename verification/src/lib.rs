//! Targeting and attitude controller for a mobile agent in a 2D kinematic
//! world: finite-difference estimation of an observed target's motion, a
//! ballistic intercept solve, an acceleration-corrected aim point, a
//! proportional-derivative heading servo, and a search/track sensor policy.
//!
//! All quantities are fixed-point integers: positions and velocities in
//! thousandths of a unit, angles in millionths of a radian, time in
//! milliseconds. The host shell converts to and from the environment's
//! floating-point interface.

pub mod angle;
pub mod differencer;
pub mod fixed;
pub mod ship;
pub mod solver;
pub mod vec2;

pub use vec2::Vec2;
