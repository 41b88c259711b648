//! Exact, verified building blocks of a flight-dynamics environment model.
//!
//! The standard atmosphere is a piecewise model: eight layers, each with its
//! own base height, temperature gradient, base temperature and base pressure.
//! `atmosphere` holds that table in exact integer units, decides which layer
//! a geopotential height falls into and which pressure law holds there.
//! `elementwise` maps a scalar function over a sequence of values, in order.
//! `algebra` states the attitude matrix of a quaternion and the velocity
//! transforms between an inertial and a turning frame as polynomials, and
//! proves when the matrix is a rotation and when the transforms undo each
//! other.
//!
//! Nothing here rounds: evaluation in floating point is left to the caller.

pub mod algebra;
pub mod atmosphere;
pub mod elementwise;
