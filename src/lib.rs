//! A two-dimensional particle emitter simulated in exact integer arithmetic.
//!
//! Lengths are measured in micro-pixels and time in milliseconds, so that
//! velocities are micro-pixels per millisecond and accelerations are
//! micro-pixels per square millisecond. Every step of the simulation is then
//! exact: one pixel per second is `1_000` units of velocity, and a gravity of
//! one hundred pixels per square second is `100` units of acceleration.
use vstd::prelude::*;

pub mod vector;
pub mod particle;
pub mod system;
pub mod laws;
mod random;

verus! {

} // verus!
