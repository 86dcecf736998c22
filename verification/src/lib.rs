//! A minimal real-time 3D rendering library: a first-person fly camera driven
//! by keyboard and mouse state, a fixed instance grid, mesh/material assembly,
//! and the frame lifecycle (surface configuration, depth target recreation on
//! resize, per-frame uniform upload, draw submission planning).
//!
//! Continuous quantities (positions, angles, speeds) are held in fixed-point
//! form: a value of one unit is stored as `SCALE` millionths. The embedding
//! application converts between these and the floating-point values that the
//! GPU consumes.

use vstd::prelude::*;

pub mod bytes;
pub mod camera;
pub mod fixed;
pub mod gpu;
pub mod instance;
pub mod model;
pub mod state;
pub mod texture;
pub mod vertex;

verus! {

/// Number of fixed-point ticks per whole unit (one millionth of a unit each).
pub const SCALE: i64 = 1_000_000;

} // verus!
