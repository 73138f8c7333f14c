//! Per-frame update core of a pointer-reactive 2D particle simulation.
//!
//! Particles live in one flat buffer, five values per particle
//! (`x, y, vx, vy, slot`), and advance one frame per `tick` under the
//! active behaviour mode.
use vstd::prelude::*;

pub mod config;
pub mod engine;
pub mod scalar;

verus! {

} // verus!
