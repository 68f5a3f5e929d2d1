//! Conway's Game of Life: a fixed-size board with clamped edges, and the
//! two-mode controller (editing and running) that drives it.
use vstd::prelude::*;

pub mod config;
pub mod grid;
pub mod mapping;
pub mod sim;

verus! {

} // verus!
