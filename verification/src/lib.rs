//! Conway's Game of Life on two alternating grids, with the decisions of the
//! frame loop that drives it on a GPU: when a generation is due, which bind
//! group a dispatch or a draw uses, how a resize changes the presentation
//! configuration. Everything here works on plain values; the caller owns the
//! window and the device and performs what these functions decide.

pub mod rule;
pub mod grid;
pub mod simulation;
pub mod bindings;
pub mod app;
pub mod context;
pub mod runner;
pub mod shader;
