//! A Conway's Game of Life engine on a fixed-size toroidal grid: a
//! double-buffered generation step under the standard rule, a poll-based
//! rate limiter, and packed RGBA rendering of the visible generation, all
//! with verified contracts. Window creation and frame presentation are left
//! to an outside display layer that polls the engine once per frame.

pub mod engine;
pub mod grid;
pub mod pixels;
pub mod step;
