//! Core of a small 2D side-scrolling platformer: a fixed-timestep rigid-body
//! world with axis-aligned box colliders, contact classification (ground vs.
//! side contacts), a platform factory, and a platformer movement controller
//! (run, variable-height jump, gravity shaping).
//!
//! All quantities are fixed-point integers in micro-units: one simulation
//! unit is `SCALE` (1_000_000). Positions and velocities live in a bounded
//! simulation domain (`COORD_LIMIT`); every write clamps or requires values
//! inside it, so the arithmetic is proved free of overflow.

pub mod game;
pub mod gfx;
pub mod physics;
pub mod platform;
pub mod player;
pub mod scenes;
pub mod util;
pub mod world;
