//! A verified core for a minimal Pong-style game.
//!
//! All coordinates are fixed-point integers with 1000 units per world unit,
//! so the geometry, paddle movement, enemy tracking and ball reset logic can
//! be stated and proved exactly.

pub mod arena;
pub mod collision;
pub mod game;
pub mod geometry;
pub mod laws;
pub mod motion;
