//! The scenes of the game.

pub mod over;
pub mod play;
pub mod start;
