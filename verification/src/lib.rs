//! A falling-block puzzle: the pieces and how they turn, the board and its
//! full rows, the piece in play, and the stack of scenes that leads a round
//! from the start screen to the game-over screen.

pub mod block;
pub mod board;
pub mod config;
pub mod factory;
pub mod game;
pub mod host;
pub mod record;
pub mod scene;
pub mod square;
pub mod states;
pub mod utils;
