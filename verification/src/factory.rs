//! Where new pieces come from.

use vstd::prelude::*;
use crate::block::Block;
use crate::utils::{Orientation, Position, Shape};

verus! {

/// The column in which the bitmap of a new piece has its left edge: the
/// bitmap stands in the middle of the board.
pub const SPAWN_COLUMN: i32 = 3;

/// The row in which the bitmap of a new piece has its top edge.
pub const SPAWN_ROW: i32 = 0;

/// The piece of the given shape as it enters the board: at the top, in the
/// middle, turned up, in the colour of its shape.
pub open spec fn spawned(shape: Shape) -> Block {
    Block {
        shape,
        orientation: Orientation::Up,
        position: Position { x: SPAWN_COLUMN, y: SPAWN_ROW },
        color: shape.spec_color(),
    }
}

/// A maker of pieces.
pub trait Factory {
    /// A new piece of the given shape. It is made whatever lies on the board
    /// where it enters.
    fn create(shape: Shape) -> (block: Block)
        ensures
            block == spawned(shape),
    ;
}

/// The maker of the pieces of the game.
pub struct Piece;

impl Factory for Piece {
    fn create(shape: Shape) -> (block: Block) {
        Block {
            shape,
            orientation: Orientation::Up,
            position: Position::new(SPAWN_COLUMN, SPAWN_ROW),
            color: shape.color(),
        }
    }
}

} // verus!
