//! The occupancy bitmaps of the seven pieces.

use vstd::prelude::*;

verus! {

/// One 4×4 bitmap: `grid[row][column]` is 1 where the piece has a cell.
pub type Grid = [[u8; 4]; 4];

/// The bitmaps of every piece: four per piece, one for each orientation in
/// the order up, right, down, left; the pieces in the order L, J, T, I, Z, S, O.
pub const SQUARE: [[[[u8; 4]; 4]; 4]; 7] = [
    [
        [[0, 0, 1, 0], [1, 1, 1, 0], [0, 0, 0, 0], [0, 0, 0, 0]],
        [[0, 1, 0, 0], [0, 1, 0, 0], [0, 1, 1, 0], [0, 0, 0, 0]],
        [[0, 0, 0, 0], [1, 1, 1, 0], [1, 0, 0, 0], [0, 0, 0, 0]],
        [[1, 1, 0, 0], [0, 1, 0, 0], [0, 1, 0, 0], [0, 0, 0, 0]],
    ],
    [
        [[1, 0, 0, 0], [1, 1, 1, 0], [0, 0, 0, 0], [0, 0, 0, 0]],
        [[0, 1, 1, 0], [0, 1, 0, 0], [0, 1, 0, 0], [0, 0, 0, 0]],
        [[0, 0, 0, 0], [1, 1, 1, 0], [0, 0, 1, 0], [0, 0, 0, 0]],
        [[0, 1, 0, 0], [0, 1, 0, 0], [1, 1, 0, 0], [0, 0, 0, 0]],
    ],
    [
        [[0, 1, 0, 0], [1, 1, 1, 0], [0, 0, 0, 0], [0, 0, 0, 0]],
        [[0, 1, 0, 0], [0, 1, 1, 0], [0, 1, 0, 0], [0, 0, 0, 0]],
        [[0, 0, 0, 0], [1, 1, 1, 0], [0, 1, 0, 0], [0, 0, 0, 0]],
        [[0, 1, 0, 0], [1, 1, 0, 0], [0, 1, 0, 0], [0, 0, 0, 0]],
    ],
    [
        [[0, 0, 0, 0], [1, 1, 1, 1], [0, 0, 0, 0], [0, 0, 0, 0]],
        [[0, 0, 1, 0], [0, 0, 1, 0], [0, 0, 1, 0], [0, 0, 1, 0]],
        [[0, 0, 0, 0], [0, 0, 0, 0], [1, 1, 1, 1], [0, 0, 0, 0]],
        [[0, 1, 0, 0], [0, 1, 0, 0], [0, 1, 0, 0], [0, 1, 0, 0]],
    ],
    [
        [[1, 1, 0, 0], [0, 1, 1, 0], [0, 0, 0, 0], [0, 0, 0, 0]],
        [[0, 0, 1, 0], [0, 1, 1, 0], [0, 1, 0, 0], [0, 0, 0, 0]],
        [[0, 0, 0, 0], [1, 1, 0, 0], [0, 1, 1, 0], [0, 0, 0, 0]],
        [[0, 1, 0, 0], [1, 1, 0, 0], [1, 0, 0, 0], [0, 0, 0, 0]],
    ],
    [
        [[0, 1, 1, 0], [1, 1, 0, 0], [0, 0, 0, 0], [0, 0, 0, 0]],
        [[0, 1, 0, 0], [0, 1, 1, 0], [0, 0, 1, 0], [0, 0, 0, 0]],
        [[0, 0, 0, 0], [0, 1, 1, 0], [1, 1, 0, 0], [0, 0, 0, 0]],
        [[1, 0, 0, 0], [1, 1, 0, 0], [0, 1, 0, 0], [0, 0, 0, 0]],
    ],
    [
        [[0, 1, 1, 0], [0, 1, 1, 0], [0, 0, 0, 0], [0, 0, 0, 0]],
        [[0, 1, 1, 0], [0, 1, 1, 0], [0, 0, 0, 0], [0, 0, 0, 0]],
        [[0, 1, 1, 0], [0, 1, 1, 0], [0, 0, 0, 0], [0, 0, 0, 0]],
        [[0, 1, 1, 0], [0, 1, 1, 0], [0, 0, 0, 0], [0, 0, 0, 0]],
    ],
];

/// Whether `grid` has a cell at `row`, `column`; nothing lies outside the 4×4 box.
pub open spec fn occupied(grid: Grid, row: int, column: int) -> bool {
    0 <= row < 4 && 0 <= column < 4 && grid[row][column] != 0
}

/// How many of the four cells of one row are occupied.
pub open spec fn row_population(grid: Grid, row: int) -> int {
    (if occupied(grid, row, 0) { 1int } else { 0 })
    + (if occupied(grid, row, 1) { 1int } else { 0 })
    + (if occupied(grid, row, 2) { 1int } else { 0 })
    + (if occupied(grid, row, 3) { 1int } else { 0 })
}

/// How many of the sixteen cells of `grid` are occupied.
pub open spec fn population(grid: Grid) -> int {
    row_population(grid, 0) + row_population(grid, 1) + row_population(grid, 2)
        + row_population(grid, 3)
}

/// Every bitmap of the table marks exactly four cells, each with a 1.
pub proof fn every_bitmap_has_four_cells(piece: int, turn: int)
    requires
        0 <= piece < 7,
        0 <= turn < 4,
    ensures
        population(SQUARE[piece][turn]) == 4,
        forall|row: int, column: int|
            0 <= row < 4 && 0 <= column < 4 ==> (#[trigger] SQUARE[piece][turn][row][column] == 0
                || SQUARE[piece][turn][row][column] == 1),
{
}

} // verus!
