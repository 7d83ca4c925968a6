//! The piece in play.

use vstd::prelude::*;
use crate::board::{Board, Row, COLUMNS, ROWS, inside};
use crate::square::{Grid, occupied, population, row_population};
use crate::host::Paint;
use crate::utils::{
    Color, Direction, Orientation, Position, Shape, Tetromino, every_shape_has_four_cells,
};

verus! {

/// The topmost row in which a piece can come to rest.
pub const TOP_ROW: i32 = 0;

/// Whether a piece cannot have a cell in column `x` of row `y`: the column
/// lies off the board to the left or right, the row lies below the floor, or
/// the cell is locked. The space above the board is free.
pub open spec fn blocked(rows: Seq<Row>, x: int, y: int) -> bool {
    x < 0 || x >= COLUMNS || y >= ROWS || (0 <= y && rows[y][x].is_some())
}

/// Whether the cell in column `x` of row `y` is a locked cell of the board
/// at or above the topmost row.
pub open spec fn stacked(rows: Seq<Row>, x: int, y: int) -> bool {
    0 <= x < COLUMNS && 0 <= y <= TOP_ROW && rows[y][x].is_some()
}

/// Whether a piece with the bitmap `grid`, set down with the corner of the
/// bitmap in column `x` of row `y`, has a cell where it cannot be.
pub open spec fn collision(grid: Grid, x: int, y: int, rows: Seq<Row>) -> bool {
    exists|row: int, column: int| #[trigger]
        occupied(grid, row, column) && blocked(rows, x + column, y + row)
}

/// The cells of `grid` among its first `n` in reading order, as cells of the
/// grid of the board when the corner of the bitmap lies at column `x` of row
/// `y`; with `clipped`, only those of them that lie on the board.
pub open spec fn cells_before(grid: Grid, x: int, y: int, n: int, clipped: bool) -> Seq<Position>
    decreases n,
{
    if n <= 0 {
        Seq::empty()
    } else {
        let rest = cells_before(grid, x, y, n - 1, clipped);
        if marked(grid, x, y, n - 1, clipped) {
            rest.push(cell_under(x, y, n - 1))
        } else {
            rest
        }
    }
}

/// Whether the cell `k` of `grid`, in reading order, is occupied and, with
/// `clipped`, lies on the board when the corner of the bitmap lies at column
/// `x` of row `y`.
pub open spec fn marked(grid: Grid, x: int, y: int, k: int, clipped: bool) -> bool {
    occupied(grid, k / 4, k % 4) && (clipped ==> 0 <= x + k % 4 < COLUMNS && 0 <= y + k / 4
        < ROWS)
}

/// The cell of the grid of the board under the cell `k` of a bitmap, in
/// reading order, when the corner of the bitmap lies at column `x` of row `y`.
pub open spec fn cell_under(x: int, y: int, k: int) -> Position {
    Position { x: (x + k % 4) as i32, y: (y + k / 4) as i32 }
}

proof fn lemma_cells_before(
    grid: Grid,
    x: int,
    y: int,
    n: int,
    clipped: bool,
    position: Position,
)
    requires
        0 <= n <= 16,
    ensures
        cells_before(grid, x, y, n, clipped).contains(position) <==> exists|k: int|
            0 <= k < n && marked(grid, x, y, k, clipped) && #[trigger] cell_under(x, y, k)
                == position,
    decreases n,
{
    if n > 0 {
        lemma_cells_before(grid, x, y, n - 1, clipped, position);
        let rest = cells_before(grid, x, y, n - 1, clipped);
        let all = cells_before(grid, x, y, n, clipped);
        let k = n - 1;
        if marked(grid, x, y, k, clipped) {
            assert(all == rest.push(cell_under(x, y, k)));
            assert forall|p: Position| all.contains(p) <==> (rest.contains(p) || p == cell_under(
                x,
                y,
                k,
            )) by {
                if rest.contains(p) {
                    let i = choose|i: int| 0 <= i < rest.len() && rest[i] == p;
                    assert(all[i] == p);
                }
                if p == cell_under(x, y, k) {
                    assert(all[rest.len() as int] == p);
                }
            }
        }
    }
}

/// How many of the first `n` cells of `grid` in reading order are occupied.
spec fn marks_before(grid: Grid, n: int) -> int
    decreases n,
{
    if n <= 0 {
        0
    } else {
        marks_before(grid, n - 1) + if occupied(grid, (n - 1) / 4, (n - 1) % 4) {
            1int
        } else {
            0
        }
    }
}

proof fn lemma_marks_are_the_population(grid: Grid)
    ensures
        marks_before(grid, 16) == population(grid),
{
    assert(marks_before(grid, 4) == row_population(grid, 0)) by {
        reveal_with_fuel(marks_before, 5);
    }
    assert(marks_before(grid, 8) == marks_before(grid, 4) + row_population(grid, 1)) by {
        reveal_with_fuel(marks_before, 5);
    }
    assert(marks_before(grid, 12) == marks_before(grid, 8) + row_population(grid, 2)) by {
        reveal_with_fuel(marks_before, 5);
    }
    assert(marks_before(grid, 16) == marks_before(grid, 12) + row_population(grid, 3)) by {
        reveal_with_fuel(marks_before, 5);
    }
}

proof fn lemma_cells_whole(grid: Grid, x: int, y: int, n: int)
    requires
        0 <= n,
        forall|k: int| 0 <= k < n ==> marked(grid, x, y, k, true) == marked(grid, x, y, k, false),
    ensures
        cells_before(grid, x, y, n, true) == cells_before(grid, x, y, n, false),
    decreases n,
{
    if n > 0 {
        lemma_cells_whole(grid, x, y, n - 1);
    }
}

proof fn lemma_cells_are_the_marks(grid: Grid, x: int, y: int, n: int)
    requires
        0 <= n,
    ensures
        cells_before(grid, x, y, n, false).len() == marks_before(grid, n),
    decreases n,
{
    if n > 0 {
        lemma_cells_are_the_marks(grid, x, y, n - 1);
    }
}

/// The piece in play: a shape, the way it is turned, the cell where the top
/// left corner of its bitmap lies, and its colour.
#[derive(Clone, Copy, Debug, PartialEq, Eq, Structural)]
pub struct Block {
    pub shape: Shape,
    pub orientation: Orientation,
    pub position: Position,
    pub color: Color,
}

impl Block {
    /// The bitmap that shows the piece as it is turned now.
    pub open spec fn grid(self) -> Grid {
        self.shape.grid(self.orientation)
    }

    /// The piece moved to the column `x` and the row `y`.
    pub open spec fn placed(self, x: int, y: int) -> Block {
        Block { position: Position { x: x as i32, y: y as i32 }, ..self }
    }

    /// Whether the piece has a cell at `position`.
    pub open spec fn covers(self, position: Position) -> bool {
        occupied(self.grid(), position.y - self.position.y, position.x - self.position.x)
    }

    /// Whether the piece, moved to the row `y`, has a cell where it cannot be.
    pub open spec fn collides_at(self, board: Board, y: int) -> bool {
        collision(self.grid(), self.position.x as int, y, board@)
    }

    /// Whether the piece has a cell off the board to the left or right,
    /// below the floor, or on a locked cell.
    pub open spec fn spec_collides(self, board: Board) -> bool {
        self.collides_at(board, self.position.y as int)
    }

    /// Whether one more step down would bring a cell of the piece to the
    /// floor or past it.
    pub open spec fn spec_has_landed(self) -> bool {
        exists|row: int, column: int| #[trigger]
            occupied(self.grid(), row, column) && self.position.y + row + 1 >= ROWS
    }

    /// Whether the piece lies on a locked cell at or above the topmost row.
    pub open spec fn spec_has_stacked(self, board: Board) -> bool {
        exists|row: int, column: int| #[trigger]
            occupied(self.grid(), row, column) && stacked(
                board@,
                self.position.x + column,
                self.position.y + row,
            )
    }

    /// The row in which the piece comes to rest when it falls from the row
    /// `y` one step at a time: the first row from which one more step down
    /// would collide.
    pub open spec fn resting_row(self, board: Board, y: int) -> int
        decreases ROWS - y,
    {
        if self.collides_at(board, y + 1) {
            y
        } else {
            proof {
                self.lemma_free_above_floor(board, y + 1);
            }
            self.resting_row(board, y + 1)
        }
    }

    /// Whether the coordinates of the corner leave room for the bitmap.
    pub open spec fn in_range(self) -> bool {
        self.position.x <= i32::MAX - 3 && self.position.y <= i32::MAX - 3
    }

    /// The cells of the board that the piece occupies, in reading order.
    pub open spec fn spec_positions(self) -> Seq<Position> {
        cells_before(self.grid(), self.position.x as int, self.position.y as int, 16, false)
    }

    /// The cells of the piece that lie on the board, in reading order.
    pub open spec fn spec_footprint(self) -> Seq<Position> {
        cells_before(self.grid(), self.position.x as int, self.position.y as int, 16, true)
    }

    /// From the row `y` the piece falls to a row that is not above `y`, that
    /// is above the floor unless it is `y` itself, and from which the next
    /// step down collides.
    pub proof fn lemma_resting_row(self, board: Board, y: int)
        ensures
            y <= self.resting_row(board, y),
            self.resting_row(board, y) == y || self.resting_row(board, y) < ROWS,
            self.collides_at(board, self.resting_row(board, y) + 1),
        decreases ROWS - y,
    {
        if !self.collides_at(board, y + 1) {
            self.lemma_free_above_floor(board, y + 1);
            self.lemma_resting_row(board, y + 1);
        }
    }

    /// Where a piece comes to rest depends on its bitmap and its column alone.
    pub proof fn lemma_resting_row_of_column(self, other: Block, board: Board, y: int)
        requires
            self.grid() == other.grid(),
            self.position.x == other.position.x,
        ensures
            self.resting_row(board, y) == other.resting_row(board, y),
        decreases ROWS - y,
    {
        if !self.collides_at(board, y + 1) {
            self.lemma_free_above_floor(board, y + 1);
            self.lemma_resting_row_of_column(other, board, y + 1);
        }
    }

    /// A piece that has not landed lies above the floor, so its coordinates
    /// can hold one more step down.
    pub proof fn lemma_aloft_can_step_down(self)
        requires
            !self.spec_has_landed(),
        ensures
            self.position.y + 1 < ROWS,
            self.can_move(Direction::D),
    {
        every_shape_has_four_cells(self.shape, self.orientation);
        let grid = self.grid();
        let (row, column) = choose|row: int, column: int| occupied(grid, row, column);
        assert(occupied(grid, row, column));
    }

    /// A piece that does not collide in the row `y` lies wholly above the
    /// floor and to the left of the right wall.
    pub proof fn lemma_free_above_floor(self, board: Board, y: int)
        requires
            !self.collides_at(board, y),
        ensures
            y < ROWS,
            self.position.x < COLUMNS,
    {
        every_shape_has_four_cells(self.shape, self.orientation);
        let grid = self.grid();
        let (row, column) = choose|row: int, column: int| occupied(grid, row, column);
        assert(occupied(grid, row, column));
        assert(!blocked(board@, self.position.x + column, y + row));
    }

    /// The bitmap that shows the piece as it is turned now.
    fn bitmap(&self) -> (grid: Grid)
        ensures
            grid == self.grid(),
    {
        let matrix = self.shape.matrix();
        let grid = matrix[self.shape.current(self.orientation)];
        assert(grid == matrix[self.orientation.index()]);
        grid
    }

    /// Whether the piece, moved to the row `y`, has a cell where it cannot be.
    fn collides_in_row(&self, board: &Board, y: i64) -> (hit: bool)
        requires
            i32::MIN <= y <= i32::MAX + 1,
        ensures
            hit == self.collides_at(*board, y as int),
    {
        let grid = self.bitmap();
        let x = self.position.x as i64;
        let mut row: usize = 0;
        while row < 4
            invariant
                row <= 4,
                i32::MIN <= y <= i32::MAX + 1,
                x == self.position.x,
                grid == self.grid(),
                forall|r: int, c: int|
                    0 <= r < row && #[trigger] occupied(grid, r, c) ==> !blocked(
                        board@,
                        x + c,
                        y + r,
                    ),
            decreases 4 - row,
        {
            let mut column: usize = 0;
            while column < 4
                invariant
                    row < 4,
                    column <= 4,
                    i32::MIN <= y <= i32::MAX + 1,
                    x == self.position.x,
                    grid == self.grid(),
                    forall|r: int, c: int|
                        0 <= r < row && #[trigger] occupied(grid, r, c) ==> !blocked(
                            board@,
                            x + c,
                            y + r,
                        ),
                    forall|c: int|
                        0 <= c < column && #[trigger] occupied(grid, row as int, c) ==> !blocked(
                            board@,
                            x + c,
                            y + row,
                        ),
                decreases 4 - column,
            {
                if grid[row][column] != 0 {
                    let cx = x + column as i64;
                    let cy = y + row as i64;
                    if cx < 0 || cx >= COLUMNS as i64 || cy >= ROWS as i64 || (cy >= 0
                        && board.cells[cy as usize][cx as usize].is_some()) {
                        assert(occupied(grid, row as int, column as int));
                        assert(blocked(board@, x + column, y + row));
                        return true;
                    }
                }
                column += 1;
            }
            row += 1;
        }
        false
    }

    /// Whether the piece has a cell off the board to the left or right,
    /// below the floor, or on a locked cell.
    pub fn collides(&self, board: Board) -> (hit: bool)
        ensures
            hit == self.spec_collides(board),
    {
        self.collides_in_row(&board, self.position.y as i64)
    }

    /// Whether one more step down would bring a cell of the piece to the
    /// floor or past it.
    pub fn has_landed(&self) -> (landed: bool)
        ensures
            landed == self.spec_has_landed(),
    {
        let grid = self.bitmap();
        let y = self.position.y as i64;
        let mut row: usize = 0;
        while row < 4
            invariant
                row <= 4,
                y == self.position.y,
                grid == self.grid(),
                forall|r: int, c: int|
                    0 <= r < row && #[trigger] occupied(grid, r, c) ==> y + r + 1 < ROWS,
            decreases 4 - row,
        {
            let mut column: usize = 0;
            while column < 4
                invariant
                    row < 4,
                    column <= 4,
                    y == self.position.y,
                    grid == self.grid(),
                    forall|r: int, c: int|
                        0 <= r < row && #[trigger] occupied(grid, r, c) ==> y + r + 1 < ROWS,
                    forall|c: int|
                        0 <= c < column && #[trigger] occupied(grid, row as int, c) ==> y + row + 1
                            < ROWS,
                decreases 4 - column,
            {
                if grid[row][column] != 0 && y + row as i64 + 1 >= ROWS as i64 {
                    assert(occupied(grid, row as int, column as int));
                    return true;
                }
                column += 1;
            }
            row += 1;
        }
        false
    }

    /// Whether the piece lies on a locked cell at or above the topmost row:
    /// the stack has reached the top.
    pub fn has_stacked(&self, board: Board) -> (over: bool)
        ensures
            over == self.spec_has_stacked(board),
    {
        let grid = self.bitmap();
        let x = self.position.x as i64;
        let y = self.position.y as i64;
        let mut row: usize = 0;
        while row < 4
            invariant
                row <= 4,
                x == self.position.x,
                y == self.position.y,
                grid == self.grid(),
                forall|r: int, c: int|
                    0 <= r < row && #[trigger] occupied(grid, r, c) ==> !stacked(
                        board@,
                        x + c,
                        y + r,
                    ),
            decreases 4 - row,
        {
            let mut column: usize = 0;
            while column < 4
                invariant
                    row < 4,
                    column <= 4,
                    x == self.position.x,
                    y == self.position.y,
                    grid == self.grid(),
                    forall|r: int, c: int|
                        0 <= r < row && #[trigger] occupied(grid, r, c) ==> !stacked(
                            board@,
                            x + c,
                            y + r,
                        ),
                    forall|c: int|
                        0 <= c < column && #[trigger] occupied(grid, row as int, c) ==> !stacked(
                            board@,
                            x + c,
                            y + row,
                        ),
                decreases 4 - column,
            {
                if grid[row][column] != 0 {
                    let cx = x + column as i64;
                    let cy = y + row as i64;
                    if 0 <= cx && cx < COLUMNS as i64 && 0 <= cy && cy <= TOP_ROW as i64
                        && board.cells[cy as usize][cx as usize].is_some() {
                        assert(occupied(grid, row as int, column as int));
                        assert(stacked(board@, x + column, y + row));
                        return true;
                    }
                }
                column += 1;
            }
            row += 1;
        }
        false
    }

    /// The cells of the piece in reading order; with `clipped`, those that
    /// lie on the board.
    fn cells(&self, clipped: bool) -> (positions: Vec<Position>)
        requires
            clipped || self.in_range(),
        ensures
            positions@ == cells_before(
                self.grid(),
                self.position.x as int,
                self.position.y as int,
                16,
                clipped,
            ),
            clipped ==> forall|i: int| 0 <= i < positions.len() ==> inside(#[trigger] positions[i]),
    {
        let grid = self.bitmap();
        let x = self.position.x as i64;
        let y = self.position.y as i64;
        let mut positions: Vec<Position> = Vec::new();
        let mut n: usize = 0;
        while n < 16
            invariant
                n <= 16,
                grid == self.grid(),
                x == self.position.x,
                y == self.position.y,
                clipped || self.in_range(),
                positions@ == cells_before(grid, x as int, y as int, n as int, clipped),
                clipped ==> forall|i: int|
                    0 <= i < positions.len() ==> inside(#[trigger] positions[i]),
            decreases 16 - n,
        {
            let cx = x + (n % 4) as i64;
            let cy = y + (n / 4) as i64;
            if grid[n / 4][n % 4] != 0 && (!clipped || (0 <= cx && cx < COLUMNS as i64 && 0 <= cy
                && cy < ROWS as i64)) {
                positions.push(Position { x: cx as i32, y: cy as i32 });
            }
            n += 1;
        }
        positions
    }

    /// The cells of the piece that lie on the board, in reading order.
    pub fn footprint(&self) -> (positions: Vec<Position>)
        ensures
            positions@ == self.spec_footprint(),
            forall|i: int| 0 <= i < positions.len() ==> inside(#[trigger] positions[i]),
            forall|position: Position| #[trigger]
                positions@.contains(position) <==> inside(position) && self.covers(position),
    {
        let positions = self.cells(true);
        proof {
            footprint_is_the_part_on_the_board(*self);
            assert(positions@ == self.spec_footprint());
        }
        positions
    }

    /// The cells of the grid that the piece occupies, in reading order. The
    /// coordinates of the corner leave room for the bitmap.
    pub fn get_positions(&self) -> (positions: Vec<Position>)
        requires
            self.in_range(),
        ensures
            positions@ == self.spec_positions(),
            positions.len() == 4,
            forall|position: Position| #[trigger]
                positions@.contains(position) <==> self.covers(position),
    {
        let positions = self.cells(false);
        proof {
            positions_are_the_cells(*self);
            assert(positions@ == self.spec_positions());
        }
        positions
    }
}

impl Tetromino for Block {
    open spec fn turned(self) -> Block {
        Block { orientation: self.orientation.turned(), ..self }
    }

    open spec fn pushed(self, direction: Direction) -> Block {
        match direction {
            Direction::L => self.placed(self.position.x - 1, self.position.y as int),
            Direction::R => self.placed(self.position.x + 1, self.position.y as int),
            Direction::D => self.placed(self.position.x as int, self.position.y + 1),
        }
    }

    open spec fn can_move(self, direction: Direction) -> bool {
        match direction {
            Direction::L => self.position.x > i32::MIN,
            Direction::R => self.position.x < i32::MAX,
            Direction::D => self.position.y < i32::MAX,
        }
    }

    /// The piece moved down step by step until the next step would collide.
    open spec fn dropped(self, board: Board) -> Block {
        self.placed(self.position.x as int, self.resting_row(board, self.position.y as int))
    }

    open spec fn drawable(self) -> bool {
        self.in_range()
    }

    /// The cells of the piece in reading order, each in the colour of the piece.
    open spec fn picture(self) -> Seq<Paint> {
        self.spec_positions().map_values(
            |position: Position| Paint::Cell { position, color: self.color },
        )
    }

    fn rotate(&mut self) {
        self.orientation = self.orientation.next();
    }

    fn move_left(&mut self) {
        self.position.x = self.position.x - 1;
    }

    fn move_right(&mut self) {
        self.position.x = self.position.x + 1;
    }

    fn move_down(&mut self) {
        self.position.y = self.position.y + 1;
    }

    fn drop(&mut self, board: Board) {
        let mut y: i64 = self.position.y as i64;
        while !self.collides_in_row(&board, y + 1)
            invariant
                *self == *old(self),
                self.position.y <= y,
                y == self.position.y || y < ROWS,
                self.resting_row(board, y as int) == self.resting_row(
                    board,
                    self.position.y as int,
                ),
            decreases ROWS - y,
        {
            proof {
                self.lemma_free_above_floor(board, y + 1);
            }
            y += 1;
        }
        self.position.y = y as i32;
    }

    fn draw(&self, canvas: &mut Vec<Paint>) {
        let positions = self.get_positions();
        let mut i: usize = 0;
        while i < positions.len()
            invariant
                i <= positions.len(),
                positions@ == self.spec_positions(),
                canvas@ == old(canvas)@ + self.picture().subrange(0, i as int),
            decreases positions.len() - i,
        {
            canvas.push(Paint::Cell { position: positions[i], color: self.color });
            assert(self.picture().subrange(0, i + 1) =~= self.picture().subrange(0, i as int).push(
                self.picture()[i as int],
            ));
            i += 1;
        }
        assert(self.picture().subrange(0, positions.len() as int) =~= self.picture());
    }
}

/// The positions of a piece are its four cells: a position is among them
/// if and only if the piece has a cell there.
pub proof fn positions_are_the_cells(block: Block)
    requires
        block.in_range(),
    ensures
        block.spec_positions().len() == 4,
        forall|position: Position| #[trigger]
            block.spec_positions().contains(position) <==> block.covers(position),
{
    let grid = block.grid();
    let x = block.position.x as int;
    let y = block.position.y as int;
    assert(block.spec_positions().len() == 4) by {
        every_shape_has_four_cells(block.shape, block.orientation);
        lemma_marks_are_the_population(grid);
        lemma_cells_are_the_marks(grid, x, y, 16);
    }
    assert forall|position: Position| #[trigger]
        block.spec_positions().contains(position) <==> block.covers(position) by {
        lemma_cells_before(grid, x, y, 16, false, position);
        if block.covers(position) {
            let k = (position.y - y) * 4 + (position.x - x);
            assert(cell_under(x, y, k) == position);
        }
    }
}

/// The footprint of a piece is the part of it that lies on the board: a
/// position is among its cells if and only if it names a cell of the board
/// and the piece has a cell there.
pub proof fn footprint_is_the_part_on_the_board(block: Block)
    ensures
        forall|position: Position| #[trigger]
            block.spec_footprint().contains(position) <==> inside(position) && block.covers(
                position,
            ),
{
    let grid = block.grid();
    let x = block.position.x as int;
    let y = block.position.y as int;
    assert forall|position: Position| #[trigger]
        block.spec_footprint().contains(position) <==> inside(position) && block.covers(
            position,
        ) by {
        lemma_cells_before(grid, x, y, 16, true, position);
        if inside(position) && block.covers(position) {
            let k = (position.y - y) * 4 + (position.x - x);
            assert(cell_under(x, y, k) == position);
        }
    }
}

/// A piece that does not collide and does not reach above the board lies on
/// the board with all its cells: its footprint is the whole of it.
pub proof fn free_piece_lies_on_the_board(block: Block, board: Board)
    requires
        !block.spec_collides(board),
        block.position.y >= 0,
    ensures
        block.spec_footprint() == block.spec_positions(),
        block.spec_footprint().len() == 4,
{
    let grid = block.grid();
    let x = block.position.x as int;
    let y = block.position.y as int;
    assert forall|k: int| 0 <= k < 16 implies marked(grid, x, y, k, true) == marked(
        grid,
        x,
        y,
        k,
        false,
    ) by {
        if occupied(grid, k / 4, k % 4) {
            assert(!blocked(board@, x + k % 4, y + k / 4));
        }
    }
    lemma_cells_whole(grid, x, y, 16);
    block.lemma_free_above_floor(board, y);
    positions_are_the_cells(block);
}

/// Four quarter turns bring a piece back to where it began.
pub proof fn four_turns_are_none(block: Block)
    ensures
        block.turned().turned().turned().turned() == block,
        block.orientation.turned().turned().turned().turned() == block.orientation,
{
}

/// A hard drop is a walk down: a piece whose next step down would collide
/// stays where it is, and any other piece drops to where it would drop from
/// one step further down. Where the drop ends, the next step down would
/// collide.
pub proof fn drop_is_repeated_step_down(block: Block, board: Board)
    ensures
        block.can_move(Direction::D) && block.pushed(Direction::D).spec_collides(board)
            ==> block.dropped(board) == block,
        block.can_move(Direction::D) && !block.pushed(Direction::D).spec_collides(board)
            ==> block.dropped(board) == block.pushed(Direction::D).dropped(board),
        block.collides_at(board, block.dropped(board).position.y + 1),
        block.position.y <= block.dropped(board).position.y,
{
    block.lemma_resting_row(board, block.position.y as int);
    if block.can_move(Direction::D) {
        block.lemma_resting_row_of_column(
            block.pushed(Direction::D),
            board,
            block.position.y + 1,
        );
    }
}

} // verus!
