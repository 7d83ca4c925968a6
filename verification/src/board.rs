//! The board: a grid of cells that are empty or locked with a colour.

use vstd::prelude::*;
use crate::host::Paint;
use crate::utils::{Color, Position};

verus! {

/// The number of columns of the board.
pub const COLUMNS: usize = 10;

/// The number of rows of the board.
pub const ROWS: usize = 20;

/// The cells of one row, from the left; a locked cell holds its colour.
pub type Row = Seq<Option<Color>>;

/// Whether every cell of `row` is locked.
pub open spec fn full(row: Row) -> bool {
    forall|x: int| 0 <= x < row.len() ==> (#[trigger] row[x]).is_some()
}

/// The rows that a clearing keeps are those that are not full.
pub open spec fn kept() -> spec_fn(Row) -> bool {
    |row: Row| !full(row)
}

/// A row of the board's width with no locked cell.
pub open spec fn blank() -> Row {
    Seq::new(COLUMNS as nat, |x: int| None)
}

/// The rows of a board with no locked cell.
pub open spec fn bare() -> Seq<Row> {
    Seq::new(ROWS as nat, |y: int| blank())
}

/// How many of `rows` are full.
pub open spec fn full_rows(rows: Seq<Row>) -> int {
    rows.len() - rows.filter(kept()).len()
}

/// `rows` without its full rows: the rows that are left keep their order and
/// sink to the bottom, and as many blank rows as were taken out come in at the top.
pub open spec fn cleared(rows: Seq<Row>) -> Seq<Row> {
    Seq::new(full_rows(rows) as nat, |y: int| blank()) + rows.filter(kept())
}

/// `rows` after the row `k` has left: the rows above it have moved down by
/// one, a blank row has come in at the top, and the rows below it stand as
/// they stood.
pub open spec fn row_out(rows: Seq<Row>, k: int) -> Seq<Row> {
    Seq::new(
        rows.len(),
        |y: int|
            if y == 0 {
                blank()
            } else if y <= k {
                rows[y - 1]
            } else {
                rows[y]
            },
    )
}

/// `rows` with the cells at `positions` locked with `color`, and every other
/// cell as it was.
pub open spec fn filled(rows: Seq<Row>, positions: Seq<Position>, color: Color) -> Seq<Row> {
    Seq::new(
        ROWS as nat,
        |y: int|
            Seq::new(
                COLUMNS as nat,
                |x: int|
                    if positions.contains(Position { x: x as i32, y: y as i32 }) {
                        Some(color)
                    } else {
                        rows[y][x]
                    },
            ),
    )
}

/// The locked cells of `rows` among the first `n` cells in reading order,
/// each as a cell to draw in its colour.
pub open spec fn locked_before(rows: Seq<Row>, n: int) -> Seq<Paint>
    decreases n,
{
    if n <= 0 {
        Seq::empty()
    } else {
        let rest = locked_before(rows, n - 1);
        let y = (n - 1) / (COLUMNS as int);
        let x = (n - 1) % (COLUMNS as int);
        match rows[y][x] {
            Some(color) => rest.push(
                Paint::Cell { position: Position { x: x as i32, y: y as i32 }, color },
            ),
            None => rest,
        }
    }
}

/// Whether `position` names a cell of the board.
pub open spec fn inside(position: Position) -> bool {
    0 <= position.x < COLUMNS && 0 <= position.y < ROWS
}

proof fn lemma_filter_keeps_all(rows: Seq<Row>)
    requires
        forall|y: int| 0 <= y < rows.len() ==> !full(#[trigger] rows[y]),
    ensures
        rows.filter(kept()) == rows,
    decreases rows.len(),
{
    reveal(Seq::filter);
    if rows.len() > 0 {
        lemma_filter_keeps_all(rows.drop_last());
        assert(rows.drop_last().push(rows.last()) =~= rows);
    }
}

proof fn lemma_blank_is_kept()
    ensures
        !full(blank()),
        seq![blank()].filter(kept()) == seq![blank()],
{
    assert(blank()[0].is_none());
    lemma_filter_keeps_all(seq![blank()]);
}

/// A clearing leaves rows without a full row as they are, and counts none.
pub proof fn clearing_without_full_row(rows: Seq<Row>)
    requires
        forall|y: int| 0 <= y < rows.len() ==> !full(#[trigger] rows[y]),
    ensures
        cleared(rows) == rows,
        full_rows(rows) == 0,
{
    lemma_filter_keeps_all(rows);
    assert(cleared(rows) =~= rows);
}

/// A clearing does to `rows` what it does to them once one full row has
/// left, and counts one row more: so it is the same as taking out the full
/// rows one at a time, the topmost first, until none is left.
pub proof fn clearing_takes_rows_one_by_one(rows: Seq<Row>, k: int)
    requires
        0 <= k < rows.len(),
        full(rows[k]),
    ensures
        cleared(rows) == cleared(row_out(rows, k)),
        full_rows(rows) == full_rows(row_out(rows, k)) + 1,
{
    let above = rows.subrange(0, k);
    let below = rows.subrange(k + 1, rows.len() as int);
    let one = seq![rows[k]];
    let top = seq![blank()];
    assert(rows =~= above + one + below);
    assert(row_out(rows, k) =~= top + above + below);
    assert(one.filter(kept()) =~= Seq::<Row>::empty()) by {
        reveal(Seq::filter);
        assert(one.last() == rows[k]);
        assert(!kept()(one.last()));
        assert(one.drop_last() =~= Seq::<Row>::empty());
        assert(one.drop_last().filter(kept()) =~= Seq::<Row>::empty());
    }
    lemma_blank_is_kept();
    Seq::filter_distributes_over_add(above, one, kept());
    Seq::filter_distributes_over_add(above + one, below, kept());
    Seq::filter_distributes_over_add(top, above, kept());
    Seq::filter_distributes_over_add(top + above, below, kept());
    assert(rows.filter(kept()) =~= above.filter(kept()) + below.filter(kept()));
    assert(row_out(rows, k).filter(kept()) =~= top + above.filter(kept()) + below.filter(
        kept(),
    ));
    above.lemma_filter_len(kept());
    below.lemma_filter_len(kept());
    assert(cleared(rows) =~= cleared(row_out(rows, k)));
}

/// A clearing of rows of which exactly one is full counts one row and takes
/// that row out: what stood above it stands one row lower, and the top row
/// is blank.
pub proof fn clearing_with_one_full_row(rows: Seq<Row>, k: int)
    requires
        0 <= k < rows.len(),
        full(rows[k]),
        forall|y: int| 0 <= y < rows.len() && y != k ==> !full(#[trigger] rows[y]),
    ensures
        cleared(rows) == row_out(rows, k),
        full_rows(rows) == 1,
{
    clearing_takes_rows_one_by_one(rows, k);
    lemma_blank_is_kept();
    clearing_without_full_row(row_out(rows, k));
}

/// After a clearing no row is full, and there are as many rows as before.
pub proof fn clearing_leaves_no_full_row(rows: Seq<Row>)
    ensures
        cleared(rows).len() == rows.len(),
        forall|y: int| 0 <= y < rows.len() ==> !full(#[trigger] cleared(rows)[y]),
{
    rows.lemma_filter_len(kept());
    lemma_blank_is_kept();
    assert forall|y: int| 0 <= y < rows.len() implies !full(#[trigger] cleared(rows)[y]) by {
        if y >= full_rows(rows) {
            rows.lemma_filter_pred(kept(), y - full_rows(rows));
        }
    }
}

/// A row with no locked cell.
fn blank_row() -> (row: [Option<Color>; COLUMNS])
    ensures
        row@ == blank(),
{
    let empty: Option<Color> = None;
    let row: [Option<Color>; COLUMNS] = [empty; COLUMNS];
    assert(row == vstd::array::spec_array_fill_for_copy_type::<Option<Color>, COLUMNS>(empty));
    assert(row@ =~= blank());
    row
}

#[derive(Clone, Copy, Debug, PartialEq, Eq)]
pub struct Board {
    pub cells: [[Option<Color>; COLUMNS]; ROWS],
}

impl View for Board {
    type V = Seq<Row>;

    /// The rows from the top, each with its cells from the left.
    open spec fn view(&self) -> Seq<Row> {
        Seq::new(ROWS as nat, |y: int| self.cells[y]@)
    }
}

impl Board {
    /// What the board holds at `position`: nothing outside the grid.
    pub open spec fn spec_at(&self, position: Position) -> Option<Color> {
        if inside(position) {
            self@[position.y as int][position.x as int]
        } else {
            None
        }
    }

    /// What the board looks like: its locked cells in reading order.
    pub open spec fn picture(&self) -> Seq<Paint> {
        locked_before(self@, ROWS * COLUMNS)
    }

    /// A board with no locked cell.
    pub fn new() -> (board: Board)
        ensures
            board@ == bare(),
    {
        let row = blank_row();
        let board = Board { cells: [row; ROWS] };
        assert(board.cells == vstd::array::spec_array_fill_for_copy_type::<
            [Option<Color>; COLUMNS],
            ROWS,
        >(row));
        assert(board@ =~= bare());
        board
    }

    /// Whether `position` names a cell of the board.
    pub fn contains(position: Position) -> (within: bool)
        ensures
            within == inside(position),
    {
        0 <= position.x && (position.x as i64) < COLUMNS as i64 && 0 <= position.y && (
        position.y as i64) < ROWS as i64
    }

    /// The colour locked at `position`, if it names a cell and the cell is locked.
    pub fn at(&self, position: Position) -> (cell: Option<Color>)
        ensures
            cell == self.spec_at(position),
    {
        if Self::contains(position) {
            self.cells[position.y as usize][position.x as usize]
        } else {
            None
        }
    }

    /// Locks the cells at `positions` with `color`. Every position names a
    /// cell of the board.
    pub fn fill(&mut self, positions: Vec<Position>, color: Color)
        requires
            forall|i: int| 0 <= i < positions.len() ==> inside(#[trigger] positions[i]),
        ensures
            final(self)@ == filled(old(self)@, positions@, color),
    {
        let mut i: usize = 0;
        while i < positions.len()
            invariant
                i <= positions.len(),
                forall|k: int| 0 <= k < positions.len() ==> inside(#[trigger] positions[k]),
                self@ =~~= filled(old(self)@, positions@.subrange(0, i as int), color),
            decreases positions.len() - i,
        {
            let position = positions[i];
            let ghost before = positions@.subrange(0, i as int);
            let ghost after = positions@.subrange(0, i + 1);
            let ghost earlier = *self;
            self.cells[position.y as usize][position.x as usize] = Some(color);
            proof {
                assert(after =~= before.push(position));
                assert forall|p: Position| after.contains(p) <==> (before.contains(p) || p
                    == position) by {
                    if before.contains(p) {
                        let k = choose|k: int| 0 <= k < before.len() && before[k] == p;
                        assert(after[k] == p);
                    }
                    if p == position {
                        assert(after[i as int] == p);
                    }
                }
                assert forall|y: int, x: int| 0 <= y < ROWS && 0 <= x < COLUMNS implies #[trigger] self@[y][x]
                    == filled(old(self)@, after, color)[y][x] by {
                    assert(earlier@[y][x] == filled(old(self)@, before, color)[y][x]);
                }
            }
            i += 1;
        }
        assert(positions@.subrange(0, positions.len() as int) =~= positions@);
    }

    /// Whether every cell of the row `y` is locked.
    pub fn is_full(&self, y: usize) -> (whole: bool)
        requires
            y < ROWS,
        ensures
            whole == full(self@[y as int]),
    {
        let mut x: usize = 0;
        while x < COLUMNS
            invariant
                x <= COLUMNS,
                y < ROWS,
                forall|k: int| 0 <= k < x ==> (#[trigger] self@[y as int][k]).is_some(),
            decreases COLUMNS - x,
        {
            if self.cells[y][x].is_none() {
                assert(self@[y as int][x as int].is_none());
                return false;
            }
            x += 1;
        }
        true
    }

    /// Takes out every full row and returns how many there were. The rows
    /// above a row that leaves move down, and blank rows come in at the top.
    pub fn clear(&mut self) -> (count: u16)
        ensures
            final(self)@ == cleared(old(self)@),
            count == full_rows(old(self)@),
            0 <= count <= ROWS,
            forall|y: int| 0 <= y < ROWS ==> !full(#[trigger] final(self)@[y]),
            (forall|y: int| 0 <= y < ROWS ==> !full(#[trigger] old(self)@[y])) ==> count == 0
                && final(self)@ == old(self)@,
            forall|k: int|
                0 <= k < ROWS && full(#[trigger] old(self)@[k]) && (forall|y: int|
                    0 <= y < ROWS && y != k ==> !full(#[trigger] old(self)@[y])) ==> count == 1
                    && final(self)@ == row_out(old(self)@, k),
    {
        // The rows that stay, gathered from the top.
        let mut stay: [[Option<Color>; COLUMNS]; ROWS] = self.cells;
        let mut n: usize = 0;
        let mut y: usize = 0;
        while y < ROWS
            invariant
                n <= y <= ROWS,
                Seq::new(n as nat, |k: int| stay[k]@) =~~= self@.subrange(0, y as int).filter(
                    kept(),
                ),
            decreases ROWS - y,
        {
            let whole = self.is_full(y);
            proof {
                let upto = self@.subrange(0, y + 1);
                assert(upto.drop_last() =~= self@.subrange(0, y as int));
                assert(upto.last() == self@[y as int]);
                reveal(Seq::filter);
            }
            if !whole {
                stay[n] = self.cells[y];
                n += 1;
            }
            y += 1;
        }
        proof {
            assert(self@.subrange(0, ROWS as int) =~= self@);
        }
        let gone: usize = ROWS - n;
        let mut y: usize = 0;
        while y < ROWS
            invariant
                y <= ROWS,
                gone + n == ROWS,
                forall|k: int| 0 <= k < y ==> (#[trigger] self.cells[k])@ == (if k < gone {
                    blank()
                } else {
                    stay[k - gone]@
                }),
            decreases ROWS - y,
        {
            if y < gone {
                self.cells[y] = blank_row();
            } else {
                self.cells[y] = stay[y - gone];
            }
            y += 1;
        }
        proof {
            let rows = old(self)@;
            assert(Seq::new(n as nat, |k: int| stay[k]@) == rows.filter(kept()));
            assert(rows.filter(kept()).len() == n);
            assert forall|k: int| 0 <= k < ROWS implies #[trigger] self@[k] == cleared(rows)[k] by {
                if k >= gone {
                    assert(Seq::new(n as nat, |j: int| stay[j]@)[k - gone] == stay[k - gone]@);
                }
            }
            assert(self@ =~= cleared(rows));
            clearing_leaves_no_full_row(rows);
            if forall|y: int| 0 <= y < ROWS ==> !full(#[trigger] rows[y]) {
                clearing_without_full_row(rows);
            }
            assert forall|k: int|
                0 <= k < ROWS && full(#[trigger] rows[k]) && (forall|y: int|
                    0 <= y < ROWS && y != k ==> !full(#[trigger] rows[y])) implies full_rows(rows)
                == 1 && cleared(rows) == row_out(rows, k) by {
                clearing_with_one_full_row(rows, k);
            }
        }
        gone as u16
    }

    /// Draws every locked cell in its colour.
    pub fn render(&self, canvas: &mut Vec<Paint>)
        ensures
            final(canvas)@ == old(canvas)@ + self.picture(),
    {
        let mut y: usize = 0;
        while y < ROWS
            invariant
                y <= ROWS,
                canvas@ == old(canvas)@ + locked_before(self@, y * COLUMNS),
            decreases ROWS - y,
        {
            let mut x: usize = 0;
            while x < COLUMNS
                invariant
                    y < ROWS,
                    x <= COLUMNS,
                    canvas@ == old(canvas)@ + locked_before(self@, y * COLUMNS + x),
                decreases COLUMNS - x,
            {
                let ghost n = y * COLUMNS + x;
                assert(n / (COLUMNS as int) == y && n % (COLUMNS as int) == x);
                match self.cells[y][x] {
                    Some(color) => {
                        canvas.push(
                            Paint::Cell { position: Position { x: x as i32, y: y as i32 }, color },
                        );
                    },
                    None => {},
                }
                assert(canvas@ =~= old(canvas)@ + locked_before(self@, n + 1));
                x += 1;
            }
            y += 1;
        }
    }
}

} // verus!
