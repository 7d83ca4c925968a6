//! Shapes, orientations, positions and colours.

use rand::Rng;
use vstd::prelude::*;
use crate::board::Board;
use crate::host::Paint;
use crate::square::{Grid, SQUARE, population};

verus! {

/// The colours a cell can take.
#[derive(Clone, Copy, Debug, PartialEq, Eq, Structural)]
pub enum Color {
    Black,
    White,
    Red,
    Green,
    Blue,
    Yellow,
    Magenta,
    Cyan,
}

/// The seven kinds of piece.
#[derive(Clone, Copy, Debug, PartialEq, Eq, Structural)]
pub enum Shape {
    I,
    O,
    T,
    S,
    Z,
    J,
    L,
}

/// The four ways a piece can be turned.
#[derive(Clone, Copy, Debug, PartialEq, Eq, Structural)]
pub enum Orientation {
    Left,
    Right,
    Up,
    Down,
}

/// The three ways a piece can be pushed.
#[derive(Clone, Copy, Debug, PartialEq, Eq, Structural)]
pub enum Direction {
    L,
    R,
    D,
}

/// Casts the die. This calls `Rng::gen_range` of rand on the generator of the
/// thread with the range from `low` to `high`, both ends included. As that
/// function is documented, the range is not empty and the number lies in it;
/// which number it is, nothing says.
#[verifier::external_body]
fn roll(low: u8, high: u8) -> (number: u8)
    requires
        low <= high,
    ensures
        low <= number <= high,
{
    rand::thread_rng().gen_range(low..=high)
}

/// What a piece in play can do.
pub trait Tetromino: Sized {
    /// The piece a quarter turn further clockwise.
    spec fn turned(self) -> Self;

    /// The piece one cell further in `direction`.
    spec fn pushed(self, direction: Direction) -> Self;

    /// Whether the coordinates of the piece can hold a step in `direction`.
    spec fn can_move(self, direction: Direction) -> bool;

    /// The piece where it comes to rest when it falls on `board`.
    spec fn dropped(self, board: Board) -> Self;

    /// Whether the coordinates of the piece can hold each of its cells.
    spec fn drawable(self) -> bool;

    /// What the piece looks like.
    spec fn picture(self) -> Seq<Paint>;

    /// Turns the piece a quarter turn clockwise. Nothing is asked of where
    /// that brings its cells.
    fn rotate(&mut self)
        ensures
            *final(self) == old(self).turned(),
    ;

    /// Moves the piece one cell to the left, wherever that brings it.
    fn move_left(&mut self)
        requires
            old(self).can_move(Direction::L),
        ensures
            *final(self) == old(self).pushed(Direction::L),
    ;

    /// Moves the piece one cell to the right, wherever that brings it.
    fn move_right(&mut self)
        requires
            old(self).can_move(Direction::R),
        ensures
            *final(self) == old(self).pushed(Direction::R),
    ;

    /// Moves the piece one cell down, wherever that brings it.
    fn move_down(&mut self)
        requires
            old(self).can_move(Direction::D),
        ensures
            *final(self) == old(self).pushed(Direction::D),
    ;

    /// Lets the piece fall until one more step down would collide.
    fn drop(&mut self, board: Board)
        ensures
            *final(self) == old(self).dropped(board),
    ;

    /// Draws the cells of the piece.
    fn draw(&self, canvas: &mut Vec<Paint>)
        requires
            self.drawable(),
        ensures
            final(canvas)@ == old(canvas)@ + self.picture(),
    ;
}

/// Something that writes text on what it draws.
pub trait DrawableText {
    /// Writes `text` with its top left corner at `point`.
    fn draw_text(
        &self,
        canvas: &mut Vec<Paint>,
        text: &'static str,
        point: [u32; 2],
        scale: u32,
        color: Color,
    )
        ensures
            final(canvas)@ == old(canvas)@.push(
                Paint::Text { text, x: point[0], y: point[1], scale, color },
            ),
    {
        canvas.push(Paint::Text { text, x: point[0], y: point[1], scale, color });
    }
}

/// A cell of the grid: `x` counts columns from the left, `y` rows from the top.
#[derive(Clone, Copy, Debug, PartialEq, Eq, Structural)]
pub struct Position {
    pub x: i32,
    pub y: i32,
}

impl Position {
    /// The cell in column `x` of row `y`.
    pub fn new(x: i32, y: i32) -> (position: Self)
        ensures
            position == (Position { x, y }),
    {
        Self { x, y }
    }
}

impl Orientation {
    /// Where the bitmap of this orientation stands among the four of a shape.
    pub open spec fn index(self) -> int {
        match self {
            Orientation::Up => 0,
            Orientation::Right => 1,
            Orientation::Down => 2,
            Orientation::Left => 3,
        }
    }

    /// The orientation a quarter turn clockwise from this one.
    pub open spec fn turned(self) -> Orientation {
        match self {
            Orientation::Up => Orientation::Right,
            Orientation::Right => Orientation::Down,
            Orientation::Down => Orientation::Left,
            Orientation::Left => Orientation::Up,
        }
    }

    /// A quarter turn clockwise.
    pub fn next(self) -> (orientation: Orientation)
        ensures
            orientation == self.turned(),
            orientation.index() == (self.index() + 1) % 4,
    {
        match self {
            Orientation::Up => Orientation::Right,
            Orientation::Right => Orientation::Down,
            Orientation::Down => Orientation::Left,
            Orientation::Left => Orientation::Up,
        }
    }
}

impl Shape {
    /// Where the bitmaps of this shape stand in the table.
    pub open spec fn slot(self) -> int {
        match self {
            Shape::L => 0,
            Shape::J => 1,
            Shape::T => 2,
            Shape::I => 3,
            Shape::Z => 4,
            Shape::S => 5,
            Shape::O => 6,
        }
    }

    /// The colour of this shape.
    pub open spec fn spec_color(self) -> Color {
        match self {
            Shape::L => Color::Blue,
            Shape::J => Color::Yellow,
            Shape::T => Color::Green,
            Shape::I => Color::Magenta,
            Shape::Z => Color::White,
            Shape::S => Color::Red,
            Shape::O => Color::Cyan,
        }
    }

    /// The bitmap of this shape in the given orientation.
    pub open spec fn grid(self, orientation: Orientation) -> Grid {
        SQUARE[self.slot()][orientation.index()]
    }

    /// The shape that a roll of the die stands for: 0 to 6 are I, O, T, S, Z,
    /// J, L in this order, and any other number is I.
    pub open spec fn of_roll(roll: int) -> Shape {
        if roll == 1 {
            Shape::O
        } else if roll == 2 {
            Shape::T
        } else if roll == 3 {
            Shape::S
        } else if roll == 4 {
            Shape::Z
        } else if roll == 5 {
            Shape::J
        } else if roll == 6 {
            Shape::L
        } else {
            Shape::I
        }
    }

    /// The colour in which the shape is drawn and locked.
    pub fn color(&self) -> (color: Color)
        ensures
            color == self.spec_color(),
    {
        match self {
            Shape::L => Color::Blue,
            Shape::J => Color::Yellow,
            Shape::T => Color::Green,
            Shape::I => Color::Magenta,
            Shape::Z => Color::White,
            Shape::S => Color::Red,
            Shape::O => Color::Cyan,
        }
    }

    /// The four bitmaps of this shape, one per orientation.
    pub fn matrix(&self) -> (matrix: [[[u8; 4]; 4]; 4])
        ensures
            matrix == SQUARE[self.slot()],
            forall|orientation: Orientation| #[trigger]
                matrix[orientation.index()] == self.grid(orientation),
    {
        match self {
            Shape::L => SQUARE[0],
            Shape::J => SQUARE[1],
            Shape::T => SQUARE[2],
            Shape::I => SQUARE[3],
            Shape::Z => SQUARE[4],
            Shape::S => SQUARE[5],
            Shape::O => SQUARE[6],
        }
    }

    /// Which of the four bitmaps shows the shape in `orientation`.
    pub fn current(&self, orientation: Orientation) -> (index: usize)
        ensures
            index == orientation.index(),
    {
        match orientation {
            Orientation::Up => 0,
            Orientation::Right => 1,
            Orientation::Down => 2,
            Orientation::Left => 3,
        }
    }

    /// A shape picked by a cast of a die with seven sides. Which shape
    /// comes is left to the die.
    pub fn random() -> (shape: Shape)
        ensures
            exists|roll: int| 0 <= roll <= 6 && shape == #[trigger] Shape::of_roll(roll),
    {
        Shape::from_roll(roll(0, 6))
    }

    /// Turns a roll of the die into a shape.
    pub fn from_roll(roll: u8) -> (shape: Shape)
        ensures
            shape == Shape::of_roll(roll as int),
    {
        match roll {
            0 => Shape::I,
            1 => Shape::O,
            2 => Shape::T,
            3 => Shape::S,
            4 => Shape::Z,
            5 => Shape::J,
            6 => Shape::L,
            _ => Shape::I,
        }
    }
}

impl Default for Shape {
    fn default() -> (shape: Shape)
        ensures
            shape == Shape::I,
    {
        Shape::I
    }
}

/// Every shape has exactly four cells, however it is turned.
pub proof fn every_shape_has_four_cells(shape: Shape, orientation: Orientation)
    ensures
        population(shape.grid(orientation)) == 4,
{
    crate::square::every_bitmap_has_four_cells(shape.slot(), orientation.index());
}

} // verus!
