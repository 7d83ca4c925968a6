use tetris::board::{Board, COLUMNS, ROWS};
use tetris::host::Paint;
use tetris::utils::{Color, Position};

fn row_of(y: i32, columns: std::ops::Range<i32>) -> Vec<Position> {
    columns.map(|x| Position::new(x, y)).collect()
}

#[test]
fn board_is_ten_by_twenty() {
    assert_eq!(COLUMNS, 10);
    assert_eq!(ROWS, 20);
    let board = Board::new();
    assert_eq!(board.cells.len(), 20);
    assert_eq!(board.cells[0].len(), 10);
}

#[test]
fn new_board_is_empty() {
    let board = Board::new();
    for y in 0..20 {
        for x in 0..10 {
            assert_eq!(board.at(Position::new(x, y)), None);
        }
        assert!(!board.is_full(y as usize));
    }
}

#[test]
fn contains_tells_the_cells_of_the_board() {
    assert!(Board::contains(Position::new(0, 0)));
    assert!(Board::contains(Position::new(9, 19)));
    assert!(!Board::contains(Position::new(-1, 0)));
    assert!(!Board::contains(Position::new(10, 0)));
    assert!(!Board::contains(Position::new(0, -1)));
    assert!(!Board::contains(Position::new(0, 20)));
    assert!(!Board::contains(Position::new(i32::MIN, i32::MAX)));
}

#[test]
fn at_is_none_outside_the_board() {
    let mut board = Board::new();
    board.fill(row_of(0, 0..10), Color::Red);
    assert_eq!(board.at(Position::new(0, 0)), Some(Color::Red));
    assert_eq!(board.at(Position::new(-1, 0)), None);
    assert_eq!(board.at(Position::new(10, 0)), None);
    assert_eq!(board.at(Position::new(0, -1)), None);
    assert_eq!(board.at(Position::new(0, 20)), None);
}

#[test]
fn fill_locks_the_cells_it_is_given() {
    let mut board = Board::new();
    board.fill(vec![Position::new(2, 3), Position::new(9, 19)], Color::Green);
    for y in 0..20 {
        for x in 0..10 {
            let expected =
                if (x, y) == (2, 3) || (x, y) == (9, 19) { Some(Color::Green) } else { None };
            assert_eq!(board.at(Position::new(x, y)), expected);
            assert_eq!(board.cells[y as usize][x as usize], expected);
        }
    }
}

#[test]
fn fill_with_nothing_changes_nothing() {
    let mut board = Board::new();
    board.fill(vec![Position::new(1, 1)], Color::Blue);
    let before = board;
    board.fill(Vec::new(), Color::Red);
    assert_eq!(board, before);
}

#[test]
fn fill_gives_a_locked_cell_the_new_color() {
    let mut board = Board::new();
    board.fill(vec![Position::new(4, 4)], Color::Blue);
    board.fill(vec![Position::new(4, 4), Position::new(4, 4)], Color::Yellow);
    assert_eq!(board.at(Position::new(4, 4)), Some(Color::Yellow));
}

#[test]
fn is_full_wants_every_cell() {
    let mut board = Board::new();
    board.fill(row_of(5, 0..9), Color::Red);
    assert!(!board.is_full(5));
    board.fill(vec![Position::new(9, 5)], Color::Blue);
    assert!(board.is_full(5));
    assert!(!board.is_full(4));
    assert!(!board.is_full(6));
}

#[test]
fn clear_without_full_row_changes_nothing() {
    let mut board = Board::new();
    board.fill(row_of(19, 0..9), Color::Red);
    board.fill(row_of(18, 1..10), Color::Blue);
    board.fill(vec![Position::new(0, 0)], Color::Green);
    let before = board;
    assert_eq!(board.clear(), 0);
    assert_eq!(board, before);
}

#[test]
fn clear_of_empty_board_is_nothing() {
    let mut board = Board::new();
    assert_eq!(board.clear(), 0);
    assert_eq!(board, Board::new());
}

#[test]
fn clear_takes_out_one_full_row() {
    let mut board = Board::new();
    board.fill(row_of(10, 0..10), Color::Red);
    board.fill(vec![Position::new(0, 0), Position::new(3, 9)], Color::Green);
    board.fill(vec![Position::new(7, 11), Position::new(2, 19)], Color::Blue);
    let before = board;
    assert_eq!(board.clear(), 1);
    assert_eq!(board.cells[0], [None; 10]);
    for y in 1..=10 {
        assert_eq!(board.cells[y], before.cells[y - 1], "row {}", y);
    }
    for y in 11..20 {
        assert_eq!(board.cells[y], before.cells[y], "row {}", y);
    }
    assert_eq!(board.at(Position::new(0, 1)), Some(Color::Green));
    assert_eq!(board.at(Position::new(3, 10)), Some(Color::Green));
    assert_eq!(board.at(Position::new(7, 11)), Some(Color::Blue));
    assert_eq!(board.at(Position::new(2, 19)), Some(Color::Blue));
}

#[test]
fn clear_takes_out_the_top_row() {
    let mut board = Board::new();
    board.fill(row_of(0, 0..10), Color::Red);
    board.fill(vec![Position::new(5, 1)], Color::Cyan);
    assert_eq!(board.clear(), 1);
    assert_eq!(board.cells[0], [None; 10]);
    assert_eq!(board.at(Position::new(5, 1)), Some(Color::Cyan));
}

#[test]
fn clear_takes_out_every_full_row_at_once() {
    let mut board = Board::new();
    board.fill(row_of(19, 0..10), Color::Red);
    board.fill(row_of(17, 0..10), Color::Blue);
    board.fill(row_of(16, 0..10), Color::Blue);
    board.fill(vec![Position::new(1, 18)], Color::Green);
    board.fill(vec![Position::new(2, 15)], Color::Yellow);
    board.fill(vec![Position::new(3, 3)], Color::White);
    assert_eq!(board.clear(), 3);
    let mut expected = Board::new();
    expected.fill(vec![Position::new(1, 19)], Color::Green);
    expected.fill(vec![Position::new(2, 18)], Color::Yellow);
    expected.fill(vec![Position::new(3, 6)], Color::White);
    assert_eq!(board, expected);
}

#[test]
fn clear_of_a_full_board_leaves_it_empty() {
    let mut board = Board::new();
    for y in 0..20 {
        board.fill(row_of(y, 0..10), Color::Magenta);
    }
    assert_eq!(board.clear(), 20);
    assert_eq!(board, Board::new());
}

#[test]
fn clear_is_the_same_as_clearing_the_topmost_full_row_again_and_again() {
    let mut board = Board::new();
    board.fill(row_of(19, 0..10), Color::Red);
    board.fill(row_of(12, 0..10), Color::Blue);
    board.fill(row_of(5, 0..10), Color::Blue);
    board.fill(vec![Position::new(1, 18), Position::new(4, 11), Position::new(9, 2)], Color::Green);
    let mut at_once = board;
    assert_eq!(at_once.clear(), 3);

    let mut step = board;
    let mut count = 0;
    while let Some(k) = (0..20).find(|y| step.is_full(*y)) {
        let mut next = Board::new();
        for y in 1..20 {
            next.cells[y] = if y <= k { step.cells[y - 1] } else { step.cells[y] };
        }
        step = next;
        count += 1;
    }
    assert_eq!(count, 3);
    assert_eq!(at_once, step);
}

#[test]
fn clear_leaves_no_full_row_and_clears_nothing_more() {
    let mut board = Board::new();
    board.fill(row_of(19, 0..10), Color::Red);
    board.fill(row_of(18, 0..10), Color::Red);
    board.fill(row_of(3, 2..10), Color::Red);
    assert_eq!(board.clear(), 2);
    for y in 0..20 {
        assert!(!board.is_full(y));
    }
    let after = board;
    assert_eq!(board.clear(), 0);
    assert_eq!(board, after);
}

#[test]
fn filling_the_last_gap_of_the_bottom_row_clears_it() {
    let mut board = Board::new();
    board.fill(row_of(19, 0..9), Color::Blue);
    assert_eq!(board.clear(), 0);
    board.fill(vec![Position::new(9, 19)], Color::Red);
    assert_eq!(board.clear(), 1);
    assert_eq!(board.cells[19], [None; 10]);
    assert_eq!(board, Board::new());
}

#[test]
fn render_draws_the_locked_cells_in_reading_order() {
    let mut board = Board::new();
    board.fill(vec![Position::new(9, 19), Position::new(0, 0)], Color::Red);
    board.fill(vec![Position::new(5, 7), Position::new(3, 7)], Color::Cyan);
    let mut canvas = vec![Paint::Clear(Color::Black)];
    board.render(&mut canvas);
    assert_eq!(
        canvas,
        vec![
            Paint::Clear(Color::Black),
            Paint::Cell { position: Position::new(0, 0), color: Color::Red },
            Paint::Cell { position: Position::new(3, 7), color: Color::Cyan },
            Paint::Cell { position: Position::new(5, 7), color: Color::Cyan },
            Paint::Cell { position: Position::new(9, 19), color: Color::Red },
        ]
    );
}

#[test]
fn render_of_empty_board_draws_nothing() {
    let mut canvas = Vec::new();
    Board::new().render(&mut canvas);
    assert!(canvas.is_empty());
}
