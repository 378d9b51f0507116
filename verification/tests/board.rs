use draughts::board::{Board, Overlays};
use draughts::layout::{starting_cell, starting_piece, HEIGHT, WIDTH};
use draughts::piece::{Cell, Color, Piece, Side};

fn marked(color: Color, hovered: bool, selected: bool) -> Option<Piece> {
    let mut piece = Piece::new(color);
    piece.hovered = hovered;
    piece.selected = selected;
    Some(piece)
}

fn hidden() -> Overlays {
    Overlays { hover: None, selection: None }
}

#[test]
fn new_board_has_the_starting_position() {
    let board = Board::new();
    for i in 0..WIDTH {
        for j in 0..HEIGHT {
            assert_eq!(board.piece(i, j), starting_piece(i, j));
            assert_eq!(board.cell(i, j), Some(starting_cell(i, j)));
        }
    }
}

#[test]
fn new_board_named_squares() {
    let board = Board::new();
    assert_eq!(board.cell(0, 0), Some(Cell { color: Color::White }));
    assert_eq!(board.cell(1, 0), Some(Cell { color: Color::Black }));
    assert_eq!(board.piece(0, 0), None);
    assert_eq!(board.piece(1, 0), Some(Piece::new(Color::Black)));
    assert_eq!(board.piece(2, 1), Some(Piece::new(Color::Black)));
    assert_eq!(board.piece(0, 3), None);
    assert_eq!(board.piece(1, 4), None);
    assert_eq!(board.piece(0, 5), Some(Piece::new(Color::White)));
    assert_eq!(board.piece(6, 7), Some(Piece::new(Color::White)));
}

#[test]
fn nothing_lies_off_the_board() {
    let board = Board::new();
    assert_eq!(board.cell(8, 0), None);
    assert_eq!(board.cell(0, 8), None);
    assert_eq!(board.cell(usize::MAX, usize::MAX), None);
    assert_eq!(board.piece(8, 1), None);
    assert_eq!(board.piece(1, 8), None);
    assert_eq!(board.piece(9, 0), None);
}

#[test]
fn new_board_shows_no_highlight() {
    let board = Board::new();
    assert_eq!(board.overlays(), hidden());
}

#[test]
fn an_idle_frame_changes_nothing() {
    let mut board = Board::new();
    assert_eq!(board.frame(&[], false), hidden());
    assert_eq!(board.frame(&[], true), hidden());
    for i in 0..WIDTH {
        for j in 0..HEIGHT {
            assert_eq!(board.piece(i, j), starting_piece(i, j));
            assert_eq!(board.cell(i, j), Some(starting_cell(i, j)));
        }
    }
}

#[test]
fn the_pointer_hovers_a_white_piece() {
    let mut board = Board::new();
    let shown = board.frame(&[(0, 5)], false);
    assert_eq!(shown, Overlays { hover: Some((0, 5)), selection: None });
    assert_eq!(board.piece(0, 5), marked(Color::White, true, false));
    assert_eq!(board.piece(2, 5), marked(Color::White, false, false));
}

#[test]
fn the_hover_ends_with_the_frame() {
    let mut board = Board::new();
    board.frame(&[(0, 5)], false);
    let shown = board.frame(&[], false);
    assert_eq!(shown, hidden());
    assert_eq!(board.piece(0, 5), marked(Color::White, false, false));
}

#[test]
fn a_click_selects_the_piece_under_the_pointer() {
    let mut board = Board::new();
    let shown = board.frame(&[(0, 5)], true);
    assert_eq!(shown, Overlays { hover: None, selection: Some((0, 5)) });
    assert_eq!(board.piece(0, 5), marked(Color::White, true, true));
}

#[test]
fn the_selection_outlives_the_frame() {
    let mut board = Board::new();
    board.frame(&[(0, 5)], true);
    let shown = board.frame(&[], false);
    assert_eq!(shown, Overlays { hover: None, selection: Some((0, 5)) });
    assert_eq!(board.piece(0, 5), marked(Color::White, false, true));
}

#[test]
fn a_hover_beside_a_selection() {
    let mut board = Board::new();
    board.frame(&[(0, 5)], true);
    let shown = board.frame(&[(2, 5)], false);
    assert_eq!(shown, Overlays { hover: Some((2, 5)), selection: Some((0, 5)) });
    assert_eq!(board.piece(0, 5), marked(Color::White, false, true));
    assert_eq!(board.piece(2, 5), marked(Color::White, true, false));
}

#[test]
fn a_click_elsewhere_drops_the_selection() {
    let mut board = Board::new();
    board.frame(&[(0, 5)], true);
    let shown = board.frame(&[], true);
    assert_eq!(shown, hidden());
    assert_eq!(board.piece(0, 5), marked(Color::White, false, false));
}

#[test]
fn a_click_on_another_piece_moves_the_selection() {
    let mut board = Board::new();
    board.frame(&[(0, 5)], true);
    let shown = board.frame(&[(2, 5)], true);
    assert_eq!(shown, Overlays { hover: None, selection: Some((2, 5)) });
    assert_eq!(board.piece(0, 5), marked(Color::White, false, false));
    assert_eq!(board.piece(2, 5), marked(Color::White, true, true));
}

#[test]
fn the_pointer_has_no_hold_on_black() {
    let mut board = Board::new();
    let shown = board.frame(&[(1, 0)], true);
    assert_eq!(shown, hidden());
    assert_eq!(board.piece(1, 0), Some(Piece::new(Color::Black)));
    assert_eq!(board.piece(1, 0).map(|p| p.side), Some(Side::Enemy));
}

#[test]
fn empty_squares_and_squares_off_the_board_count_for_nothing() {
    let mut board = Board::new();
    let shown = board.frame(&[(0, 0), (0, 3), (8, 5), (0, 8), (usize::MAX, usize::MAX)], true);
    assert_eq!(shown, hidden());
    for i in 0..WIDTH {
        for j in 0..HEIGHT {
            assert_eq!(board.piece(i, j), starting_piece(i, j));
        }
    }
}

#[test]
fn a_square_named_twice_counts_once() {
    let mut board = Board::new();
    let shown = board.frame(&[(0, 5), (0, 5)], true);
    assert_eq!(shown, Overlays { hover: None, selection: Some((0, 5)) });
    assert_eq!(board.piece(0, 5), marked(Color::White, true, true));
}

#[test]
fn the_last_hovered_piece_gets_the_highlight() {
    let mut board = Board::new();
    let shown = board.frame(&[(2, 5), (0, 5), (1, 6)], false);
    assert_eq!(shown, Overlays { hover: Some((2, 5)), selection: None });
    assert_eq!(board.piece(0, 5), marked(Color::White, true, false));
    assert_eq!(board.piece(1, 6), marked(Color::White, true, false));
    assert_eq!(board.piece(2, 5), marked(Color::White, true, false));
}

#[test]
fn within_a_column_the_lower_row_comes_last() {
    let mut board = Board::new();
    let shown = board.frame(&[(0, 7), (0, 5)], false);
    assert_eq!(shown.hover, Some((0, 7)));
    let shown = board.frame(&[(0, 7), (1, 6)], true);
    assert_eq!(shown, Overlays { hover: None, selection: Some((1, 6)) });
}

#[test]
fn the_steps_of_a_frame_one_by_one() {
    let mut board = Board::new();
    board.point(&[(0, 5), (1, 0)], true);
    assert_eq!(board.piece(0, 5), marked(Color::White, true, true));
    assert_eq!(board.piece(1, 0), marked(Color::Black, false, false));
    assert_eq!(board.overlays(), Overlays { hover: None, selection: Some((0, 5)) });
    board.reset(false);
    assert_eq!(board.piece(0, 5), marked(Color::White, false, true));
    assert_eq!(board.overlays(), Overlays { hover: None, selection: Some((0, 5)) });
    board.point(&[(7, 6)], false);
    assert_eq!(board.piece(7, 6), marked(Color::White, true, false));
    assert_eq!(board.overlays(), Overlays { hover: Some((7, 6)), selection: Some((0, 5)) });
    board.reset(true);
    assert_eq!(board.piece(0, 5), marked(Color::White, false, false));
    assert_eq!(board.piece(7, 6), marked(Color::White, false, false));
    assert_eq!(board.overlays(), hidden());
}

#[test]
fn reset_reaches_every_square() {
    let mut board = Board::new();
    let mut all = Vec::new();
    for i in 0..WIDTH {
        for j in 0..HEIGHT {
            all.push((i, j));
        }
    }
    board.point(&all, true);
    for i in 0..WIDTH {
        for j in 0..HEIGHT {
            let expected = starting_piece(i, j).map(|mut p| {
                if p.side == Side::Player {
                    p.hovered = true;
                    p.selected = true;
                }
                p
            });
            assert_eq!(board.piece(i, j), expected);
        }
    }
    assert_eq!(board.overlays(), Overlays { hover: None, selection: Some((7, 6)) });
    board.reset(true);
    for i in 0..WIDTH {
        for j in 0..HEIGHT {
            assert_eq!(board.piece(i, j), starting_piece(i, j));
        }
    }
}

#[test]
fn a_frame_keeps_the_tiles_and_the_pieces_in_place() {
    let mut board = Board::new();
    board.frame(&[(0, 5), (1, 0), (3, 4)], true);
    board.frame(&[(2, 7)], false);
    for i in 0..WIDTH {
        for j in 0..HEIGHT {
            assert_eq!(board.cell(i, j), Some(starting_cell(i, j)));
            let now = board.piece(i, j);
            let start = starting_piece(i, j);
            assert_eq!(now.is_some(), start.is_some());
            assert_eq!(
                now.map(|p| (p.position, p.color, p.side)),
                start.map(|p| (p.position, p.color, p.side))
            );
        }
    }
}
