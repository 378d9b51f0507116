//! The geometry of the board: its size, the colour of each square, the
//! starting position, and where the squares lie in the window.
//!
//! Window coordinates are exact. They are counted in ticks, `TICKS` of them
//! to one unit of normalized device coordinates, so the window spans
//! `-TICKS..=TICKS` on both axes, with `y` pointing up.

use vstd::prelude::*;
use crate::piece::{Cell, Color, Piece};

verus! {

/// Squares along the first axis, which runs from left to right.
pub const WIDTH: usize = 8;

/// Squares along the second axis, which runs from top to bottom.
pub const HEIGHT: usize = 8;

/// Black starts on the rows before this one.
pub const BLACK_ROWS_END: usize = 3;

/// White starts on this row and those after it.
pub const WHITE_ROWS_START: usize = 5;

/// Ticks to one unit of normalized device coordinates. It is a multiple of
/// `WIDTH`, of `HEIGHT` and of ten, so that corners, centres and both sprite
/// scales are whole numbers of ticks.
pub const TICKS: i128 = 80;

/// Whether `(i, j)` names a square of the board.
pub open spec fn spec_on_board(i: usize, j: usize) -> bool {
    i < WIDTH && j < HEIGHT
}

/// Whether `(i, j)` names a square of the board.
#[verifier::when_used_as_spec(spec_on_board)]
pub fn on_board(i: usize, j: usize) -> (b: bool)
    ensures
        b == spec_on_board(i, j),
{
    i < WIDTH && j < HEIGHT
}

/// Squares alternate: white where the coordinates add up to an even number,
/// black where the sum is odd.
pub open spec fn spec_square_color(i: usize, j: usize) -> Color {
    if (i + j) % 2 == 0 {
        Color::White
    } else {
        Color::Black
    }
}

/// The colour of square `(i, j)`.
#[verifier::when_used_as_spec(spec_square_color)]
pub fn square_color(i: usize, j: usize) -> (color: Color)
    ensures
        color == spec_square_color(i, j),
{
    if i % 2 == j % 2 {
        Color::White
    } else {
        Color::Black
    }
}

/// The tile of square `(i, j)`.
pub open spec fn spec_starting_cell(i: usize, j: usize) -> Cell {
    Cell { color: spec_square_color(i, j) }
}

/// The tile of square `(i, j)`.
#[verifier::when_used_as_spec(spec_starting_cell)]
pub fn starting_cell(i: usize, j: usize) -> (cell: Cell)
    ensures
        cell == spec_starting_cell(i, j),
{
    Cell::new(square_color(i, j))
}

/// The starting position: pieces stand on black squares of the board only,
/// black ones on the first three rows and white ones on the last three.
pub open spec fn spec_starting_piece(i: usize, j: usize) -> Option<Piece> {
    if !spec_on_board(i, j) || spec_square_color(i, j) == Color::White {
        None
    } else if j < BLACK_ROWS_END {
        Some(Piece::spec_new(Color::Black))
    } else if j >= WHITE_ROWS_START {
        Some(Piece::spec_new(Color::White))
    } else {
        None
    }
}

/// The piece that starts on square `(i, j)`, if one does.
#[verifier::when_used_as_spec(spec_starting_piece)]
pub fn starting_piece(i: usize, j: usize) -> (piece: Option<Piece>)
    ensures
        piece == spec_starting_piece(i, j),
{
    if !on_board(i, j) {
        return None;
    }
    let color = if j < BLACK_ROWS_END {
        Color::Black
    } else if j >= WHITE_ROWS_START {
        Color::White
    } else {
        return None;
    };
    if square_color(i, j) == Color::White {
        return None;
    }
    Some(Piece::new(color))
}

/// The width of a square in ticks: the window is `2 * TICKS` wide.
pub open spec fn spec_square_width() -> int {
    2 * TICKS / (WIDTH as int)
}

/// The height of a square in ticks: the window is `2 * TICKS` high.
pub open spec fn spec_square_height() -> int {
    2 * TICKS / (HEIGHT as int)
}

/// The window position of the upper left corner of square `(x, y)`, in
/// ticks: the board fills the window, its first square in the upper left.
pub open spec fn spec_to_world(x: int, y: int) -> (int, int) {
    (-TICKS + x * spec_square_width(), TICKS - y * spec_square_height())
}

/// The window position of the upper left corner of square `(x, y)`, in ticks.
pub fn to_world(x: usize, y: usize) -> (corner: (i128, i128))
    ensures
        corner.0 == spec_to_world(x as int, y as int).0,
        corner.1 == spec_to_world(x as int, y as int).1,
{
    let step_x: i128 = 2 * TICKS / (WIDTH as i128);
    let step_y: i128 = 2 * TICKS / (HEIGHT as i128);
    assert(step_x == 20 && step_y == 20);
    (-TICKS + (x as i128) * step_x, TICKS - (y as i128) * step_y)
}

/// The scale of a tile's sprite, in ticks: half the side of a square.
pub open spec fn spec_cell_scale() -> int {
    (TICKS as int) / (HEIGHT as int)
}

/// The scale of a tile's sprite, in ticks.
pub fn cell_scale() -> (scale: i128)
    ensures
        scale == spec_cell_scale(),
{
    TICKS / (HEIGHT as i128)
}

/// The scale of a piece's sprite, in ticks: nine tenths of a tile's.
pub open spec fn spec_piece_scale() -> int {
    spec_cell_scale() * 9 / 10
}

/// The scale of a piece's sprite, in ticks.
pub fn piece_scale() -> (scale: i128)
    ensures
        scale == spec_piece_scale(),
{
    cell_scale() * 9 / 10
}

/// The window position of the centre of square `(x, y)`, in ticks: one tile
/// scale right of its corner and one below it. Tiles and pieces are drawn
/// there.
pub open spec fn spec_square_center(x: int, y: int) -> (int, int) {
    (spec_to_world(x, y).0 + spec_cell_scale(), spec_to_world(x, y).1 - spec_cell_scale())
}

/// The window position of the centre of square `(x, y)`, in ticks.
pub fn square_center(x: usize, y: usize) -> (center: (i128, i128))
    ensures
        center.0 == spec_square_center(x as int, y as int).0,
        center.1 == spec_square_center(x as int, y as int).1,
{
    let corner = to_world(x, y);
    let size = cell_scale();
    proof {
        lemma_to_world_in_numbers(x as int, y as int);
    }
    (corner.0 + size, corner.1 - size)
}

/// A piece starts on a square only if the square lies on the board and is
/// black; it is black on the first three rows and white on the last three,
/// and in every case fresh.
pub proof fn lemma_starting_position(i: usize, j: usize)
    ensures
        spec_starting_piece(i, j) matches Some(p) ==> {
            &&& spec_on_board(i, j)
            &&& (i + j) % 2 == 1
            &&& j < BLACK_ROWS_END || j >= WHITE_ROWS_START
            &&& p == Piece::spec_new(p.color)
            &&& (p.color == Color::Black <==> j < BLACK_ROWS_END)
        },
        spec_starting_piece(i, j) is Some <==> spec_on_board(i, j) && (i + j) % 2 == 1 && (j
            < BLACK_ROWS_END || j >= WHITE_ROWS_START),
{
}

/// Squares that share a side differ in colour.
pub proof fn lemma_colors_alternate(i: usize, j: usize)
    requires
        i < usize::MAX,
        j < usize::MAX,
    ensures
        spec_square_color((i + 1) as usize, j) != spec_square_color(i, j),
        spec_square_color(i, (j + 1) as usize) != spec_square_color(i, j),
{
}

/// In numbers: a square is twenty ticks wide and twenty high, and the first
/// one has its corner in the window's upper left corner.
pub proof fn lemma_to_world_in_numbers(x: int, y: int)
    ensures
        spec_to_world(x, y) == (20 * x - 80, 80 - 20 * y),
{
    let w = spec_square_width();
    let h = spec_square_height();
    assert(w == 20 && h == 20);
    assert(x * w == 20 * x) by (nonlinear_arith)
        requires
            w == 20,
    ;
    assert(y * h == 20 * y) by (nonlinear_arith)
        requires
            h == 20,
    ;
}

/// The squares of the board tile the window exactly: every corner lies in
/// the window, the first in its upper left corner, and the far corner of the
/// last square in its lower right one.
pub proof fn lemma_board_fills_window(x: int, y: int)
    requires
        0 <= x <= WIDTH,
        0 <= y <= HEIGHT,
    ensures
        -TICKS <= spec_to_world(x, y).0 <= TICKS,
        -TICKS <= spec_to_world(x, y).1 <= TICKS,
        spec_to_world(0, 0) == (-(TICKS as int), TICKS as int),
        spec_to_world(WIDTH as int, HEIGHT as int) == (TICKS as int, -(TICKS as int)),
{
    lemma_to_world_in_numbers(x, y);
    lemma_to_world_in_numbers(0, 0);
    lemma_to_world_in_numbers(WIDTH as int, HEIGHT as int);
}

} // verus!
