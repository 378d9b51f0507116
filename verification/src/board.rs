//! The board: its two grids, and what a frame does to the pieces.
//!
//! A frame has three steps, each a method of `Board`: `reset` forgets what
//! the last frame saw, `point` marks the pieces under the pointer, and
//! `overlays` says where the two highlight sprites go. `frame` runs the three
//! in that order.

use vstd::prelude::*;
use crate::grid::{
    cell_grid_from_fn, cell_grid_get, cell_grid_items, piece_grid_dim, piece_grid_from_fn,
    piece_grid_get, piece_grid_items, piece_grid_set, Grid,
};
use crate::layout::{
    spec_on_board, spec_starting_cell, spec_starting_piece, starting_cell, starting_piece,
    BLACK_ROWS_END, HEIGHT, WHITE_ROWS_START, WIDTH,
};
use crate::piece::{Cell, Color, Overlay, Piece, Side};

verus! {

/// The tiles of the starting board: one on every square, coloured in turn.
pub open spec fn starting_cells() -> Map<(usize, usize), Cell> {
    Map::new(
        |k: (usize, usize)| spec_on_board(k.0, k.1),
        |k: (usize, usize)| spec_starting_cell(k.0, k.1),
    )
}

/// The pieces of the starting board, square by square.
pub open spec fn starting_pieces() -> Map<(usize, usize), Option<Piece>> {
    Map::new(
        |k: (usize, usize)| spec_on_board(k.0, k.1),
        |k: (usize, usize)| spec_starting_piece(k.0, k.1),
    )
}

/// A square as `Piece::cleared` leaves it.
pub open spec fn cleared_slot(slot: Option<Piece>, click: bool) -> Option<Piece> {
    match slot {
        Some(piece) => Some(piece.cleared(click)),
        None => None,
    }
}

/// A square as `Piece::pointed` leaves it.
pub open spec fn pointed_slot(slot: Option<Piece>, click: bool) -> Option<Piece> {
    match slot {
        Some(piece) => Some(piece.pointed(click)),
        None => None,
    }
}

/// A square as `Piece::framed` leaves it.
pub open spec fn framed_slot(slot: Option<Piece>, hit: bool, click: bool) -> Option<Piece> {
    match slot {
        Some(piece) => Some(piece.framed(hit, click)),
        None => None,
    }
}

/// The pieces after the first step of a frame: every piece cleared.
pub open spec fn cleared_all(pieces: Map<(usize, usize), Option<Piece>>, click: bool) -> Map<
    (usize, usize),
    Option<Piece>,
> {
    Map::new(
        |k: (usize, usize)| pieces.dom().contains(k),
        |k: (usize, usize)| cleared_slot(pieces[k], click),
    )
}

/// The pieces after the second step of a frame: the pieces on the squares in
/// `hits` pointed at, the others untouched.
pub open spec fn pointed_all(
    pieces: Map<(usize, usize), Option<Piece>>,
    hits: Seq<(usize, usize)>,
    click: bool,
) -> Map<(usize, usize), Option<Piece>> {
    Map::new(
        |k: (usize, usize)| pieces.dom().contains(k),
        |k: (usize, usize)|
            if hits.contains(k) {
                pointed_slot(pieces[k], click)
            } else {
                pieces[k]
            },
    )
}

/// The pieces after a whole frame in which the pointer was over the squares
/// in `hits`.
pub open spec fn framed_all(
    pieces: Map<(usize, usize), Option<Piece>>,
    hits: Seq<(usize, usize)>,
    click: bool,
) -> Map<(usize, usize), Option<Piece>> {
    Map::new(
        |k: (usize, usize)| pieces.dom().contains(k),
        |k: (usize, usize)| framed_slot(pieces[k], hits.contains(k), click),
    )
}

/// The order in which the squares are gone through: by the first coordinate,
/// and within it by the second.
pub open spec fn precedes(a: (usize, usize), b: (usize, usize)) -> bool {
    a.0 < b.0 || (a.0 == b.0 && a.1 < b.1)
}

/// Whether the piece on square `k` calls for the highlight `overlay`.
pub open spec fn shows(
    pieces: Map<(usize, usize), Option<Piece>>,
    k: (usize, usize),
    overlay: Overlay,
) -> bool {
    &&& pieces.dom().contains(k)
    &&& pieces[k] matches Some(piece)
    &&& piece.spec_overlay() == Some(overlay)
}

/// Whether `at` is where the highlight `overlay` belongs, looking only at the
/// squares before `end`: on the last of them whose piece calls for it, or
/// nowhere if none does.
pub open spec fn last_showing_before(
    pieces: Map<(usize, usize), Option<Piece>>,
    overlay: Overlay,
    end: (usize, usize),
    at: Option<(usize, usize)>,
) -> bool {
    match at {
        Some(k) => {
            &&& shows(pieces, k, overlay)
            &&& precedes(k, end)
            &&& forall|other: (usize, usize)|
                #[trigger] shows(pieces, other, overlay) && precedes(other, end) ==> other == k
                    || precedes(other, k)
        },
        None => forall|other: (usize, usize)|
            precedes(other, end) ==> !#[trigger] shows(pieces, other, overlay),
    }
}

/// Whether `at` is where the highlight `overlay` belongs: on the last square
/// whose piece calls for it, or nowhere if no piece does.
pub open spec fn last_showing(
    pieces: Map<(usize, usize), Option<Piece>>,
    overlay: Overlay,
    at: Option<(usize, usize)>,
) -> bool {
    match at {
        Some(k) => {
            &&& shows(pieces, k, overlay)
            &&& forall|other: (usize, usize)| #[trigger]
                shows(pieces, other, overlay) ==> other == k || precedes(other, k)
        },
        None => forall|other: (usize, usize)| !#[trigger] shows(pieces, other, overlay),
    }
}

/// Whether `now` can be what has become, in the course of a game, of a
/// square that started as `start`: an empty square stays empty, and a piece
/// stays the piece it was, with at most its flags changed, and those only if
/// it is the player's.
pub open spec fn in_play(start: Option<Piece>, now: Option<Piece>) -> bool {
    match (start, now) {
        (Some(p), Some(q)) => {
            &&& q.position == p.position
            &&& q.color == p.color
            &&& q.side == p.side
            &&& q.side == Side::Enemy ==> !q.hovered && !q.selected
        },
        (None, None) => true,
        _ => false,
    }
}

/// A frame is its two steps: clearing every piece and then pointing at those
/// under the pointer leaves each piece as `Piece::framed` says.
pub proof fn lemma_frame_in_steps(
    pieces: Map<(usize, usize), Option<Piece>>,
    hits: Seq<(usize, usize)>,
    click: bool,
)
    ensures
        pointed_all(cleared_all(pieces, click), hits, click) == framed_all(pieces, hits, click),
{
    assert(pointed_all(cleared_all(pieces, click), hits, click) =~= framed_all(
        pieces,
        hits,
        click,
    ));
}

/// Whether `pieces` can be the pieces of a board in the course of a game:
/// the squares are those of the board, and each is `in_play` for the square
/// it started as.
pub open spec fn all_in_play(pieces: Map<(usize, usize), Option<Piece>>) -> bool {
    &&& forall|k: (usize, usize)| #[trigger] pieces.dom().contains(k) <==> spec_on_board(k.0, k.1)
    &&& forall|k: (usize, usize)|
        spec_on_board(k.0, k.1) ==> in_play(spec_starting_piece(k.0, k.1), #[trigger] pieces[k])
}

/// No step of a frame adds, removes, moves or recolours a piece, or marks a
/// piece of the enemy: what was in play is in play afterwards.
pub proof fn lemma_frame_keeps_in_play(
    pieces: Map<(usize, usize), Option<Piece>>,
    hits: Seq<(usize, usize)>,
    click: bool,
)
    requires
        all_in_play(pieces),
    ensures
        all_in_play(cleared_all(pieces, click)),
        all_in_play(pointed_all(pieces, hits, click)),
        all_in_play(framed_all(pieces, hits, click)),
{
}

/// The starting position is in play.
pub proof fn lemma_start_in_play()
    ensures
        all_in_play(starting_pieces()),
{
}

/// A highlight has one place at most: two answers to where it belongs agree.
pub proof fn lemma_last_showing_unique(
    pieces: Map<(usize, usize), Option<Piece>>,
    overlay: Overlay,
    a: Option<(usize, usize)>,
    b: Option<(usize, usize)>,
)
    requires
        last_showing(pieces, overlay, a),
        last_showing(pieces, overlay, b),
    ensures
        a == b,
{
}

/// On the starting board no piece calls for a highlight.
pub proof fn lemma_start_shows_nothing(overlay: Overlay)
    ensures
        last_showing(starting_pieces(), overlay, None),
{
}

/// Where the two highlight sprites go in a frame. `None` hides the sprite.
#[derive(Clone, Copy, Debug, PartialEq, Eq)]
pub struct Overlays {
    pub hover: Option<(usize, usize)>,
    pub selection: Option<(usize, usize)>,
}

/// A draughts board: a tile on each square, and on each square at most one
/// piece.
pub struct Board {
    cells: Grid<Cell>,
    pieces: Grid<Option<Piece>>,
}

impl Board {
    /// The tile of each square of the board.
    pub closed spec fn cells(&self) -> Map<(usize, usize), Cell> {
        cell_grid_items(self.cells)
    }

    /// What stands on each square of the board.
    pub closed spec fn pieces(&self) -> Map<(usize, usize), Option<Piece>> {
        piece_grid_items(self.pieces)
    }

    /// The tile of square `(i, j)`, if the board has that square.
    pub open spec fn cell_at(&self, i: usize, j: usize) -> Option<Cell> {
        if self.cells().dom().contains((i, j)) {
            Some(self.cells()[(i, j)])
        } else {
            None
        }
    }

    /// The piece on square `(i, j)`, if the board has that square and a piece
    /// stands on it.
    pub open spec fn piece_at(&self, i: usize, j: usize) -> Option<Piece> {
        if self.pieces().dom().contains((i, j)) {
            self.pieces()[(i, j)]
        } else {
            None
        }
    }

    /// What holds of a board throughout a game: it has the tiles it started
    /// with, and its pieces are in play.
    pub open spec fn well_formed(&self) -> bool {
        &&& self.cells() == starting_cells()
        &&& all_in_play(self.pieces())
    }

    /// On a well-formed board the tiles alternate in colour, and pieces stand
    /// on black squares only: black ones, which are the enemy's, on the first
    /// three rows, and white ones, which are the player's, on the last three.
    /// Only white pieces are ever hovered or selected.
    pub proof fn lemma_well_formed(self, i: usize, j: usize)
        requires
            self.well_formed(),
        ensures
            self.cell_at(i, j) == (if spec_on_board(i, j) {
                Some(spec_starting_cell(i, j))
            } else {
                None
            }),
            self.piece_at(i, j) is Some <==> spec_starting_piece(i, j) is Some,
            self.piece_at(i, j) matches Some(p) ==> {
                &&& spec_on_board(i, j)
                &&& (i + j) % 2 == 1
                &&& j < BLACK_ROWS_END || j >= WHITE_ROWS_START
                &&& p.color == (if j < BLACK_ROWS_END {
                    Color::Black
                } else {
                    Color::White
                })
                &&& p.side == p.color.spec_side()
                &&& p.position == (0i128, 0i128)
                &&& p.hovered || p.selected ==> p.color == Color::White
            },
    {
    }

    /// The board at the start of a game: `WIDTH` by `HEIGHT` squares with
    /// the pieces in their starting position.
    pub fn new() -> (board: Board)
        ensures
            board.cells() == starting_cells(),
            board.pieces() == starting_pieces(),
            board.well_formed(),
    {
        let cell_at = |k: (usize, usize)| -> (cell: Cell)
            ensures
                cell == spec_starting_cell(k.0, k.1),
            {
                starting_cell(k.0, k.1)
            };
        let piece_at = |k: (usize, usize)| -> (piece: Option<Piece>)
            ensures
                piece == spec_starting_piece(k.0, k.1),
            {
                starting_piece(k.0, k.1)
            };
        let cells = cell_grid_from_fn(WIDTH, HEIGHT, cell_at);
        let pieces = piece_grid_from_fn(WIDTH, HEIGHT, piece_at);
        assert(cell_grid_items(cells) =~= starting_cells());
        assert(piece_grid_items(pieces) =~= starting_pieces());
        Board { cells, pieces }
    }

    /// The tile of square `(i, j)`, or `None` off the board.
    pub fn cell(&self, i: usize, j: usize) -> (cell: Option<Cell>)
        ensures
            cell == self.cell_at(i, j),
    {
        cell_grid_get(&self.cells, i, j)
    }

    /// The piece on square `(i, j)`, or `None` where the square is empty or
    /// off the board.
    pub fn piece(&self, i: usize, j: usize) -> (piece: Option<Piece>)
        ensures
            piece == self.piece_at(i, j),
    {
        match piece_grid_get(&self.pieces, i, j) {
            Some(slot) => slot,
            None => None,
        }
    }

    /// The first step of a frame: every piece forgets the pointer, and, if
    /// the button was pressed, that it was selected.
    pub fn reset(&mut self, click: bool)
        ensures
            final(self).pieces() == cleared_all(old(self).pieces(), click),
            final(self).cells() == old(self).cells(),
            old(self).well_formed() ==> final(self).well_formed(),
    {
        let shape = piece_grid_dim(&self.pieces);
        let ghost before = self.pieces();
        let mut i: usize = 0;
        while i < shape.0
            invariant
                i <= shape.0,
                self.cells() == old(self).cells(),
                before == old(self).pieces(),
                forall|k: (usize, usize)| #[trigger]
                    before.dom().contains(k) <==> (k.0 < shape.0 && k.1 < shape.1),
                self.pieces().dom() =~= before.dom(),
                forall|k: (usize, usize)| #[trigger]
                    before.dom().contains(k) ==> self.pieces()[k] == (if precedes(k, (i, 0)) {
                        cleared_slot(before[k], click)
                    } else {
                        before[k]
                    }),
            decreases shape.0 - i,
        {
            let mut j: usize = 0;
            while j < shape.1
                invariant
                    i < shape.0,
                    j <= shape.1,
                    self.cells() == old(self).cells(),
                    before == old(self).pieces(),
                    forall|k: (usize, usize)| #[trigger]
                        before.dom().contains(k) <==> (k.0 < shape.0 && k.1 < shape.1),
                    self.pieces().dom() =~= before.dom(),
                    forall|k: (usize, usize)| #[trigger]
                        before.dom().contains(k) ==> self.pieces()[k] == (if precedes(k, (i, j)) {
                            cleared_slot(before[k], click)
                        } else {
                            before[k]
                        }),
                decreases shape.1 - j,
            {
                match piece_grid_get(&self.pieces, i, j) {
                    Some(Some(piece)) => {
                        let mut piece = piece;
                        piece.reset(click);
                        piece_grid_set(&mut self.pieces, i, j, Some(piece));
                    },
                    _ => {},
                }
                j += 1;
            }
            i += 1;
        }
        proof {
            if old(self).well_formed() {
                lemma_frame_keeps_in_play(before, Seq::empty(), click);
            }
        }
    }

    /// The second step of a frame: the pieces on the squares in `hits`, which
    /// are those that the pointer is over, are pointed at. Squares that are
    /// empty or off the board count for nothing, and so does naming a square
    /// twice.
    pub fn point(&mut self, hits: &[(usize, usize)], click: bool)
        ensures
            final(self).pieces() == pointed_all(old(self).pieces(), hits@, click),
            final(self).cells() == old(self).cells(),
            old(self).well_formed() ==> final(self).well_formed(),
    {
        let ghost before = self.pieces();
        let mut n: usize = 0;
        while n < hits.len()
            invariant
                n <= hits.len(),
                self.cells() == old(self).cells(),
                before == old(self).pieces(),
                self.pieces() =~= pointed_all(before, hits@.take(n as int), click),
            decreases hits.len() - n,
        {
            let hit: (usize, usize) = hits[n];
            match piece_grid_get(&self.pieces, hit.0, hit.1) {
                Some(Some(piece)) => {
                    let mut piece = piece;
                    piece.point(click);
                    piece_grid_set(&mut self.pieces, hit.0, hit.1, Some(piece));
                },
                _ => {},
            }
            proof {
                let seen = hits@.take(n as int);
                let next = hits@.take(n + 1);
                assert(next =~= seen.push(hit));
                assert forall|k: (usize, usize)| next.contains(k) <==> (seen.contains(k) || k
                    == hit) by {
                    vstd::seq_lib::lemma_seq_contains_after_push(seen, hit, k);
                }
                assert(self.pieces() =~= pointed_all(before, next, click));
            }
            n += 1;
        }
        assert(hits@.take(hits.len() as int) =~= hits@);
        proof {
            if old(self).well_formed() {
                lemma_frame_keeps_in_play(before, hits@, click);
            }
        }
    }

    /// The last step of a frame: where the two highlight sprites go. Each
    /// goes to the last square, in the order of `precedes`, whose piece calls
    /// for it, and is hidden if no piece does.
    pub fn overlays(&self) -> (shown: Overlays)
        ensures
            last_showing(self.pieces(), Overlay::Hover, shown.hover),
            last_showing(self.pieces(), Overlay::Selection, shown.selection),
    {
        let shape = piece_grid_dim(&self.pieces);
        let mut hover: Option<(usize, usize)> = None;
        let mut selection: Option<(usize, usize)> = None;
        let mut i: usize = 0;
        while i < shape.0
            invariant
                i <= shape.0,
                forall|k: (usize, usize)| #[trigger]
                    self.pieces().dom().contains(k) <==> (k.0 < shape.0 && k.1 < shape.1),
                last_showing_before(self.pieces(), Overlay::Hover, (i, 0), hover),
                last_showing_before(self.pieces(), Overlay::Selection, (i, 0), selection),
            decreases shape.0 - i,
        {
            let mut j: usize = 0;
            while j < shape.1
                invariant
                    i < shape.0,
                    j <= shape.1,
                    forall|k: (usize, usize)| #[trigger]
                        self.pieces().dom().contains(k) <==> (k.0 < shape.0 && k.1 < shape.1),
                    last_showing_before(self.pieces(), Overlay::Hover, (i, j), hover),
                    last_showing_before(self.pieces(), Overlay::Selection, (i, j), selection),
                decreases shape.1 - j,
            {
                match piece_grid_get(&self.pieces, i, j) {
                    Some(Some(piece)) => {
                        match piece.overlay() {
                            Some(Overlay::Hover) => {
                                hover = Some((i, j));
                            },
                            Some(Overlay::Selection) => {
                                selection = Some((i, j));
                            },
                            None => {},
                        }
                    },
                    _ => {},
                }
                j += 1;
            }
            i += 1;
        }
        Overlays { hover, selection }
    }

    /// One frame: `reset`, then `point`, then `overlays`. Afterwards every
    /// piece is as `Piece::framed` says, and the highlights are placed by the
    /// new state.
    pub fn frame(&mut self, hits: &[(usize, usize)], click: bool) -> (shown: Overlays)
        ensures
            final(self).pieces() == framed_all(old(self).pieces(), hits@, click),
            final(self).cells() == old(self).cells(),
            old(self).well_formed() ==> final(self).well_formed(),
            last_showing(final(self).pieces(), Overlay::Hover, shown.hover),
            last_showing(final(self).pieces(), Overlay::Selection, shown.selection),
    {
        self.reset(click);
        self.point(hits, click);
        proof {
            lemma_frame_in_steps(old(self).pieces(), hits@, click);
        }
        self.overlays()
    }
}

} // verus!
