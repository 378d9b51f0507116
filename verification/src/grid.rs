//! The two grids of the board, kept in `ndarray` arrays.
//!
//! The arrays are the only part of the crate that the verifier does not look
//! into. Each grid is described by the map from the indices it holds to the
//! element stored there, and every function in this file is a single call
//! into `ndarray` whose effect on that map is stated and taken on trust.

use vstd::prelude::*;
use crate::piece::{Cell, Piece};

verus! {

/// A two-dimensional `ndarray::Array2`. The verifier knows the array only
/// through `cell_grid_items` and `piece_grid_items`.
#[verifier::external_body]
#[verifier::reject_recursive_types(T)]
pub struct Grid<T> {
    inner: ndarray::Array2<T>,
}

/// What a grid of tiles holds: the element at each index `(i, j)` of the
/// array. The domain is the set of indices within the array's shape.
pub uninterp spec fn cell_grid_items(grid: Grid<Cell>) -> Map<(usize, usize), Cell>;

/// What a grid of pieces holds: the element at each index `(i, j)` of the
/// array. The domain is the set of indices within the array's shape.
pub uninterp spec fn piece_grid_items(grid: Grid<Option<Piece>>) -> Map<
    (usize, usize),
    Option<Piece>,
>;

/// `ndarray::Array2::from_shape_fn` on the shape `(w, h)`, with `f` called
/// on each index for the element there. Taken on trust: the array holds
/// exactly the indices `(i, j)` with `i < w` and `j < h`, and at each of them
/// a value that `f` returned for that index. The sides are bounded because
/// the constructor panics where the number of elements, or of bytes, no
/// longer fits in an `isize`.
#[verifier::external_body]
pub(crate) fn cell_grid_from_fn<F: Fn((usize, usize)) -> Cell>(w: usize, h: usize, f: F) -> (grid:
    Grid<Cell>)
    requires
        w <= u8::MAX,
        h <= u8::MAX,
        forall|k: (usize, usize)| k.0 < w && k.1 < h ==> call_requires(f, (k,)),
    ensures
        forall|k: (usize, usize)| #[trigger]
            cell_grid_items(grid).dom().contains(k) <==> (k.0 < w && k.1 < h),
        forall|k: (usize, usize)|
            k.0 < w && k.1 < h ==> call_ensures(f, (k,), #[trigger] cell_grid_items(grid)[k]),
{
    Grid { inner: ndarray::Array2::from_shape_fn((w, h), f) }
}

/// `ndarray::Array2::from_shape_fn` on the shape `(w, h)`, with `f` called
/// on each index for the element there. Taken on trust: the array holds
/// exactly the indices `(i, j)` with `i < w` and `j < h`, and at each of them
/// a value that `f` returned for that index. The sides are bounded because
/// the constructor panics where the number of elements, or of bytes, no
/// longer fits in an `isize`.
#[verifier::external_body]
pub(crate) fn piece_grid_from_fn<F: Fn((usize, usize)) -> Option<Piece>>(
    w: usize,
    h: usize,
    f: F,
) -> (grid: Grid<Option<Piece>>)
    requires
        w <= u8::MAX,
        h <= u8::MAX,
        forall|k: (usize, usize)| k.0 < w && k.1 < h ==> call_requires(f, (k,)),
    ensures
        forall|k: (usize, usize)| #[trigger]
            piece_grid_items(grid).dom().contains(k) <==> (k.0 < w && k.1 < h),
        forall|k: (usize, usize)|
            k.0 < w && k.1 < h ==> call_ensures(f, (k,), #[trigger] piece_grid_items(grid)[k]),
{
    Grid { inner: ndarray::Array2::from_shape_fn((w, h), f) }
}

/// `get` of an `ndarray` array, at the index `(i, j)`. Taken on trust: it
/// returns the element at that index, or `None` where the index lies outside
/// the shape.
#[verifier::external_body]
pub(crate) fn cell_grid_get(grid: &Grid<Cell>, i: usize, j: usize) -> (cell: Option<Cell>)
    ensures
        cell == (if cell_grid_items(*grid).dom().contains((i, j)) {
            Some(cell_grid_items(*grid)[(i, j)])
        } else {
            None
        }),
{
    grid.inner.get((i, j)).copied()
}

/// `get` of an `ndarray` array, at the index `(i, j)`. Taken on trust: it
/// returns the element at that index, or `None` where the index lies outside
/// the shape.
#[verifier::external_body]
pub(crate) fn piece_grid_get(grid: &Grid<Option<Piece>>, i: usize, j: usize) -> (slot: Option<
    Option<Piece>,
>)
    ensures
        slot == (if piece_grid_items(*grid).dom().contains((i, j)) {
            Some(piece_grid_items(*grid)[(i, j)])
        } else {
            None
        }),
{
    grid.inner.get((i, j)).copied()
}

/// `dim` of an `ndarray` array of two dimensions. Taken on trust: it returns
/// the lengths of the two axes, and the array holds exactly the indices
/// below them.
#[verifier::external_body]
pub(crate) fn piece_grid_dim(grid: &Grid<Option<Piece>>) -> (shape: (usize, usize))
    ensures
        forall|k: (usize, usize)| #[trigger]
            piece_grid_items(*grid).dom().contains(k) <==> (k.0 < shape.0 && k.1 < shape.1),
{
    grid.inner.dim()
}

/// Assigning through the mutable index `(i, j)` of an `ndarray` array. Taken
/// on trust: the element at that index becomes `piece`, and every other
/// element and the shape stay as they were. The index must lie within the
/// shape, or the indexing panics.
#[verifier::external_body]
pub(crate) fn piece_grid_set(
    grid: &mut Grid<Option<Piece>>,
    i: usize,
    j: usize,
    piece: Option<Piece>,
)
    requires
        piece_grid_items(*old(grid)).dom().contains((i, j)),
    ensures
        piece_grid_items(*final(grid)) == piece_grid_items(*old(grid)).insert((i, j), piece),
{
    grid.inner[(i, j)] = piece;
}

} // verus!
