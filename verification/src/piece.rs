//! Pieces, cells and the highlight sprites, with the state changes of a piece.

use vstd::prelude::*;

verus! {

/// The two colours of squares and of pieces.
#[derive(Clone, Copy, Debug, PartialEq, Eq, Structural)]
pub enum Color {
    White,
    Black,
}

/// Who moves a piece. Only the player's pieces answer to the pointer.
#[derive(Clone, Copy, Debug, PartialEq, Eq, Structural)]
pub enum Side {
    Player,
    Enemy,
}

/// The two sprites that mark a piece: one while the pointer is over it, one
/// once it has been picked.
#[derive(Clone, Copy, Debug, PartialEq, Eq, Structural)]
pub enum Overlay {
    Hover,
    Selection,
}

impl Color {
    /// White plays for the player, black for the enemy.
    pub open spec fn spec_side(self) -> Side {
        match self {
            Color::White => Side::Player,
            Color::Black => Side::Enemy,
        }
    }

    /// The side that plays this colour.
    #[verifier::when_used_as_spec(spec_side)]
    pub fn side(self) -> (s: Side)
        ensures
            s == self.spec_side(),
    {
        match self {
            Color::White => Side::Player,
            Color::Black => Side::Enemy,
        }
    }
}

impl Overlay {
    /// The texture of each highlight sprite.
    pub open spec fn spec_sprite_path(self) -> Seq<char> {
        match self {
            Overlay::Hover => "data/sprites/highlighting.png"@,
            Overlay::Selection => "data/sprites/selection.png"@,
        }
    }

    /// Where the texture of this highlight sprite is stored.
    pub fn sprite_path(self) -> (path: &'static str)
        ensures
            path@ == self.spec_sprite_path(),
    {
        match self {
            Overlay::Hover => "data/sprites/highlighting.png",
            Overlay::Selection => "data/sprites/selection.png",
        }
    }
}

/// A square of the board as it is drawn: a tile of one colour, which never
/// changes.
#[derive(Clone, Copy, Debug, PartialEq, Eq)]
pub struct Cell {
    pub color: Color,
}

impl Cell {
    /// A tile of the given colour.
    pub fn new(color: Color) -> (cell: Cell)
        ensures
            cell == (Cell { color }),
    {
        Cell { color }
    }

    /// The texture of a tile, by its colour.
    pub open spec fn spec_sprite_path(self) -> Seq<char> {
        match self.color {
            Color::White => "data/sprites/white_cell.png"@,
            Color::Black => "data/sprites/black_cell.png"@,
        }
    }

    /// Where the texture of this tile is stored.
    pub fn sprite_path(&self) -> (path: &'static str)
        ensures
            path@ == self.spec_sprite_path(),
    {
        match self.color {
            Color::White => "data/sprites/white_cell.png",
            Color::Black => "data/sprites/black_cell.png",
        }
    }
}

/// A piece: its colour and side, a position relative to the board in ticks
/// (see `layout`), and the two flags that the pointer sets and clears.
#[derive(Clone, Copy, Debug, PartialEq, Eq)]
pub struct Piece {
    pub position: (i128, i128),
    pub color: Color,
    pub hovered: bool,
    pub selected: bool,
    pub side: Side,
}

impl Piece {
    /// A fresh piece: at the origin, untouched by the pointer, on the side
    /// that plays its colour.
    pub open spec fn spec_new(color: Color) -> Piece {
        Piece {
            position: (0i128, 0i128),
            color,
            hovered: false,
            selected: false,
            side: color.spec_side(),
        }
    }

    /// Makes a piece of the given colour.
    #[verifier::when_used_as_spec(spec_new)]
    pub fn new(color: Color) -> (piece: Piece)
        ensures
            piece == Piece::spec_new(color),
    {
        Piece { position: (0, 0), color, hovered: false, selected: false, side: color.side() }
    }

    /// The texture of a piece, by its colour.
    pub open spec fn spec_sprite_path(self) -> Seq<char> {
        match self.color {
            Color::White => "data/sprites/white_piece.png"@,
            Color::Black => "data/sprites/black_piece.png"@,
        }
    }

    /// Where the texture of this piece is stored.
    pub fn sprite_path(&self) -> (path: &'static str)
        ensures
            path@ == self.spec_sprite_path(),
    {
        match self.color {
            Color::White => "data/sprites/white_piece.png",
            Color::Black => "data/sprites/black_piece.png",
        }
    }

    /// The piece as a frame first leaves it: no longer hovered, and no longer
    /// selected if the button was pressed.
    pub open spec fn cleared(self, click: bool) -> Piece {
        Piece { hovered: false, selected: self.selected && !click, ..self }
    }

    /// The piece once the pointer is over it: a piece of the player becomes
    /// hovered, and selected too if the button was pressed; a piece of the
    /// enemy stays as it is.
    pub open spec fn pointed(self, click: bool) -> Piece {
        if self.side == Side::Player {
            Piece { hovered: true, selected: self.selected || click, ..self }
        } else {
            self
        }
    }

    /// The piece after one whole frame in which the pointer was over it
    /// (`hit`) or not.
    pub open spec fn framed(self, hit: bool, click: bool) -> Piece {
        if hit {
            self.cleared(click).pointed(click)
        } else {
            self.cleared(click)
        }
    }

    /// The highlight that this piece calls for: the hover sprite while it is
    /// hovered and not selected, the selection sprite while it is selected.
    pub open spec fn spec_overlay(&self) -> Option<Overlay> {
        if self.hovered && !self.selected {
            Some(Overlay::Hover)
        } else if self.selected {
            Some(Overlay::Selection)
        } else {
            None
        }
    }

    /// Starts a frame: drops the hover, and the selection if the button was
    /// pressed.
    pub fn reset(&mut self, click: bool)
        ensures
            *final(self) == old(self).cleared(click),
    {
        self.hovered = false;
        if click {
            self.selected = false;
        }
    }

    /// Tells the piece that the pointer is over it.
    pub fn point(&mut self, click: bool)
        ensures
            *final(self) == old(self).pointed(click),
    {
        if self.side == Side::Player {
            self.hovered = true;
            if click {
                self.selected = true;
            }
        }
    }

    /// The highlight sprite to show on this piece, if any.
    #[verifier::when_used_as_spec(spec_overlay)]
    pub fn overlay(&self) -> (o: Option<Overlay>)
        ensures
            o == self.spec_overlay(),
    {
        if self.hovered && !self.selected {
            Some(Overlay::Hover)
        } else if self.selected {
            Some(Overlay::Selection)
        } else {
            None
        }
    }

    /// After a frame a piece is hovered exactly if the pointer was over it and
    /// it is the player's. A press of the button selects exactly those pieces;
    /// without one the selection stays as it was. Nothing else about the piece
    /// changes.
    pub proof fn lemma_framed(self, hit: bool, click: bool)
        ensures
            self.framed(hit, click).hovered == (hit && self.side == Side::Player),
            self.framed(hit, click).selected == (if click {
                hit && self.side == Side::Player
            } else {
                self.selected
            }),
            self.framed(hit, click).position == self.position,
            self.framed(hit, click).color == self.color,
            self.framed(hit, click).side == self.side,
    {
    }

    /// The pointer has no hold on the enemy: a piece of the enemy that bears
    /// no flag comes out of every frame as it went in.
    pub proof fn lemma_enemy_untouched(self, hit: bool, click: bool)
        requires
            self.side == Side::Enemy,
            !self.hovered,
            !self.selected,
        ensures
            self.framed(hit, click) == self,
    {
    }
}

} // verus!
