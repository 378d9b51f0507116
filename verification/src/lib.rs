//! A draughts board for a sprite-based viewer: the squares and their colours,
//! the starting position, where each square lies in the window, and the
//! hover and selection state that the pointer drives from frame to frame.
//!
//! Rendering and input stay with the caller. The board takes what the caller
//! saw in a frame (the squares whose piece is under the pointer, and whether
//! the button was pressed) and answers with the new state and the squares
//! that the two highlight sprites belong on.

pub mod board;
pub mod grid;
pub mod layout;
pub mod piece;
