//! Move input for a chess board drawn on a square surface.
//!
//! Pointer events over the board are mapped to squares, tracked as a drag,
//! resolved into a move that the rules engine accepts or refuses, and reported
//! in a notation that shows each piece by its figurine.
//!
//! - [`geometry`] maps points of the surface to squares and back, in either
//!   orientation of the board.
//! - [`rules`] puts moves to the rules of chess, which the `owlchess` crate
//!   keeps.
//! - [`board`] is the board itself: it takes the press, the moves and the
//!   release of the pointer and the choice of a promotion piece, and tells
//!   what to draw.
//! - [`notation`] turns the notation of a move into its display form.
//!
//! The library draws nothing and calls nobody back: each event returns what
//! there is to report, and the state is read between events.

pub mod board;
pub mod geometry;
pub mod notation;
pub mod rules;

pub use board::{ChessBoard, DragSession, Highlight, Interaction};
pub use geometry::{pixel_to_square, square_to_pixel_center, BoardRect, Point, Square};
pub use notation::san_to_fan;
pub use rules::{IllegalMove, MoveRequest, PieceKind, PromotionPiece, Side};
