//! Core of an offline chess puzzle trainer: a move-notation codec that
//! renders coordinate moves as localized algebraic text, a puzzle session
//! state machine that checks a player's moves against a solution sequence,
//! and an engine session protocol for a local analysis engine.
use vstd::prelude::*;

pub mod board;
pub mod config;
pub mod engine;
pub mod lang;
pub mod notation;
pub mod puzzles;
pub mod session;
pub mod strutil;

verus! {

/// A board cell as the widget grid addresses it.
#[derive(Clone, Copy, Debug, PartialEq, Eq, PartialOrd, Ord, Structural)]
pub struct PositionGUI {
    row: i32,
    col: i32,
}

/// The tabs of the host window.
#[derive(Copy, Clone, PartialEq, Eq, Debug, Structural)]
pub enum TabId {
    Search,
    Settings,
    CurrentPuzzle,
}

/// A piece together with its color, in the order the sprite sheet uses.
#[derive(Clone, Copy, Hash, Eq, PartialEq, PartialOrd, Ord, Structural)]
pub enum PieceWithColor {
    WhitePawn,
    WhiteRook,
    WhiteKnight,
    WhiteBishop,
    WhiteQueen,
    WhiteKing,
    BlackPawn,
    BlackRook,
    BlackKnight,
    BlackBishop,
    BlackQueen,
    BlackKing,
}

impl PieceWithColor {
    /// Position of this piece's image in the sprite list.
    pub open spec fn index_spec(self) -> int {
        match self {
            PieceWithColor::WhitePawn => 0,
            PieceWithColor::WhiteRook => 1,
            PieceWithColor::WhiteKnight => 2,
            PieceWithColor::WhiteBishop => 3,
            PieceWithColor::WhiteQueen => 4,
            PieceWithColor::WhiteKing => 5,
            PieceWithColor::BlackPawn => 6,
            PieceWithColor::BlackRook => 7,
            PieceWithColor::BlackKnight => 8,
            PieceWithColor::BlackBishop => 9,
            PieceWithColor::BlackQueen => 10,
            PieceWithColor::BlackKing => 11,
        }
    }

    pub fn index(&self) -> (r: usize)
        ensures
            r == self.index_spec(),
            r < 12,
    {
        match self {
            PieceWithColor::WhitePawn => 0,
            PieceWithColor::WhiteRook => 1,
            PieceWithColor::WhiteKnight => 2,
            PieceWithColor::WhiteBishop => 3,
            PieceWithColor::WhiteQueen => 4,
            PieceWithColor::WhiteKing => 5,
            PieceWithColor::BlackPawn => 6,
            PieceWithColor::BlackRook => 7,
            PieceWithColor::BlackKnight => 8,
            PieceWithColor::BlackBishop => 9,
            PieceWithColor::BlackQueen => 10,
            PieceWithColor::BlackKing => 11,
        }
    }
}

} // verus!
