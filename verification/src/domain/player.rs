//! A player: an identity bound to a fixed piece color for the whole game.

use crate::domain::board::{opposite, ColorPiece};
use vstd::prelude::*;

verus! {

/// A player, characterized by the color of the pieces it plays.
pub struct Player(ColorPiece);

impl View for Player {
    type V = ColorPiece;

    closed spec fn view(&self) -> ColorPiece {
        self.0
    }
}

impl Player {
    /// A player of the given color.
    pub fn new(color: ColorPiece) -> (p: Player)
        ensures
            p@ == color,
    {
        Player(color)
    }

    /// The color of the opposing player's pieces.
    pub fn opponent_color(&self) -> (c: ColorPiece)
        ensures
            c == opposite(self@),
    {
        match self.0 {
            ColorPiece::White => ColorPiece::Black,
            ColorPiece::Black => ColorPiece::White,
        }
    }

    /// The color of this player's pieces.
    pub fn color(&self) -> (c: ColorPiece)
        ensures
            c == self@,
    {
        self.0
    }
}

} // verus!
