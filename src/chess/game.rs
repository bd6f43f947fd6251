use vstd::prelude::*;

use super::board::{start_square, Board};
use super::piece::Color;

verus! {

/// A point on the screen, column then row.
pub struct Point(pub u16, pub u16);

/// A game: whose turn it is and the board.
#[derive(Debug)]
pub struct Game {
    turn: Color,
    board: Board,
}

impl Game {
    /// The side to move.
    pub closed spec fn side(&self) -> Color {
        self.turn
    }

    /// What stands on each square.
    pub closed spec fn squares(&self) -> Seq<Option<super::piece::Piece>> {
        self.board.0@
    }
}

impl Default for Game {
    /// White to move from the starting position.
    fn default() -> (r: Game)
        ensures
            r.side() == Color::White,
            forall|i: int| 0 <= i < 64 ==> #[trigger] r.squares()[i] == start_square(i),
    {
        Game { turn: Color::White, board: Board::new() }
    }
}

impl Game {
    /// The side to move.
    pub fn turn(&self) -> (r: Color)
        ensures
            r == self.side(),
    {
        self.turn
    }

    /// The board.
    pub fn board(&self) -> (r: &Board)
        ensures
            r.0@ == self.squares(),
    {
        &self.board
    }

    /// Hands the move to the other side.
    pub fn next_turn(&mut self)
        ensures
            final(self).side() == old(self).side().other(),
            final(self).squares() == old(self).squares(),
    {
        self.turn.flip();
    }
}

} // verus!
