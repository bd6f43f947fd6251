use vstd::prelude::*;

use super::notation::{parse_notation, Notation};
use super::piece::{Color, Kind, Piece};

verus! {

/// The 64 squares of a board, rank by rank from Black's back rank.
#[derive(Debug)]
pub struct Board(pub [Option<Piece>; 64]);

/// The kind on file `file` of a back rank at the start.
pub open spec fn back_rank_kind(file: int) -> Kind {
    if file == 0 || file == 7 {
        Kind::Rook
    } else if file == 1 || file == 6 {
        Kind::Knight
    } else if file == 2 || file == 5 {
        Kind::Bishop
    } else if file == 3 {
        Kind::Queen
    } else {
        Kind::King
    }
}

/// What stands on square `i` at the start: Black's pieces on the first two
/// ranks, White's on the last two, nothing between.
pub open spec fn start_square(i: int) -> Option<Piece> {
    let row = i / 8;
    let file = i % 8;
    if row == 0 {
        Some(Piece { color: Color::Black, kind: back_rank_kind(file) })
    } else if row == 1 {
        Some(Piece { color: Color::Black, kind: Kind::Pawn })
    } else if row == 6 {
        Some(Piece { color: Color::White, kind: Kind::Pawn })
    } else if row == 7 {
        Some(Piece { color: Color::White, kind: back_rank_kind(file) })
    } else {
        None
    }
}

fn back_rank(file: usize) -> (r: Kind)
    requires
        file < 8,
    ensures
        r == back_rank_kind(file as int),
{
    if file == 0 || file == 7 {
        Kind::Rook
    } else if file == 1 || file == 6 {
        Kind::Knight
    } else if file == 2 || file == 5 {
        Kind::Bishop
    } else if file == 3 {
        Kind::Queen
    } else {
        Kind::King
    }
}

fn start_piece(i: usize) -> (r: Option<Piece>)
    requires
        i < 64,
    ensures
        r == start_square(i as int),
{
    let row = i / 8;
    let file = i % 8;
    if row == 0 {
        Some(Piece::new(Color::Black, back_rank(file)))
    } else if row == 1 {
        Some(Piece::new(Color::Black, Kind::Pawn))
    } else if row == 6 {
        Some(Piece::new(Color::White, Kind::Pawn))
    } else if row == 7 {
        Some(Piece::new(Color::White, back_rank(file)))
    } else {
        None
    }
}

impl Default for Board {
    /// The starting position.
    fn default() -> (r: Board)
        ensures
            forall|i: int| 0 <= i < 64 ==> #[trigger] r.0@[i] == start_square(i),
    {
        let mut squares: [Option<Piece>; 64] = [None; 64];
        let mut i: usize = 0;
        while i < 64
            invariant
                i <= 64,
                squares@.len() == 64,
                forall|j: int| 0 <= j < i ==> #[trigger] squares@[j] == start_square(j),
            decreases 64 - i,
        {
            squares.set(i, start_piece(i));
            i = i + 1;
        }
        Board(squares)
    }
}

impl Board {
    /// A board in the starting position.
    pub fn new() -> (r: Board)
        ensures
            forall|i: int| 0 <= i < 64 ==> #[trigger] r.0@[i] == start_square(i),
    {
        Board::default()
    }

    /// Reads a move for `color` from `notation`: the moving kind and the
    /// destination's file and rank indices, or the notation's error. The
    /// board is left as it is.
    pub fn move_piece(&mut self, color: Color, notation: &str) -> (r: Result<(Kind, usize, usize), String>)
        ensures
            final(self).0@ == old(self).0@,
            match r {
                Ok(m) => exists|n: Notation|
                    parse_notation(notation@) == Ok::<Notation, Seq<char>>(n) && m == (
                        n.piece,
                        n.file.0 as usize,
                        n.rank.0 as usize,
                    ),
                Err(e) => parse_notation(notation@) == Err::<Notation, Seq<char>>(e@),
            },
    {
        let mov = match Notation::from_text(notation) {
            Ok(n) => n,
            Err(e) => return Err(e),
        };
        Ok((mov.piece, mov.file.0 as usize, mov.rank.0 as usize))
    }
}

} // verus!
