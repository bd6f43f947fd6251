use std::str::FromStr;
use vstd::prelude::*;

verus! {

/// A text of the single character `c`.
///
/// Relies on `String::from(char)`: the string holds exactly that character.
#[verifier::external_body]
pub(crate) fn char_string(c: char) -> (r: String)
    ensures
        r@ == seq![c],
{
    String::from(c)
}

#[derive(Debug, Clone, Copy, PartialEq, Eq, Structural)]
pub enum Color {
    White,
    Black,
}

impl Default for Color {
    fn default() -> (r: Color)
        ensures
            r == Color::White,
    {
        Color::White
    }
}

impl Color {
    /// The other side.
    pub open spec fn other(self) -> Color {
        match self {
            Color::White => Color::Black,
            Color::Black => Color::White,
        }
    }

    /// Hands the turn to the other side.
    pub fn flip(&mut self)
        ensures
            *final(self) == old(self).other(),
    {
        match self {
            Color::White => *self = Color::Black,
            Color::Black => *self = Color::White,
        }
    }

    /// The side's name.
    pub fn name(&self) -> (r: &'static str)
        ensures
            r@ == match self {
                Color::White => "White"@,
                Color::Black => "Black"@,
            },
    {
        match self {
            Color::White => "White",
            Color::Black => "Black",
        }
    }
}

#[derive(Debug, Clone, Copy, PartialEq, Eq, Structural)]
pub enum Kind {
    Pawn,
    Knight,
    Bishop,
    Rook,
    Queen,
    King,
}

impl Default for Kind {
    fn default() -> (r: Kind)
        ensures
            r == Kind::Pawn,
    {
        Kind::Pawn
    }
}

/// The kind that a piece letter names, in either case; pawns have no letter.
pub open spec fn kind_of_letter(c: char) -> Option<Kind> {
    if c == 'n' || c == 'N' {
        Some(Kind::Knight)
    } else if c == 'b' || c == 'B' {
        Some(Kind::Bishop)
    } else if c == 'r' || c == 'R' {
        Some(Kind::Rook)
    } else if c == 'q' || c == 'Q' {
        Some(Kind::Queen)
    } else if c == 'k' || c == 'K' {
        Some(Kind::King)
    } else {
        None
    }
}

/// The kind that the text `s` names: a single piece letter.
pub open spec fn kind_of_text(s: Seq<char>) -> Option<Kind> {
    if s.len() == 1 {
        kind_of_letter(s[0])
    } else {
        None
    }
}

/// The error for a text that names no kind.
pub open spec fn unknown_kind(s: Seq<char>) -> Seq<char> {
    "Unknown notation: '"@ + s + "'"@
}

impl Kind {
    /// The kind's name.
    pub fn name(&self) -> (r: &'static str)
        ensures
            r@ == match self {
                Kind::Pawn => "Pawn"@,
                Kind::Knight => "Knight"@,
                Kind::Bishop => "Bishop"@,
                Kind::Rook => "Rook"@,
                Kind::Queen => "Queen"@,
                Kind::King => "King"@,
            },
    {
        match self {
            Kind::Pawn => "Pawn",
            Kind::Knight => "Knight",
            Kind::Bishop => "Bishop",
            Kind::Rook => "Rook",
            Kind::Queen => "Queen",
            Kind::King => "King",
        }
    }

    /// The kind that a piece letter names.
    pub fn from_letter(s: &str) -> (r: Result<Kind, String>)
        ensures
            match r {
                Ok(k) => kind_of_text(s@) == Some(k),
                Err(e) => kind_of_text(s@) is None && e@ == unknown_kind(s@),
            },
    {
        if s.unicode_len() == 1 {
            let c = s.get_char(0);
            if c == 'n' || c == 'N' {
                return Ok(Kind::Knight);
            } else if c == 'b' || c == 'B' {
                return Ok(Kind::Bishop);
            } else if c == 'r' || c == 'R' {
                return Ok(Kind::Rook);
            } else if c == 'q' || c == 'Q' {
                return Ok(Kind::Queen);
            } else if c == 'k' || c == 'K' {
                return Ok(Kind::King);
            }
        }
        let mut e = "Unknown notation: '".to_owned();
        e.append(s);
        e.append("'");
        Err(e)
    }
}

impl FromStr for Kind {
    type Err = String;

    fn from_str(s: &str) -> Result<Kind, String> {
        Kind::from_letter(s)
    }
}

pub const BLACK_PAWN: char = '\u{265F}';
pub const BLACK_KNIGHT: char = '\u{265E}';
pub const BLACK_BISHOP: char = '\u{265D}';
pub const BLACK_ROOK: char = '\u{265C}';
pub const BLACK_QUEEN: char = '\u{265B}';
pub const BLACK_KING: char = '\u{265A}';

pub const WHITE_PAWN: char = '\u{2659}';
pub const WHITE_KNIGHT: char = '\u{2658}';
pub const WHITE_BISHOP: char = '\u{2657}';
pub const WHITE_ROOK: char = '\u{2656}';
pub const WHITE_QUEEN: char = '\u{2655}';
pub const WHITE_KING: char = '\u{2654}';

#[derive(Debug, Clone, Copy, PartialEq, Eq, Structural)]
pub struct Piece {
    pub color: Color,
    pub kind: Kind,
}

/// The chess symbol of a piece of `kind` and `color`.
pub open spec fn symbol_of(color: Color, kind: Kind) -> char {
    match color {
        Color::White => match kind {
            Kind::Pawn => WHITE_PAWN,
            Kind::Knight => WHITE_KNIGHT,
            Kind::Bishop => WHITE_BISHOP,
            Kind::Rook => WHITE_ROOK,
            Kind::Queen => WHITE_QUEEN,
            Kind::King => WHITE_KING,
        },
        Color::Black => match kind {
            Kind::Pawn => BLACK_PAWN,
            Kind::Knight => BLACK_KNIGHT,
            Kind::Bishop => BLACK_BISHOP,
            Kind::Rook => BLACK_ROOK,
            Kind::Queen => BLACK_QUEEN,
            Kind::King => BLACK_KING,
        },
    }
}

impl Piece {
    pub fn new(color: Color, piece_kind: Kind) -> (r: Piece)
        ensures
            r.color == color,
            r.kind == piece_kind,
    {
        Piece { color, kind: piece_kind }
    }

    /// The piece's chess symbol.
    pub fn symbol(self) -> (r: char)
        ensures
            r == symbol_of(self.color, self.kind),
    {
        match self.color {
            Color::White => match self.kind {
                Kind::Pawn => WHITE_PAWN,
                Kind::Knight => WHITE_KNIGHT,
                Kind::Bishop => WHITE_BISHOP,
                Kind::Rook => WHITE_ROOK,
                Kind::Queen => WHITE_QUEEN,
                Kind::King => WHITE_KING,
            },
            Color::Black => match self.kind {
                Kind::Pawn => BLACK_PAWN,
                Kind::Knight => BLACK_KNIGHT,
                Kind::Bishop => BLACK_BISHOP,
                Kind::Rook => BLACK_ROOK,
                Kind::Queen => BLACK_QUEEN,
                Kind::King => BLACK_KING,
            },
        }
    }
}

} // verus!
