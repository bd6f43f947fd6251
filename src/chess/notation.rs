use std::str::FromStr;
use vstd::prelude::*;

use super::piece::{char_string, kind_of_text, unknown_kind, Kind};
use super::square::{bad_file, bad_rank, bad_square, file_of, is_square_char, rank_of, File, Rank, Square};

verus! {

/// A move in short algebraic notation: the moving piece, what tells it
/// apart from another piece of its kind, and the destination.
#[derive(Debug, Clone, Copy, PartialEq, Eq, Structural)]
pub struct Notation {
    pub piece: Kind,
    pub ambiguitie: Option<Square>,
    pub file: File,
    pub rank: Rank,
}

impl Default for Notation {
    fn default() -> (r: Notation)
        ensures
            r == (Notation { piece: Kind::Pawn, ambiguitie: None, file: File(0), rank: Rank(0) }),
    {
        Notation { piece: Kind::Pawn, ambiguitie: None, file: File(0), rank: Rank(0) }
    }
}

/// The kind that the piece letter `c` names, or its error.
pub open spec fn piece_part(c: char) -> Result<Kind, Seq<char>> {
    match kind_of_text(seq![c]) {
        Some(k) => Ok(k),
        None => Err(unknown_kind(seq![c])),
    }
}

/// The square that `c` names, or its error.
pub open spec fn square_part(c: char) -> Result<Square, Seq<char>> {
    if is_square_char(c) {
        Ok(Square(c))
    } else {
        Err(bad_square(c))
    }
}

/// The destination that the file letter `f` and rank digit `r` name, or
/// the error of the first of them that names nothing.
pub open spec fn destination(f: char, r: char) -> Result<(File, Rank), Seq<char>> {
    match file_of(f) {
        None => Err(bad_file(f)),
        Some(file) => match rank_of(r) {
            None => Err(bad_rank(r)),
            Some(rank) => Ok((file, rank)),
        },
    }
}

/// The move that `s` writes, or the error of its first part that is wrong.
/// Two characters are a pawn's destination; three put a piece letter before
/// it; four or more put a piece letter and a square before it, and only the
/// first four count.
pub open spec fn parse_notation(s: Seq<char>) -> Result<Notation, Seq<char>> {
    if s.len() == 2 {
        match destination(s[0], s[1]) {
            Err(e) => Err(e),
            Ok(d) => Ok(Notation { piece: Kind::Pawn, ambiguitie: None, file: d.0, rank: d.1 }),
        }
    } else if s.len() == 3 {
        match piece_part(s[0]) {
            Err(e) => Err(e),
            Ok(k) => match destination(s[1], s[2]) {
                Err(e) => Err(e),
                Ok(d) => Ok(Notation { piece: k, ambiguitie: None, file: d.0, rank: d.1 }),
            },
        }
    } else if s.len() >= 4 {
        match piece_part(s[0]) {
            Err(e) => Err(e),
            Ok(k) => match square_part(s[1]) {
                Err(e) => Err(e),
                Ok(a) => match destination(s[2], s[3]) {
                    Err(e) => Err(e),
                    Ok(d) => Ok(Notation { piece: k, ambiguitie: Some(a), file: d.0, rank: d.1 }),
                },
            },
        }
    } else {
        Err("notation wrong length"@)
    }
}

fn parse_piece(c: char) -> (r: Result<Kind, String>)
    ensures
        match r {
            Ok(k) => piece_part(c) == Ok::<Kind, Seq<char>>(k),
            Err(e) => piece_part(c) == Err::<Kind, Seq<char>>(e@),
        },
{
    let letter = char_string(c);
    Kind::from_letter(letter.as_str())
}

fn parse_destination(f: char, r: char) -> (res: Result<(File, Rank), String>)
    ensures
        match res {
            Ok(d) => destination(f, r) == Ok::<(File, Rank), Seq<char>>(d),
            Err(e) => destination(f, r) == Err::<(File, Rank), Seq<char>>(e@),
        },
{
    let file = match File::from_char(f) {
        Ok(file) => file,
        Err(e) => return Err(e),
    };
    let rank = match Rank::from_char(r) {
        Ok(rank) => rank,
        Err(e) => return Err(e),
    };
    Ok((file, rank))
}

impl Notation {
    /// The move that the text `s` writes.
    pub fn from_text(s: &str) -> (r: Result<Notation, String>)
        ensures
            match r {
                Ok(n) => parse_notation(s@) == Ok::<Notation, Seq<char>>(n),
                Err(e) => parse_notation(s@) == Err::<Notation, Seq<char>>(e@),
            },
    {
        let len = s.unicode_len();
        if len == 2 {
            let d = match parse_destination(s.get_char(0), s.get_char(1)) {
                Ok(d) => d,
                Err(e) => return Err(e),
            };
            Ok(Notation { piece: Kind::Pawn, ambiguitie: None, file: d.0, rank: d.1 })
        } else if len == 3 {
            let piece = match parse_piece(s.get_char(0)) {
                Ok(k) => k,
                Err(e) => return Err(e),
            };
            let d = match parse_destination(s.get_char(1), s.get_char(2)) {
                Ok(d) => d,
                Err(e) => return Err(e),
            };
            Ok(Notation { piece, ambiguitie: None, file: d.0, rank: d.1 })
        } else if len >= 4 {
            let piece = match parse_piece(s.get_char(0)) {
                Ok(k) => k,
                Err(e) => return Err(e),
            };
            let square = match Square::from_char(s.get_char(1)) {
                Ok(q) => q,
                Err(e) => return Err(e),
            };
            let d = match parse_destination(s.get_char(2), s.get_char(3)) {
                Ok(d) => d,
                Err(e) => return Err(e),
            };
            Ok(Notation { piece, ambiguitie: Some(square), file: d.0, rank: d.1 })
        } else {
            Err("notation wrong length".to_owned())
        }
    }
}

impl FromStr for Notation {
    type Err = String;

    fn from_str(s: &str) -> Result<Notation, String> {
        Notation::from_text(s)
    }
}

} // verus!
