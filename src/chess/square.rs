use vstd::prelude::*;

use super::piece::char_string;

verus! {

/// Whether `c` has one of Unicode's general categories for numbers.
pub uninterp spec fn is_numeric_char(c: char) -> bool;

/// Whether `c` has Unicode's `Alphabetic` property.
pub uninterp spec fn is_alphabetic_char(c: char) -> bool;

/// Relies on `char::is_numeric`, which depends on the character alone.
#[verifier::external_body]
fn numeric(c: char) -> (r: bool)
    ensures
        r == is_numeric_char(c),
{
    c.is_numeric()
}

/// Relies on `char::is_alphabetic`, which depends on the character alone.
#[verifier::external_body]
fn alphabetic(c: char) -> (r: bool)
    ensures
        r == is_alphabetic_char(c),
{
    c.is_alphabetic()
}

/// A file letter or a rank digit that tells two candidate pieces apart.
#[derive(Debug, Clone, Copy, PartialEq, Eq, Structural)]
pub struct Square(pub char);

/// Whether `c` is a file letter `a` to `h` or a rank digit `1` to `8`.
pub open spec fn is_square_char(c: char) -> bool {
    ('a' <= c <= 'h') || ('1' <= c <= '8')
}

/// The error for a character that is no square.
pub open spec fn bad_square(c: char) -> Seq<char> {
    "Could not parse '"@ + seq![c] + "'"@
}

impl Square {
    /// Whether the square's character is numeric.
    pub fn is_rank(&self) -> (r: bool)
        ensures
            r == is_numeric_char(self.0),
    {
        numeric(self.0)
    }

    /// Whether the square's character is alphabetic.
    pub fn is_file(&self) -> (r: bool)
        ensures
            r == is_alphabetic_char(self.0),
    {
        alphabetic(self.0)
    }

    /// The square that `value` names.
    pub fn from_char(value: char) -> (r: Result<Square, String>)
        ensures
            match r {
                Ok(s) => is_square_char(value) && s == Square(value),
                Err(e) => !is_square_char(value) && e@ == bad_square(value),
            },
    {
        if ('a' <= value && value <= 'h') || ('1' <= value && value <= '8') {
            Ok(Square(value))
        } else {
            let mut e = "Could not parse '".to_owned();
            e.append(char_string(value).as_str());
            e.append("'");
            Err(e)
        }
    }
}

impl TryFrom<char> for Square {
    type Error = String;

    fn try_from(value: char) -> Result<Square, String> {
        Square::from_char(value)
    }
}

/// The contract of the conversion is the one of `Square::from_char`; the
/// error text has no spec value to compare against.
impl vstd::std_specs::convert::TryFromSpecImpl<char> for Square {
    open spec fn obeys_try_from_spec() -> bool {
        false
    }

    open spec fn try_from_spec(v: char) -> Result<Square, String> {
        arbitrary()
    }
}

impl std::ops::Deref for Square {
    type Target = char;

    fn deref(&self) -> &char {
        &self.0
    }
}

/// A file of the board, `0` for `a` to `7` for `h`.
#[derive(Debug, Clone, Copy, PartialEq, Eq, Structural)]
pub struct File(pub u8);

impl Default for File {
    fn default() -> (r: File)
        ensures
            r == File(0),
    {
        File(0)
    }
}

/// The file that the letter `c` names.
pub open spec fn file_of(c: char) -> Option<File> {
    if 'a' <= c <= 'h' {
        Some(File((c as u32 - 'a' as u32) as u8))
    } else {
        None
    }
}

/// The error for a character that is no file.
pub open spec fn bad_file(c: char) -> Seq<char> {
    "Could not parse '"@ + seq![c] + "' into file."@
}

impl File {
    /// The file that the letter `value` names.
    pub fn from_char(value: char) -> (r: Result<File, String>)
        ensures
            match r {
                Ok(f) => file_of(value) == Some(f),
                Err(e) => file_of(value) is None && e@ == bad_file(value),
            },
    {
        if 'a' <= value && value <= 'h' {
            Ok(File((value as u32 - 'a' as u32) as u8))
        } else {
            let mut e = "Could not parse '".to_owned();
            e.append(char_string(value).as_str());
            e.append("' into file.");
            Err(e)
        }
    }
}

impl TryFrom<char> for File {
    type Error = String;

    fn try_from(value: char) -> Result<File, String> {
        File::from_char(value)
    }
}

/// The contract of the conversion is the one of `File::from_char`; the
/// error text has no spec value to compare against.
impl vstd::std_specs::convert::TryFromSpecImpl<char> for File {
    open spec fn obeys_try_from_spec() -> bool {
        false
    }

    open spec fn try_from_spec(v: char) -> Result<File, String> {
        arbitrary()
    }
}

/// A rank of the board, `0` for `1` to `7` for `8`.
#[derive(Debug, Clone, Copy, PartialEq, Eq, Structural)]
pub struct Rank(pub u8);

impl Default for Rank {
    fn default() -> (r: Rank)
        ensures
            r == Rank(0),
    {
        Rank(0)
    }
}

/// The rank that the digit `c` names.
pub open spec fn rank_of(c: char) -> Option<Rank> {
    if '1' <= c <= '8' {
        Some(Rank((c as u32 - '1' as u32) as u8))
    } else {
        None
    }
}

/// The error for a character that is no rank.
pub open spec fn bad_rank(c: char) -> Seq<char> {
    "Could not parse '"@ + seq![c] + "' into rank."@
}

impl Rank {
    /// The rank that the digit `value` names.
    pub fn from_char(value: char) -> (r: Result<Rank, String>)
        ensures
            match r {
                Ok(k) => rank_of(value) == Some(k),
                Err(e) => rank_of(value) is None && e@ == bad_rank(value),
            },
    {
        if '1' <= value && value <= '8' {
            Ok(Rank((value as u32 - '1' as u32) as u8))
        } else {
            let mut e = "Could not parse '".to_owned();
            e.append(char_string(value).as_str());
            e.append("' into rank.");
            Err(e)
        }
    }
}

impl TryFrom<char> for Rank {
    type Error = String;

    fn try_from(value: char) -> Result<Rank, String> {
        Rank::from_char(value)
    }
}

/// The contract of the conversion is the one of `Rank::from_char`; the
/// error text has no spec value to compare against.
impl vstd::std_specs::convert::TryFromSpecImpl<char> for Rank {
    open spec fn obeys_try_from_spec() -> bool {
        false
    }

    open spec fn try_from_spec(v: char) -> Result<Rank, String> {
        arbitrary()
    }
}

} // verus!
