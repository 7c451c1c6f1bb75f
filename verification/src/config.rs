//! Parsed configuration values for the CSV dialect: single ASCII characters,
//! whitespace trimming modes, and row terminators, with the errors their
//! parsing can raise.

use crate::cli::{TerminatorParseError, TrimParseError};
use crate::unicode::{eq_ignore_ascii_case, lower_seq};
use vstd::prelude::*;
use vstd::string::StrSliceExecFns;

verus! {

/// How whitespace around cell contents is handled.
#[derive(Debug, Clone, Copy, PartialEq, PartialOrd, Ord, Eq, Structural)]
pub enum Trim {
    /// Preserve whitespace in all cells.
    Nothing,
    /// Trim whitespace in headers, but not in other cells.
    OnlyHeaders,
    /// Trim whitespace in all cells, except for headers.
    ExceptHeaders,
    /// Trim whitespace in all cells.
    All,
}

impl Trim {
    /// Parse a trimming mode, ignoring letter case: `none`, `headers`,
    /// `fields` or `all`.
    pub fn from_str(string: &str) -> (r: Result<Trim, TrimParseError>)
        ensures
            ({
                let lowered = lower_seq(string@);
                match r {
                    Ok(t) => match t {
                        Trim::Nothing => lowered == "none"@,
                        Trim::OnlyHeaders => lowered == "headers"@,
                        Trim::ExceptHeaders => lowered == "fields"@,
                        Trim::All => lowered == "all"@,
                    },
                    Err(e) => lowered != "none"@ && lowered != "headers"@ && lowered != "fields"@
                        && lowered != "all"@ && e.0@ == string@,
                }
            }),
    {
        proof {
            reveal_strlit("none");
            reveal_strlit("headers");
            reveal_strlit("fields");
            reveal_strlit("all");
            assert(lower_seq("none"@) =~= "none"@);
            assert(lower_seq("headers"@) =~= "headers"@);
            assert(lower_seq("fields"@) =~= "fields"@);
            assert(lower_seq("all"@) =~= "all"@);
        }
        if eq_ignore_ascii_case(string, "none") {
            Ok(Trim::Nothing)
        } else if eq_ignore_ascii_case(string, "headers") {
            Ok(Trim::OnlyHeaders)
        } else if eq_ignore_ascii_case(string, "fields") {
            Ok(Trim::ExceptHeaders)
        } else if eq_ignore_ascii_case(string, "all") {
            Ok(Trim::All)
        } else {
            Err(TrimParseError(string.to_owned()))
        }
    }
}

/// A single ASCII character, kept both as the character and as its byte.
#[derive(Debug, Clone, Copy, PartialEq, PartialOrd, Ord, Eq)]
pub struct Ascii {
    pub character: char,
    pub byte: u8,
}

impl Ascii {
    /// The character as a byte.
    pub fn as_byte(&self) -> (r: u8)
        ensures
            r == self.byte,
    {
        self.byte
    }

    /// The character itself.
    pub fn as_char(&self) -> (r: char)
        ensures
            r == self.character,
    {
        self.character
    }

    /// Parse a single ASCII character: succeeds exactly on one-character
    /// ASCII strings, and then keeps that character and its byte.
    pub fn from_str(string: &str) -> (r: Result<Ascii, CsvConfigError>)
        ensures
            match r {
                Ok(a) => string@.len() == 1 && vstd::utf8::is_ascii_chars(string@) && a.character
                    == string@[0] && a.byte == string@[0] as u8,
                Err(e) => !(string@.len() == 1 && vstd::utf8::is_ascii_chars(string@)) && (e matches
                CsvConfigError::ExpectedASCII { string: st } && st@ == string@),
            },
    {
        if !string.is_ascii() {
            return Err(CsvConfigError::expected_ascii(string.to_owned()));
        }
        if string.unicode_len() != 1 {
            return Err(CsvConfigError::expected_ascii(string.to_owned()));
        }
        let character = string.get_char(0);
        let byte = string.get_ascii(0);
        Ok(Ascii { character, byte })
    }

    /// Parse an optional single ASCII character: an empty string means the
    /// option is switched off.
    pub fn optional_from_str(string: &str) -> (r: Result<Option<Ascii>, CsvConfigError>)
        ensures
            match r {
                Ok(a) => match a {
                    Some(a) => string@.len() == 1 && vstd::utf8::is_ascii_chars(string@)
                        && a.character == string@[0] && a.byte == string@[0] as u8,
                    None => string@.len() == 0,
                },
                Err(e) => string@.len() != 0 && !(string@.len() == 1 && vstd::utf8::is_ascii_chars(
                    string@,
                )) && (e matches CsvConfigError::ExpectedASCII { string: st } && st@ == string@),
            },
    {
        if string.is_empty() {
            Ok(None)
        } else {
            match Ascii::from_str(string) {
                Ok(a) => Ok(Some(a)),
                Err(e) => Err(e),
            }
        }
    }
}

/// The sequence that ends a row.
#[derive(Debug, Clone, PartialEq, PartialOrd, Ord, Eq, Structural)]
pub enum Terminator {
    /// Carriage return and line feed.
    CRLF,
    /// Only the carriage return character.
    CR,
    /// Only the line feed character.
    LF,
}

impl Terminator {
    /// The terminator's display name.
    pub open spec fn as_str_spec(&self) -> Seq<char> {
        match self {
            Terminator::CRLF => "CRLF"@,
            Terminator::CR => "CR"@,
            Terminator::LF => "LF"@,
        }
    }

    /// The terminator's display name.
    pub fn as_str(&self) -> (r: &'static str)
        ensures
            r@ == self.as_str_spec(),
    {
        match self {
            Terminator::CRLF => "CRLF",
            Terminator::CR => "CR",
            Terminator::LF => "LF",
        }
    }

    /// Parse a row terminator, ignoring letter case: `CRLF` (also written
    /// `default`), `CR`, or `LF`.
    pub fn from_str(string: &str) -> (r: Result<Terminator, TerminatorParseError>)
        ensures
            ({
                let lowered = lower_seq(string@);
                match r {
                    Ok(t) => match t {
                        Terminator::CRLF => lowered == "crlf"@ || lowered == "default"@,
                        Terminator::CR => lowered == "cr"@,
                        Terminator::LF => lowered == "lf"@,
                    },
                    Err(e) => lowered != "crlf"@ && lowered != "default"@ && lowered != "cr"@
                        && lowered != "lf"@ && e.0@ == string@,
                }
            }),
    {
        proof {
            reveal_strlit("crlf");
            reveal_strlit("default");
            reveal_strlit("cr");
            reveal_strlit("lf");
            assert(lower_seq("crlf"@) =~= "crlf"@);
            assert(lower_seq("default"@) =~= "default"@);
            assert(lower_seq("cr"@) =~= "cr"@);
            assert(lower_seq("lf"@) =~= "lf"@);
        }
        if eq_ignore_ascii_case(string, "crlf") || eq_ignore_ascii_case(string, "default") {
            Ok(Terminator::CRLF)
        } else if eq_ignore_ascii_case(string, "cr") {
            Ok(Terminator::CR)
        } else if eq_ignore_ascii_case(string, "lf") {
            Ok(Terminator::LF)
        } else {
            Err(TerminatorParseError(string.to_owned()))
        }
    }
}

impl Default for Terminator {
    /// CRLF, the most common row terminator.
    fn default() -> (r: Terminator)
        ensures
            r == Terminator::CRLF,
    {
        Terminator::CRLF
    }
}

/// Why a CSV dialect option could not be parsed.
#[derive(Debug)]
pub enum CsvConfigError {
    ExpectedASCII { string: String },
    ExpectedCharacter { string: String },
    ExpectedLineTerminator { string: String },
}

impl CsvConfigError {
    /// An option needed an ASCII string.
    pub fn expected_ascii(string: String) -> (r: CsvConfigError)
        ensures
            r matches CsvConfigError::ExpectedASCII { string: st } && st == string,
    {
        CsvConfigError::ExpectedASCII { string }
    }

    /// An option needed a single character.
    pub fn expected_character(string: String) -> (r: CsvConfigError)
        ensures
            r matches CsvConfigError::ExpectedCharacter { string: st } && st == string,
    {
        CsvConfigError::ExpectedCharacter { string }
    }

    /// An option needed a line terminator name.
    pub fn expected_line_terminator(string: String) -> (r: CsvConfigError)
        ensures
            r matches CsvConfigError::ExpectedLineTerminator { string: st } && st == string,
    {
        CsvConfigError::ExpectedLineTerminator { string }
    }
}

} // verus!
