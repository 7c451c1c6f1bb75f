//! Command-line option values that the dialect flags parse into, and the
//! errors their parsing reports. The flag definitions themselves live with
//! the binary.

use vstd::prelude::*;
use vstd::string::StringSliceAdditionalSpecFns;

verus! {

/// A whitespace trimming mode could not be parsed.
#[derive(Debug)]
pub struct TrimParseError(pub String);

/// A single-byte character option could not be parsed.
#[derive(Debug)]
pub struct AsciiCharacterParseError(pub String);

/// A row terminator option could not be parsed.
#[derive(Debug)]
pub struct TerminatorParseError(pub String);

/// A single-byte (ASCII) character, as a delimiter or quote option holds it.
#[derive(Debug, Clone, Copy, PartialEq, Eq, PartialOrd, Ord, Structural)]
pub struct AsciiCharacter(pub u8);

impl AsciiCharacter {
    /// The character's byte value.
    pub fn as_u8(&self) -> (r: u8)
        ensures
            r == self.0,
    {
        self.0
    }

    /// Parse a single-byte character: succeeds exactly on strings of one
    /// byte, which UTF-8 makes a single ASCII character.
    pub fn from_str(string: &str) -> (r: Result<AsciiCharacter, AsciiCharacterParseError>)
        ensures
            match r {
                Ok(a) => string.spec_bytes().len() == 1 && a.0 == string.spec_bytes()[0],
                Err(e) => string.spec_bytes().len() != 1 && e.0@ == string@,
            },
    {
        let bytes = string.as_bytes();
        if bytes.len() != 1 {
            return Err(AsciiCharacterParseError(string.to_owned()));
        }
        Ok(AsciiCharacter(bytes[0]))
    }
}

} // verus!
