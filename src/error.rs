//! What can go wrong when an element identity is decoded.
use vstd::prelude::*;

use crate::decimal::{decimal_string, decimal_text};

verus! {

/// A failed decode or validation of an element identity.
#[derive(Clone, Debug, PartialEq, Eq)]
pub enum SymbolError {
    /// The text is neither a canonical symbol nor the decimal atomic number
    /// of an identity; it carries the text.
    InvalidSymbolText(String),
    /// The number is not the atomic number of an identity; it carries the
    /// number.
    InvalidSymbolNumber(u64),
    /// Any other failure, described in free text.
    Message(String),
    /// Reserved for richer input formats.
    Eof,
    /// Reserved for richer input formats.
    ExpectedInteger,
    /// Reserved for richer input formats.
    ExpectedString,
    /// Reserved for richer input formats.
    TrailingCharacters,
}

impl SymbolError {
    /// The human-readable description of the error.
    pub open spec fn description(&self) -> Seq<char> {
        match self {
            SymbolError::InvalidSymbolText(t) => "invalid element symbol: "@ + t@,
            SymbolError::InvalidSymbolNumber(n) => "invalid atomic number: "@ + decimal_text(
                *n as nat,
            ),
            SymbolError::Message(m) => m@,
            SymbolError::Eof => "unexpected end of file"@,
            SymbolError::ExpectedInteger => "expect integer"@,
            SymbolError::ExpectedString => "expect String"@,
            SymbolError::TrailingCharacters => "trailing characters"@,
        }
    }

    /// The error with a free-text description.
    pub fn custom(msg: &str) -> (r: SymbolError)
        ensures
            r matches SymbolError::Message(m) && m@ == msg@,
    {
        SymbolError::Message(msg.to_owned())
    }

    /// Writes out the description of the error.
    pub fn to_string(&self) -> (r: String)
        ensures
            r@ == self.description(),
    {
        match self {
            SymbolError::InvalidSymbolText(t) => {
                let mut r = String::from_str("invalid element symbol: ");
                r.append(t.as_str());
                r
            },
            SymbolError::InvalidSymbolNumber(n) => {
                let mut r = String::from_str("invalid atomic number: ");
                let digits = decimal_string(*n);
                r.append(digits.as_str());
                r
            },
            SymbolError::Message(m) => m.clone(),
            SymbolError::Eof => String::from_str("unexpected end of file"),
            SymbolError::ExpectedInteger => String::from_str("expect integer"),
            SymbolError::ExpectedString => String::from_str("expect String"),
            SymbolError::TrailingCharacters => String::from_str("trailing characters"),
        }
    }
}

} // verus!
