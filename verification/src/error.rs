//! Error taxonomy of the loader: a file either cannot be read, or its
//! content does not decode into the schema.

use vstd::prelude::*;

verus! {

/// Why a document's content failed to decode into the schema.
///
/// Each variant carries a human-readable description: for `MissingField`
/// and `WrongType` the dotted path of the offending field, for `Syntax`
/// the parser's own message.
#[derive(Debug)]
pub enum DecodeError {
    /// The text is not well-formed markup.
    Syntax(String),
    /// A required, non-defaulted field is absent.
    MissingField(String),
    /// A field is present but its value has the wrong type.
    WrongType(String),
}

impl DecodeError {
    /// The dotted field path or parser message the error carries.
    pub fn description(&self) -> (r: &str)
        ensures
            r@ == self.spec_description(),
    {
        match self {
            DecodeError::Syntax(m) => m.as_str(),
            DecodeError::MissingField(f) => f.as_str(),
            DecodeError::WrongType(f) => f.as_str(),
        }
    }

    /// What `description` returns.
    pub open spec fn spec_description(&self) -> Seq<char> {
        match self {
            DecodeError::Syntax(m) => m@,
            DecodeError::MissingField(f) => f@,
            DecodeError::WrongType(f) => f@,
        }
    }
}

/// `std::io::Error`, carried opaquely inside `ParseError::IO`.
#[verifier::external_type_specification]
#[verifier::external_body]
pub struct ExIoError(std::io::Error);

/// Why loading a configuration file failed: the file could not be read,
/// or it was read but its content did not decode.
#[derive(Debug)]
pub enum ParseError {
    /// Reading the file failed; wraps the underlying error.
    IO(std::io::Error),
    /// The content did not decode into the schema.
    Decode(DecodeError),
}

impl From<std::io::Error> for ParseError {
    fn from(value: std::io::Error) -> (r: Self) {
        ParseError::IO(value)
    }
}

impl vstd::std_specs::convert::FromSpecImpl<std::io::Error> for ParseError {
    open spec fn obeys_from_spec() -> bool {
        true
    }

    open spec fn from_spec(value: std::io::Error) -> Self {
        ParseError::IO(value)
    }
}

impl From<DecodeError> for ParseError {
    fn from(value: DecodeError) -> (r: Self) {
        ParseError::Decode(value)
    }
}

impl vstd::std_specs::convert::FromSpecImpl<DecodeError> for ParseError {
    open spec fn obeys_from_spec() -> bool {
        true
    }

    open spec fn from_spec(value: DecodeError) -> Self {
        ParseError::Decode(value)
    }
}

} // verus!
