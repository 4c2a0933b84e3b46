use vstd::prelude::*;

verus! {

/// The ways a generation request can fail; each carries the offending text.
#[derive(Debug, PartialEq, Eq)]
pub enum GenerationError {
    /// An entity or reference name is not an identifier.
    InvalidName(String),
    /// A field description does not have two or three non-empty leading segments.
    InvalidFieldFormat(String),
    /// The type segment of a field description names no known field type.
    UnsupportedFieldType(String),
}

/// What a [`GenerationError`] says, with its text as a sequence of characters.
pub enum ErrorModel {
    InvalidName(Seq<char>),
    InvalidFieldFormat(Seq<char>),
    UnsupportedFieldType(Seq<char>),
}

impl View for GenerationError {
    type V = ErrorModel;

    open spec fn view(&self) -> ErrorModel {
        match self {
            GenerationError::InvalidName(s) => ErrorModel::InvalidName(s@),
            GenerationError::InvalidFieldFormat(s) => ErrorModel::InvalidFieldFormat(s@),
            GenerationError::UnsupportedFieldType(s) => ErrorModel::UnsupportedFieldType(s@),
        }
    }
}

} // verus!
