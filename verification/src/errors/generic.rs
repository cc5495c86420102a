//! Errors that do not depend on what is being validated.
use vstd::prelude::*;

verus! {

/// An error found while reading a schema or a document, before it is tied to a path.
#[derive(Debug, PartialEq, Eq)]
pub enum GenericError<'a> {
    WrongType { expected: &'static str, actual: &'a str },
    FieldMissing { field: &'a str },
    ExtraField { field: &'a str },
    Multiple { errors: Vec<GenericError<'a>> },
}

} // verus!
