//! The error that every transformation reports.

use vstd::prelude::*;

verus! {

/// A failure, told in words.
#[derive(Debug)]
pub enum TransformError {
    Generic(String),
}

impl View for TransformError {
    type V = Seq<char>;

    /// The words of the error.
    open spec fn view(&self) -> Seq<char> {
        match self {
            TransformError::Generic(text) => text@,
        }
    }
}

impl TransformError {
    /// The words of the error.
    pub fn message(&self) -> (text: &str)
        ensures
            text@ == self@,
    {
        match self {
            TransformError::Generic(text) => text.as_str(),
        }
    }
}

/// Whether `text` begins with `prefix`.
pub open spec fn starts_with(text: Seq<char>, prefix: Seq<char>) -> bool {
    prefix.len() <= text.len() && text.subrange(0, prefix.len() as int) == prefix
}

} // verus!
