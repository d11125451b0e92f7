//! Line-scoped errors collected while reading a document.

use vstd::prelude::*;

verus! {

/// One line's failure: why it could not be decoded, its verbatim text, and
/// its 1-based position in the document.
#[derive(Debug, PartialEq)]
pub struct Error {
    pub message: String,
    pub line: String,
    pub line_number: i32,
}

/// The mathematical content of an [`Error`].
#[verifier::ext_equal]
pub struct ErrorV {
    pub message: Seq<char>,
    pub line: Seq<char>,
    pub line_number: int,
}

impl View for Error {
    type V = ErrorV;

    open spec fn view(&self) -> ErrorV {
        ErrorV { message: self.message@, line: self.line@, line_number: self.line_number as int }
    }
}

impl DeepView for Error {
    type V = ErrorV;

    open spec fn deep_view(&self) -> ErrorV {
        self.view()
    }
}

} // verus!
