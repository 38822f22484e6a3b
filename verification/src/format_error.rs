//! Errors reported by the formatter.

use vstd::prelude::*;

verus! {

/// Why a source text could not be formatted.
#[derive(Clone, Debug, PartialEq, Eq)]
pub enum FormatError {
    /// The parser left a region of the input unresolved.
    GarbageFound,
    /// The syntax tree does not fit the source text: a range lies outside
    /// the source, a range copied as written holds a comment that is in the
    /// output already, or the formatted bytes are no valid UTF-8. None of
    /// this comes from a fault of the input; nothing is formatted.
    InvariantViolated,
}

impl FormatError {
    /// The text of the message for this error.
    pub open spec fn message_text(self) -> Seq<char> {
        match self {
            FormatError::GarbageFound => "found invalid Nushell syntax"@,
            FormatError::InvariantViolated => "the syntax tree does not fit the source text"@,
        }
    }

    /// The message shown to the user.
    pub fn message(&self) -> (text: String)
        ensures
            text@ == self.message_text(),
    {
        match self {
            FormatError::GarbageFound => "found invalid Nushell syntax".to_string(),
            FormatError::InvariantViolated => {
                "the syntax tree does not fit the source text".to_string()
            },
        }
    }
}

} // verus!
