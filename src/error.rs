//! The ways a template expansion fails.
use vstd::prelude::*;

verus! {

/// Why a template could not be expanded. Every failure abandons the whole
/// expansion: no partial output is produced.
#[derive(Debug, PartialEq, Eq)]
pub enum JsonError {
    /// A string opened with `"` or `'` has no closing quote of the same kind.
    UnterminatedString,
    /// A `$` is not followed by any name character.
    EmptyPlaceholderName,
    /// A placeholder names no binding; the name is carried.
    UnboundPlaceholder(String),
    /// The JSON serialiser refused a bound value. `serde_json` never refuses a
    /// `Value`, so rendering does not fail this way.
    SerializationError,
}

} // verus!
