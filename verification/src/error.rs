use vstd::prelude::*;

verus! {

/// The ways a parse or a format detection can fail.
///
/// A check digit that does not match is not an error: it is reported through
/// the `is_valid` flags of the parse result. Errors are reserved for input
/// that is structurally unusable.
#[derive(Clone, Copy, Debug, PartialEq, Eq, Structural)]
pub enum MrzError {
    /// The line count or a line width matches no supported format.
    InvalidLineLength,
    /// A character outside the MRZ alphabet {A-Z, 0-9, `<`} reached the
    /// checksum engine.
    InvalidCharacter,
    /// A declared field offset and length exceed the line bounds.
    IndexOutOfRange,
    /// A date field without filler characters is not exactly six digits.
    InvalidDateFormat,
    /// A date field holds a character that is neither a digit nor a filler.
    InvalidDateCharacter,
    /// A parse was asked for before any format was resolved.
    UnresolvedFormat,
}

} // verus!
