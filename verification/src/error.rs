//! What can go wrong when a table is validated, encoded, decoded, read or written.

use vstd::prelude::*;

verus! {

/// The three groups of counts that make up the table. Each group is a
/// distribution of its own: its counts are the numerators, their sum is the
/// denominator.
#[derive(Clone, Copy, Debug, PartialEq, Eq)]
pub enum Group {
    /// Item against turnip.
    Split,
    /// The eight faces of a turnip.
    Faces,
    /// The three items that can come in place of a turnip.
    Items,
}

/// A rule that a model breaks, with the group that breaks it.
#[derive(Clone, Copy, Debug, PartialEq, Eq)]
pub enum ValidationError {
    /// A count of the group is larger than the one byte it is stored in.
    CountTooLarge(Group),
    /// The counts of the group do not add up to the denominator that the game
    /// ships with.
    WrongSum(Group),
}

#[derive(Clone, Copy, Debug, PartialEq, Eq)]
pub enum Error {
    /// The image ends before the last byte that had to be read or written.
    Io,
    /// The model breaks a rule; nothing was written.
    Validation(ValidationError),
    /// The block of bytes is shorter than a table.
    Decode,
}

/// The result of a validation whose first broken rule, if any, is `violation`.
pub open spec fn verdict(violation: Option<ValidationError>) -> Result<(), ValidationError> {
    match violation {
        Some(e) => Err(e),
        None => Ok(()),
    }
}

} // verus!
