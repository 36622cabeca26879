use vstd::prelude::*;

verus! {

/// The ways in which an operation on vectors or matrices can fail.
///
/// Every operation checks its dimensional and index preconditions before it
/// does any work, so a failed operation leaves its operands untouched.
#[derive(Debug, Clone, Copy, PartialEq, Eq, Structural)]
pub enum MatrixError {
    /// Two vectors that must have the same length do not.
    LengthMismatch,
    /// Two matrices that must have the same number of rows do not.
    RowMismatch,
    /// Two matrices that must have the same number of columns do not.
    ColumnMismatch,
    /// The columns handed to a constructor are not all of one length.
    UnequalColumnLength,
    /// An index or an index range lies outside the bounds of its container.
    IndexError,
}

} // verus!
