//! The ways in which an operation on an index can fail.

use vstd::prelude::*;

verus! {

/// Failure of an operation on an index. No failure changes the index.
#[derive(Clone, Copy, Debug, PartialEq, Eq, Structural)]
pub enum IndexError {
    /// The dimension is not positive, the description is empty, or the engine
    /// does not know the structural recipe that the description names.
    Configuration,
    /// The training sample is empty, is not a whole number of vectors, or the
    /// engine failed to fit it.
    Training,
    /// Vectors were offered to an index that has to be trained first.
    NotTrained,
    /// A flat vector array is not a whole number of vectors, or the number of
    /// identifiers differs from the number of vectors.
    DimensionMismatch,
    /// The stored index cannot be read, or is not an identifier-mapped index.
    CorruptIndex,
    /// The index could not be written to its path.
    Io,
}

} // verus!
