//! The conversation between an index and the engine that holds its vectors.
//!
//! An `EngineCall` is what the owner of the engine is asked to do. The other
//! types are what the engine had to say once the call was made.

use vstd::prelude::*;
use crate::config::MetricType;

verus! {

/// The one call that has to be made on the engine before an operation can
/// complete.
#[derive(Clone, Copy, Debug, PartialEq, Eq, Structural)]
pub enum EngineCall {
    /// Assemble an empty index for vectors of `dimension` components under
    /// `metric`, from the configured description, and wrap it so that it
    /// accepts identifiers of the caller's choosing.
    Construct { dimension: i32, metric: MetricType },
    /// Deserialize the index that is stored at the configured path.
    Read,
    /// Fit the index to a sample of `samples` vectors.
    Train { samples: usize },
    /// Insert `rows` vectors under the identifiers that come with them.
    Add { rows: usize },
    /// Look up the `k` nearest neighbours of each of `num_queries` vectors,
    /// into two buffers of `slots` entries each.
    Search { num_queries: i32, k: i32, slots: usize },
}

/// The engine's answer to `EngineCall::Construct`.
#[derive(Clone, Copy, Debug, PartialEq, Eq, Structural)]
pub enum Built {
    /// The engine does not know the recipe that the description names.
    Rejected,
    /// The index stands. `trained` is what the engine reports of it: some
    /// structural families need no training and are trained from the start.
    Ready { trained: bool },
}

/// The engine's answer to `EngineCall::Read`.
#[derive(Debug)]
pub enum Loaded {
    /// The file could not be read or deserialized.
    Unreadable,
    /// The file holds an index, but not an identifier-mapped one.
    Foreign,
    /// The file holds an identifier-mapped index: its dimension, whether it
    /// is trained, and the identifiers of its rows in the order of insertion.
    IdMapped { dimension: i32, trained: bool, ids: Vec<i64> },
}

/// What was found when an index was opened at its configured path.
#[derive(Debug)]
pub enum Opened {
    /// A regular file was there, and the engine was asked to read it.
    Stored(Loaded),
    /// No regular file was there, and the engine was asked to construct.
    Fresh(Built),
}

} // verus!
