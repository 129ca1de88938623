//! Lifecycle and result shaping for an approximate-nearest-neighbour vector index.
//!
//! The similarity engine that stores and compares the vectors lives outside this
//! crate. What is kept here is everything that surrounds it: the validated
//! configuration, the training gate, the identifier map, the rules for opening and
//! persisting an index, and the trimming of the fixed-size buffers that a search
//! kernel fills.
//!
//! Every operation comes in two parts. A `plan_*` function inspects the arguments
//! and either rejects them or names the single call that has to be made on the
//! engine. The operation itself then takes what the engine answered and produces
//! the new state of the index.

pub mod config;
pub mod engine;
pub mod error;
pub mod index;
pub mod laws;
pub mod results;
