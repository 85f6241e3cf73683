//! All-vs-all global protein sequence alignment.
//!
//! The crate computes optimal global alignments between pairs of protein
//! sequences with affine gap penalties (Gotoh's algorithm), enumerates all
//! unordered pairs of input records, assigns them round-robin to a fixed set
//! of workers, and describes the tab-separated result lines that a runner
//! writes out.

pub mod cli;
pub mod engine;
pub mod laws;
pub mod matrix;
pub mod output;
pub mod pairs;
pub mod record;
pub mod stats;
