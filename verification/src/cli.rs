//! Command-line parameter model.
//!
//! The fields mirror the options of the runner binary.  The runner parses its
//! arguments with an argument-parsing crate and converts into this plain
//! struct; the methods here perform the small numeric conversions that the
//! rest of the system relies on.

use vstd::prelude::*;

verus! {

/// Validated command-line parameters for an all-vs-all alignment run.
pub struct Cli {
    /// Path of the input sequence file.
    pub in_file: String,
    /// Path of the output file.
    pub out_file: String,
    /// Number of worker threads for aligning.
    pub threads: u8,
    /// Gap open penalty, as a non-negative magnitude.
    pub gap_open: u8,
    /// Gap extend penalty, as a non-negative magnitude.
    pub gap_extend: u8,
    /// Whether to include the alignment-operation column in the output.
    pub show_aln_ops: bool,
}

impl Cli {
    /// Worker count as a `usize`.
    pub fn threads(&self) -> (n: usize)
        ensures
            n == self.threads as usize,
    {
        self.threads as usize
    }

    /// Gap open penalty as the (non-positive) score added per gap run.
    pub fn gap_open(&self) -> (s: i32)
        ensures
            s == -(self.gap_open as i32),
            -255 <= s <= 0,
    {
        -(self.gap_open as i32)
    }

    /// Gap extend penalty as the (non-positive) score added per extra gap residue.
    pub fn gap_extend(&self) -> (s: i32)
        ensures
            s == -(self.gap_extend as i32),
            -255 <= s <= 0,
    {
        -(self.gap_extend as i32)
    }
}

} // verus!
