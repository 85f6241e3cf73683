//! Sequence records.
//!
//! A record is an identifier, an optional description, and the residue
//! sequence as bytes.  Records are immutable once constructed; the loader
//! that reads them from a sequence file lives outside the library and hands
//! them over as plain values.

use vstd::prelude::*;

verus! {

/// One input sequence: identifier, optional description, residues.
#[derive(Clone)]
pub struct SeqRecord {
    pub id: String,
    pub desc: Option<String>,
    pub seq: Vec<u8>,
}

impl SeqRecord {
    /// Build a record from its attributes.
    pub fn with_attrs(id: String, desc: Option<String>, seq: Vec<u8>) -> (r: SeqRecord)
        ensures
            r.id == id,
            r.desc == desc,
            r.seq == seq,
    {
        SeqRecord { id, desc, seq }
    }

    /// The record identifier.
    pub fn id(&self) -> (s: &String)
        ensures
            s == &self.id,
    {
        &self.id
    }

    /// The residue sequence.
    pub fn seq(&self) -> (s: &Vec<u8>)
        ensures
            s == &self.seq,
    {
        &self.seq
    }

    /// Number of residues.
    pub fn len(&self) -> (n: usize)
        ensures
            n == self.seq@.len(),
    {
        self.seq.len()
    }
}

} // verus!
