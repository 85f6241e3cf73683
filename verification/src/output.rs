//! Result lines.
//!
//! Each aligned pair contributes two symmetric lines (x-vs-y and y-vs-x)
//! carrying the same statistics, and each record contributes a pair of
//! identical self-hit lines; a single header line precedes everything.  The
//! sink that serializes concurrent writers lives in the runner; this module
//! fixes the content of every line and the total line count.  Percent
//! identity is the ratio `num_matches / aln_len`, computed by the runner
//! with floating-point division just before a line is written.

use vstd::prelude::*;

use crate::engine::AlignmentResult;
use crate::engine::is_global_spec;
use crate::pairs::pair_count_spec;
use crate::record::SeqRecord;
use crate::stats::alignment_length;
use crate::stats::count_identities;
use crate::stats::match_count_spec;
use crate::stats::ops_string_spec;
use crate::stats::show_alignment_ops;
use crate::stats::show_self_alignment_ops;

verus! {

/// The fields of one output line, short of the percent-identity column that
/// the runner derives from `aln_len` and `num_matches`.
pub struct OutputLine {
    pub x_id: String,
    pub y_id: String,
    pub x_len: usize,
    pub y_len: usize,
    pub aln_len: i32,
    pub num_matches: i32,
    pub aln_ops: Option<String>,
}

/// Whether an alignment result covers both sequences entirely, as the
/// global mode promises.  A result that fails this check is an engine
/// defect and the runner must abort.
pub fn check_global(r: &AlignmentResult, xlen: usize, ylen: usize) -> (ok: bool)
    ensures
        ok == is_global_spec(*r, xlen as int, ylen as int),
{
    r.xstart == 0 && r.xend == xlen && r.ystart == 0 && r.yend == ylen
}

/// The two symmetric lines reporting one aligned pair: x-vs-y then y-vs-x,
/// with identical statistics and operation string.
pub fn pair_lines(x: &SeqRecord, y: &SeqRecord, alignment: &AlignmentResult, show_aln_ops: bool) -> (lines: Vec<OutputLine>)
    requires
        alignment.operations@.len() <= 0x7fff_ffff,
    ensures
        lines@.len() == 2,
        lines@[0].x_id == x.id && lines@[0].y_id == y.id,
        lines@[1].x_id == y.id && lines@[1].y_id == x.id,
        lines@[0].x_len == x.seq@.len() && lines@[0].y_len == y.seq@.len(),
        lines@[1].x_len == y.seq@.len() && lines@[1].y_len == x.seq@.len(),
        forall|q: int|
            0 <= q < 2 ==> (#[trigger] lines@[q]).aln_len as int == alignment.operations@.len(),
        forall|q: int|
            0 <= q < 2 ==> (#[trigger] lines@[q]).num_matches as int == match_count_spec(
                alignment.operations@,
            ),
        forall|q: int|
            0 <= q < 2 ==> ((#[trigger] lines@[q]).aln_ops matches Some(s) ==> s@
                == ops_string_spec(alignment.operations@)),
        forall|q: int|
            0 <= q < 2 ==> (((#[trigger] lines@[q]).aln_ops matches Some(s)) <==> show_aln_ops),
{
    let aln_len = alignment_length(alignment);
    let num_matches = count_identities(alignment);
    let first_ops: Option<String> = if show_aln_ops {
        Some(show_alignment_ops(alignment))
    } else {
        None
    };
    let second_ops: Option<String> = match &first_ops {
        Some(s) => Some(s.clone()),
        None => None,
    };
    let mut lines: Vec<OutputLine> = Vec::new();
    lines.push(
        OutputLine {
            x_id: x.id.clone(),
            y_id: y.id.clone(),
            x_len: x.seq.len(),
            y_len: y.seq.len(),
            aln_len,
            num_matches,
            aln_ops: first_ops,
        },
    );
    lines.push(
        OutputLine {
            x_id: y.id.clone(),
            y_id: x.id.clone(),
            x_len: y.seq.len(),
            y_len: x.seq.len(),
            aln_len,
            num_matches,
            aln_ops: second_ops,
        },
    );
    lines
}

/// The two identical self-hit lines for one record: the trivial
/// self-alignment is all matches, so both statistics equal the sequence
/// length and the operation string is one `M` per residue.
pub fn self_hit_lines(rec: &SeqRecord, show_aln_ops: bool) -> (lines: Vec<OutputLine>)
    requires
        rec.seq@.len() <= 0x7fff_ffff,
    ensures
        lines@.len() == 2,
        forall|q: int|
            0 <= q < 2 ==> (#[trigger] lines@[q]).x_id == rec.id && lines@[q].y_id == rec.id,
        forall|q: int|
            0 <= q < 2 ==> (#[trigger] lines@[q]).x_len == rec.seq@.len() && lines@[q].y_len
                == rec.seq@.len(),
        forall|q: int|
            0 <= q < 2 ==> (#[trigger] lines@[q]).aln_len as int == rec.seq@.len()
                && lines@[q].num_matches as int == rec.seq@.len(),
        forall|q: int|
            0 <= q < 2 ==> ((#[trigger] lines@[q]).aln_ops matches Some(s) ==> s@ == Seq::new(
                rec.seq@.len(),
                |t: int| 'M',
            )),
        forall|q: int|
            0 <= q < 2 ==> (((#[trigger] lines@[q]).aln_ops matches Some(s)) <==> show_aln_ops),
{
    let len = rec.seq.len() as i32;
    let first_ops: Option<String> = if show_aln_ops {
        Some(show_self_alignment_ops(rec.seq.len()))
    } else {
        None
    };
    let second_ops: Option<String> = match &first_ops {
        Some(s) => Some(s.clone()),
        None => None,
    };
    let mut lines: Vec<OutputLine> = Vec::new();
    lines.push(
        OutputLine {
            x_id: rec.id.clone(),
            y_id: rec.id.clone(),
            x_len: rec.seq.len(),
            y_len: rec.seq.len(),
            aln_len: len,
            num_matches: len,
            aln_ops: first_ops,
        },
    );
    lines.push(
        OutputLine {
            x_id: rec.id.clone(),
            y_id: rec.id.clone(),
            x_len: rec.seq.len(),
            y_len: rec.seq.len(),
            aln_len: len,
            num_matches: len,
            aln_ops: second_ops,
        },
    );
    lines
}

/// Total number of output lines for `n` records: one header, two self-hit
/// lines per record, and two lines per unordered pair.
pub open spec fn total_output_lines(n: int) -> int {
    1 + 2 * n + 2 * pair_count_spec(n)
}

/// Under any interleaving, a run over `n` records writes exactly
/// `n*n + n + 1` whole lines: the header, `2*n` self-hit lines and
/// `2 * (n*(n-1)/2)` pair lines, none lost and none duplicated.
pub proof fn lemma_total_output_lines(n: int)
    requires
        n >= 0,
    ensures
        total_output_lines(n) == n * n + n + 1,
{
    let h = n * (n - 1);
    vstd::arithmetic::div_mod::lemma_fundamental_div_mod(n, 2);
    let d = n / 2;
    let r = n % 2;
    let e: int = if r == 0 {
        d * (n - 1)
    } else {
        n * d
    };
    assert(h == 2 * e) by (nonlinear_arith)
        requires
            n == 2 * d + r,
            0 <= r < 2,
            h == n * (n - 1),
            e == if r == 0 {
                d * (n - 1)
            } else {
                n * d
            },
    ;
    vstd::arithmetic::div_mod::lemma_div_multiples_vanish(e, 2);
    assert(h / 2 == e);
    assert(2 * e == n * n - n) by (nonlinear_arith)
        requires
            h == 2 * e,
            h == n * (n - 1),
    ;
}

} // verus!
