//! Pairwise global alignment engine.
//!
//! Gotoh's affine-gap dynamic programming over three score layers, followed by
//! a traceback with a fixed tie-break preference.  The whole computation is
//! specified by the recursive functions below: [`opt_score_spec`] gives the
//! optimal global score and [`align_ops_spec`] the exact operation sequence
//! that the deterministic traceback emits, so [`Aligner::global`] pins both
//! its score and its operations down to a pure function of the inputs.
//!
//! Scoring model: aligning residues `a` against `b` adds the substitution
//! score of the fixed matrix; a gap run of `k` residues costs
//! `gap_open + (k - 1) * gap_extend`, with both penalties non-positive.
//! The alignment is global: every residue of both sequences is accounted for,
//! with no free end gaps.

use vstd::prelude::*;

use crate::matrix::sub_score;
use crate::matrix::sub_score_spec;

verus! {

/// One step of an alignment.
///
/// `Del` consumes a residue of `x` only (a gap in `y`); `Ins` consumes a
/// residue of `y` only (a gap in `x`).  The clip operations are reserved for
/// alignment modes that skip a prefix or suffix; the global engine never
/// emits them, but the result representation keeps room for them.
#[derive(Clone, Copy, PartialEq, Eq, Structural, Debug)]
pub enum AlignOp {
    Match,
    Subst,
    Del,
    Ins,
    Xclip(usize),
    Yclip(usize),
}

/// Which of the three dynamic-programming layers a traceback state lives in:
/// `Mid` ends in a match or substitution, `Gx` in a gap run in `y` (emitting
/// `Del`), `Gy` in a gap run in `x` (emitting `Ins`).
#[derive(Clone, Copy, PartialEq, Eq, Structural, Debug)]
pub enum Layer {
    Mid,
    Gx,
    Gy,
}

/// Sentinel for states that no alignment can end in.
pub const NEG_INF_SCORE: i64 = -0x1000_0000_0000_0000;

/// The sentinel as a mathematical integer.
pub open spec fn neg_inf() -> int {
    -0x1000_0000_0000_0000
}

/// Bound on how far a single dynamic-programming step can move a score:
/// at least the largest matrix entry magnitude and both penalty magnitudes.
pub open spec fn step_bound() -> int {
    30011
}

/// Largest sequence length the engine accepts.
pub const MAX_SEQ_LEN: usize = 30000;

/// Largest penalty magnitude the engine accepts.
pub const MAX_PENALTY: i32 = 30000;

pub open spec fn max2(a: int, b: int) -> int {
    if a >= b {
        a
    } else {
        b
    }
}

pub open spec fn max3(a: int, b: int, c: int) -> int {
    max2(a, max2(b, c))
}

/// Best score of an alignment of `x[0..i]` with `y[0..j]` that ends in a
/// match or substitution; `0` for the empty alignment, the sentinel where no
/// such alignment exists.
pub open spec fn m_val(x: Seq<u8>, y: Seq<u8>, go: int, ge: int, i: int, j: int) -> int
    decreases i + j,
{
    if i <= 0 && j <= 0 {
        0
    } else if i <= 0 || j <= 0 {
        neg_inf()
    } else {
        max3(
            m_val(x, y, go, ge, i - 1, j - 1),
            ix_val(x, y, go, ge, i - 1, j - 1),
            iy_val(x, y, go, ge, i - 1, j - 1),
        ) + sub_score_spec(x[i - 1], y[j - 1])
    }
}

/// Best score of an alignment of `x[0..i]` with `y[0..j]` that ends in a gap
/// run in `y`: opening from the `Mid` layer costs `go`, extending costs `ge`.
pub open spec fn ix_val(x: Seq<u8>, y: Seq<u8>, go: int, ge: int, i: int, j: int) -> int
    decreases i + j,
{
    if i <= 0 || j < 0 {
        neg_inf()
    } else {
        max2(m_val(x, y, go, ge, i - 1, j) + go, ix_val(x, y, go, ge, i - 1, j) + ge)
    }
}

/// Best score of an alignment of `x[0..i]` with `y[0..j]` that ends in a gap
/// run in `x`.
pub open spec fn iy_val(x: Seq<u8>, y: Seq<u8>, go: int, ge: int, i: int, j: int) -> int
    decreases i + j,
{
    if j <= 0 || i < 0 {
        neg_inf()
    } else {
        max2(m_val(x, y, go, ge, i, j - 1) + go, iy_val(x, y, go, ge, i, j - 1) + ge)
    }
}

/// The layer holding the best of the three scores, with the fixed tie-break
/// preference: match/substitution first, then the gap run in `y`, then the
/// gap run in `x`.  The preference makes the traceback deterministic.
pub open spec fn best_layer(m: int, gx: int, gy: int) -> Layer {
    if m >= gx && m >= gy {
        Layer::Mid
    } else if gx >= gy {
        Layer::Gx
    } else {
        Layer::Gy
    }
}

/// The optimal global alignment score of `x` and `y`.
pub open spec fn opt_score_spec(x: Seq<u8>, y: Seq<u8>, go: int, ge: int) -> int {
    max3(
        m_val(x, y, go, ge, x.len() as int, y.len() as int),
        ix_val(x, y, go, ge, x.len() as int, y.len() as int),
        iy_val(x, y, go, ge, x.len() as int, y.len() as int),
    )
}

/// The operation sequence the traceback emits from state `(i, j, l)`:
/// the alignment of `x[0..i]` with `y[0..j]` ending in layer `l`, read from
/// left to right.  Each step follows the predecessor that produced the
/// state's score, ties broken by the fixed preference.
pub open spec fn trace(x: Seq<u8>, y: Seq<u8>, go: int, ge: int, i: int, j: int, l: Layer) -> Seq<
    AlignOp,
>
    decreases i + j,
{
    match l {
        Layer::Mid => if i >= 1 && j >= 1 {
            let pl = best_layer(
                m_val(x, y, go, ge, i - 1, j - 1),
                ix_val(x, y, go, ge, i - 1, j - 1),
                iy_val(x, y, go, ge, i - 1, j - 1),
            );
            let op = if x[i - 1] == y[j - 1] {
                AlignOp::Match
            } else {
                AlignOp::Subst
            };
            trace(x, y, go, ge, i - 1, j - 1, pl).push(op)
        } else {
            Seq::empty()
        },
        Layer::Gx => if i >= 1 && j >= 0 {
            let pl = if m_val(x, y, go, ge, i - 1, j) + go >= ix_val(x, y, go, ge, i - 1, j)
                + ge {
                Layer::Mid
            } else {
                Layer::Gx
            };
            trace(x, y, go, ge, i - 1, j, pl).push(AlignOp::Del)
        } else {
            Seq::empty()
        },
        Layer::Gy => if j >= 1 && i >= 0 {
            let pl = if m_val(x, y, go, ge, i, j - 1) + go >= iy_val(x, y, go, ge, i, j - 1)
                + ge {
                Layer::Mid
            } else {
                Layer::Gy
            };
            trace(x, y, go, ge, i, j - 1, pl).push(AlignOp::Ins)
        } else {
            Seq::empty()
        },
    }
}

/// The layer the traceback starts from at the bottom-right cell.
pub open spec fn final_layer(x: Seq<u8>, y: Seq<u8>, go: int, ge: int) -> Layer {
    best_layer(
        m_val(x, y, go, ge, x.len() as int, y.len() as int),
        ix_val(x, y, go, ge, x.len() as int, y.len() as int),
        iy_val(x, y, go, ge, x.len() as int, y.len() as int),
    )
}

/// The operation sequence of the optimal global alignment of `x` and `y`.
pub open spec fn align_ops_spec(x: Seq<u8>, y: Seq<u8>, go: int, ge: int) -> Seq<AlignOp> {
    trace(x, y, go, ge, x.len() as int, y.len() as int, final_layer(x, y, go, ge))
}

/// The traceback from `(i, j)` emits at most `i + j` operations.
pub proof fn lemma_trace_len(x: Seq<u8>, y: Seq<u8>, go: int, ge: int, i: int, j: int, l: Layer)
    ensures
        trace(x, y, go, ge, i, j, l).len() <= max2(i + j, 0),
    decreases i + j,
{
    match l {
        Layer::Mid => {
            if i >= 1 && j >= 1 {
                let pl = best_layer(
                    m_val(x, y, go, ge, i - 1, j - 1),
                    ix_val(x, y, go, ge, i - 1, j - 1),
                    iy_val(x, y, go, ge, i - 1, j - 1),
                );
                lemma_trace_len(x, y, go, ge, i - 1, j - 1, pl);
            }
        },
        Layer::Gx => {
            if i >= 1 && j >= 0 {
                let pl = if m_val(x, y, go, ge, i - 1, j) + go >= ix_val(x, y, go, ge, i - 1, j)
                    + ge {
                    Layer::Mid
                } else {
                    Layer::Gx
                };
                lemma_trace_len(x, y, go, ge, i - 1, j, pl);
            }
        },
        Layer::Gy => {
            if j >= 1 && i >= 0 {
                let pl = if m_val(x, y, go, ge, i, j - 1) + go >= iy_val(x, y, go, ge, i, j - 1)
                    + ge {
                    Layer::Mid
                } else {
                    Layer::Gy
                };
                lemma_trace_len(x, y, go, ge, i, j - 1, pl);
            }
        },
    }
}

/// Result of one global alignment: the optimal score, the spans of both
/// sequences that the alignment covers (always the full sequences in global
/// mode), and the ordered edit operations.
pub struct AlignmentResult {
    pub score: i64,
    pub xstart: usize,
    pub xend: usize,
    pub ystart: usize,
    pub yend: usize,
    pub operations: Vec<AlignOp>,
}

/// The global-mode invariant: the spans cover both sequences entirely.
pub open spec fn is_global_spec(r: AlignmentResult, xlen: int, ylen: int) -> bool {
    r.xstart == 0 && r.xend == xlen && r.ystart == 0 && r.yend == ylen
}

/// Every score a cell of the dynamic program can hold after `i + j` steps.
pub open spec fn cell_in_range(v: int, i: int, j: int) -> bool {
    neg_inf() - (i + j) * step_bound() <= v <= (i + j) * step_bound()
}

fn max2e(a: i64, b: i64) -> (r: i64)
    ensures
        r as int == max2(a as int, b as int),
{
    if a >= b {
        a
    } else {
        b
    }
}

fn max3e(a: i64, b: i64, c: i64) -> (r: i64)
    ensures
        r as int == max3(a as int, b as int, c as int),
{
    max2e(a, max2e(b, c))
}

/// An alignment engine configured with non-positive affine gap penalties.
pub struct Aligner {
    pub gap_open: i32,
    pub gap_extend: i32,
}

impl Aligner {
    /// The penalties lie in the range the engine accepts.
    pub open spec fn wf(self) -> bool {
        -MAX_PENALTY <= self.gap_open <= 0 && -MAX_PENALTY <= self.gap_extend <= 0
    }

    /// Make an engine from non-positive gap penalties.
    pub fn new(gap_open: i32, gap_extend: i32) -> (a: Aligner)
        requires
            -MAX_PENALTY <= gap_open <= 0,
            -MAX_PENALTY <= gap_extend <= 0,
        ensures
            a.gap_open == gap_open,
            a.gap_extend == gap_extend,
            a.wf(),
    {
        Aligner { gap_open, gap_extend }
    }

    /// Optimal global alignment of `x` and `y`.
    ///
    /// The score and the operation sequence are exactly the ones of the
    /// specification-level dynamic program and traceback, so two runs on the
    /// same inputs return the same result.  The spans always cover both
    /// sequences entirely.
    pub fn global(&self, x: &Vec<u8>, y: &Vec<u8>) -> (r: AlignmentResult)
        requires
            self.wf(),
            x@.len() <= MAX_SEQ_LEN,
            y@.len() <= MAX_SEQ_LEN,
        ensures
            r.score as int == opt_score_spec(x@, y@, self.gap_open as int, self.gap_extend as int),
            r.operations@ == align_ops_spec(x@, y@, self.gap_open as int, self.gap_extend as int),
            is_global_spec(r, x@.len() as int, y@.len() as int),
            r.operations@.len() <= x@.len() + y@.len(),
    {
        let n = x.len();
        let m = y.len();
        let go = self.gap_open as i64;
        let ge = self.gap_extend as i64;
        let ghost goi = self.gap_open as int;
        let ghost gei = self.gap_extend as int;

        let mut mm: Vec<Vec<i64>> = Vec::new();
        let mut gx: Vec<Vec<i64>> = Vec::new();
        let mut gy: Vec<Vec<i64>> = Vec::new();

        let mut i: usize = 0;
        while i <= n
            invariant
                self.wf(),
                go == self.gap_open as i64,
                ge == self.gap_extend as i64,
                goi == self.gap_open as int,
                gei == self.gap_extend as int,
                n == x@.len(),
                m == y@.len(),
                n <= MAX_SEQ_LEN,
                m <= MAX_SEQ_LEN,
                i <= n + 1,
                mm@.len() == i,
                gx@.len() == i,
                gy@.len() == i,
                forall|r: int| 0 <= r < i as int ==> (#[trigger] mm@[r])@.len() == m + 1,
                forall|r: int| 0 <= r < i as int ==> (#[trigger] gx@[r])@.len() == m + 1,
                forall|r: int| 0 <= r < i as int ==> (#[trigger] gy@[r])@.len() == m + 1,
                forall|r: int, c: int|
                    0 <= r < i as int && 0 <= c <= m as int ==> #[trigger] mm@[r]@[c] as int
                        == m_val(x@, y@, goi, gei, r, c) && cell_in_range(mm@[r]@[c] as int, r, c),
                forall|r: int, c: int|
                    0 <= r < i as int && 0 <= c <= m as int ==> #[trigger] gx@[r]@[c] as int
                        == ix_val(x@, y@, goi, gei, r, c) && cell_in_range(gx@[r]@[c] as int, r, c),
                forall|r: int, c: int|
                    0 <= r < i as int && 0 <= c <= m as int ==> #[trigger] gy@[r]@[c] as int
                        == iy_val(x@, y@, goi, gei, r, c) && cell_in_range(gy@[r]@[c] as int, r, c),
            decreases n + 1 - i,
        {
            let mut mrow: Vec<i64> = Vec::new();
            let mut xrow: Vec<i64> = Vec::new();
            let mut yrow: Vec<i64> = Vec::new();
            let mut j: usize = 0;
            while j <= m
                invariant
                    self.wf(),
                    go == self.gap_open as i64,
                    ge == self.gap_extend as i64,
                    goi == self.gap_open as int,
                    gei == self.gap_extend as int,
                    n == x@.len(),
                    m == y@.len(),
                    n <= MAX_SEQ_LEN,
                    m <= MAX_SEQ_LEN,
                    i <= n,
                    j <= m + 1,
                    mm@.len() == i,
                    gx@.len() == i,
                    gy@.len() == i,
                    forall|r: int| 0 <= r < i as int ==> (#[trigger] mm@[r])@.len() == m + 1,
                    forall|r: int| 0 <= r < i as int ==> (#[trigger] gx@[r])@.len() == m + 1,
                    forall|r: int| 0 <= r < i as int ==> (#[trigger] gy@[r])@.len() == m + 1,
                    forall|r: int, c: int|
                        0 <= r < i as int && 0 <= c <= m as int ==> #[trigger] mm@[r]@[c] as int
                            == m_val(x@, y@, goi, gei, r, c) && cell_in_range(
                            mm@[r]@[c] as int,
                            r,
                            c,
                        ),
                    forall|r: int, c: int|
                        0 <= r < i as int && 0 <= c <= m as int ==> #[trigger] gx@[r]@[c] as int
                            == ix_val(x@, y@, goi, gei, r, c) && cell_in_range(
                            gx@[r]@[c] as int,
                            r,
                            c,
                        ),
                    forall|r: int, c: int|
                        0 <= r < i as int && 0 <= c <= m as int ==> #[trigger] gy@[r]@[c] as int
                            == iy_val(x@, y@, goi, gei, r, c) && cell_in_range(
                            gy@[r]@[c] as int,
                            r,
                            c,
                        ),
                    mrow@.len() == j,
                    xrow@.len() == j,
                    yrow@.len() == j,
                    forall|c: int|
                        0 <= c < j as int ==> #[trigger] mrow@[c] as int == m_val(
                            x@,
                            y@,
                            goi,
                            gei,
                            i as int,
                            c,
                        ) && cell_in_range(mrow@[c] as int, i as int, c),
                    forall|c: int|
                        0 <= c < j as int ==> #[trigger] xrow@[c] as int == ix_val(
                            x@,
                            y@,
                            goi,
                            gei,
                            i as int,
                            c,
                        ) && cell_in_range(xrow@[c] as int, i as int, c),
                    forall|c: int|
                        0 <= c < j as int ==> #[trigger] yrow@[c] as int == iy_val(
                            x@,
                            y@,
                            goi,
                            gei,
                            i as int,
                            c,
                        ) && cell_in_range(yrow@[c] as int, i as int, c),
                decreases m + 1 - j,
            {
                let mv: i64 = if i == 0 && j == 0 {
                    0
                } else if i == 0 || j == 0 {
                    NEG_INF_SCORE
                } else {
                    let prev = &mm[i - 1];
                    let prevx = &gx[i - 1];
                    let prevy = &gy[i - 1];
                    let best = max3e(prev[j - 1], prevx[j - 1], prevy[j - 1]);
                    let s = sub_score(x[i - 1], y[j - 1]);
                    best + (s as i64)
                };
                assert(mv as int == m_val(x@, y@, goi, gei, i as int, j as int));
                assert(cell_in_range(mv as int, i as int, j as int));

                let xv: i64 = if i == 0 {
                    NEG_INF_SCORE
                } else {
                    let prev = &mm[i - 1];
                    let prevx = &gx[i - 1];
                    max2e(prev[j] + go, prevx[j] + ge)
                };
                assert(xv as int == ix_val(x@, y@, goi, gei, i as int, j as int));
                assert(cell_in_range(xv as int, i as int, j as int));

                let yv: i64 = if j == 0 {
                    NEG_INF_SCORE
                } else {
                    max2e(mrow[j - 1] + go, yrow[j - 1] + ge)
                };
                assert(yv as int == iy_val(x@, y@, goi, gei, i as int, j as int));
                assert(cell_in_range(yv as int, i as int, j as int));

                mrow.push(mv);
                xrow.push(xv);
                yrow.push(yv);
                j += 1;
            }
            mm.push(mrow);
            gx.push(xrow);
            gy.push(yrow);
            i += 1;
        }

        let lastm = &mm[n];
        let lastx = &gx[n];
        let lasty = &gy[n];
        let sm = lastm[m];
        let sx = lastx[m];
        let sy = lasty[m];
        let score = max3e(sm, sx, sy);
        let l0 = if sm >= sx && sm >= sy {
            Layer::Mid
        } else if sx >= sy {
            Layer::Gx
        } else {
            Layer::Gy
        };
        assert(l0 == final_layer(x@, y@, goi, gei));
        assert(score as int == opt_score_spec(x@, y@, goi, gei));

        let mut rev: Vec<AlignOp> = Vec::new();
        let mut ti: usize = n;
        let mut tj: usize = m;
        let mut l = l0;
        loop
            invariant
                n == x@.len(),
                m == y@.len(),
                n <= MAX_SEQ_LEN,
                m <= MAX_SEQ_LEN,
                go == self.gap_open as i64,
                ge == self.gap_extend as i64,
                goi == self.gap_open as int,
                gei == self.gap_extend as int,
                ti <= n,
                tj <= m,
                mm@.len() == n + 1,
                gx@.len() == n + 1,
                gy@.len() == n + 1,
                forall|r: int| 0 <= r <= n as int ==> (#[trigger] mm@[r])@.len() == m + 1,
                forall|r: int| 0 <= r <= n as int ==> (#[trigger] gx@[r])@.len() == m + 1,
                forall|r: int| 0 <= r <= n as int ==> (#[trigger] gy@[r])@.len() == m + 1,
                forall|r: int, c: int|
                    0 <= r <= n as int && 0 <= c <= m as int ==> #[trigger] mm@[r]@[c] as int
                        == m_val(x@, y@, goi, gei, r, c) && cell_in_range(mm@[r]@[c] as int, r, c),
                forall|r: int, c: int|
                    0 <= r <= n as int && 0 <= c <= m as int ==> #[trigger] gx@[r]@[c] as int
                        == ix_val(x@, y@, goi, gei, r, c) && cell_in_range(gx@[r]@[c] as int, r, c),
                forall|r: int, c: int|
                    0 <= r <= n as int && 0 <= c <= m as int ==> #[trigger] gy@[r]@[c] as int
                        == iy_val(x@, y@, goi, gei, r, c) && cell_in_range(gy@[r]@[c] as int, r, c),
                align_ops_spec(x@, y@, goi, gei) == trace(
                    x@,
                    y@,
                    goi,
                    gei,
                    ti as int,
                    tj as int,
                    l,
                ) + rev@.reverse(),
            ensures
                align_ops_spec(x@, y@, goi, gei) == rev@.reverse(),
            decreases ti + tj,
        {
            let ghost pre_trace = trace(x@, y@, goi, gei, ti as int, tj as int, l);
            let ghost old_rev = rev@;
            match l {
                Layer::Mid => {
                    if ti >= 1 && tj >= 1 {
                        let prev = &mm[ti - 1];
                        let prevx = &gx[ti - 1];
                        let prevy = &gy[ti - 1];
                        let a = prev[tj - 1];
                        let b = prevx[tj - 1];
                        let c = prevy[tj - 1];
                        let op = if x[ti - 1] == y[tj - 1] {
                            AlignOp::Match
                        } else {
                            AlignOp::Subst
                        };
                        let pl = if a >= b && a >= c {
                            Layer::Mid
                        } else if b >= c {
                            Layer::Gx
                        } else {
                            Layer::Gy
                        };
                        proof {
                            assert(pre_trace == trace(
                                x@,
                                y@,
                                goi,
                                gei,
                                ti as int - 1,
                                tj as int - 1,
                                pl,
                            ).push(op));
                        }
                        rev.push(op);
                        proof {
                            assert(rev@ == old_rev.push(op));
                            assert(rev@.drop_last() =~= old_rev);
                            lemma_unroll_step(
                                align_ops_spec(x@, y@, goi, gei),
                                trace(x@, y@, goi, gei, ti as int - 1, tj as int - 1, pl),
                                rev@,
                                op,
                            );
                        }
                        ti -= 1;
                        tj -= 1;
                        l = pl;
                    } else {
                        proof {
                            assert(pre_trace == Seq::<AlignOp>::empty());
                            assert(pre_trace + rev@.reverse() =~= rev@.reverse());
                        }
                        break ;
                    }
                },
                Layer::Gx => {
                    if ti >= 1 {
                        let prev = &mm[ti - 1];
                        let prevx = &gx[ti - 1];
                        let a = prev[tj];
                        let b = prevx[tj];
                        let pl = if a + go >= b + ge {
                            Layer::Mid
                        } else {
                            Layer::Gx
                        };
                        proof {
                            assert(pre_trace == trace(
                                x@,
                                y@,
                                goi,
                                gei,
                                ti as int - 1,
                                tj as int,
                                pl,
                            ).push(AlignOp::Del));
                        }
                        rev.push(AlignOp::Del);
                        proof {
                            assert(rev@ == old_rev.push(AlignOp::Del));
                            assert(rev@.drop_last() =~= old_rev);
                            lemma_unroll_step(
                                align_ops_spec(x@, y@, goi, gei),
                                trace(x@, y@, goi, gei, ti as int - 1, tj as int, pl),
                                rev@,
                                AlignOp::Del,
                            );
                        }
                        ti -= 1;
                        l = pl;
                    } else {
                        proof {
                            assert(pre_trace == Seq::<AlignOp>::empty());
                            assert(pre_trace + rev@.reverse() =~= rev@.reverse());
                        }
                        break ;
                    }
                },
                Layer::Gy => {
                    if tj >= 1 {
                        let a = mm[ti][tj - 1];
                        let b = gy[ti][tj - 1];
                        let pl = if a + go >= b + ge {
                            Layer::Mid
                        } else {
                            Layer::Gy
                        };
                        proof {
                            assert(pre_trace == trace(
                                x@,
                                y@,
                                goi,
                                gei,
                                ti as int,
                                tj as int - 1,
                                pl,
                            ).push(AlignOp::Ins));
                        }
                        rev.push(AlignOp::Ins);
                        proof {
                            assert(rev@ == old_rev.push(AlignOp::Ins));
                            assert(rev@.drop_last() =~= old_rev);
                            lemma_unroll_step(
                                align_ops_spec(x@, y@, goi, gei),
                                trace(x@, y@, goi, gei, ti as int, tj as int - 1, pl),
                                rev@,
                                AlignOp::Ins,
                            );
                        }
                        tj -= 1;
                        l = pl;
                    } else {
                        proof {
                            assert(pre_trace == Seq::<AlignOp>::empty());
                            assert(pre_trace + rev@.reverse() =~= rev@.reverse());
                        }
                        break ;
                    }
                },
            }
        }
        proof {
            lemma_trace_len(
                x@,
                y@,
                goi,
                gei,
                x@.len() as int,
                y@.len() as int,
                final_layer(x@, y@, goi, gei),
            );
        }

        let mut ops: Vec<AlignOp> = Vec::new();
        let mut k: usize = rev.len();
        while k > 0
            invariant
                k <= rev@.len(),
                ops@.len() == rev@.len() - k,
                forall|q: int|
                    0 <= q < ops@.len() ==> #[trigger] ops@[q] == rev@[rev@.len() - 1 - q],
            decreases k,
        {
            k -= 1;
            let o = rev[k];
            ops.push(o);
        }
        assert(ops@ =~= rev@.reverse());

        AlignmentResult {
            score,
            xstart: 0,
            xend: n,
            ystart: 0,
            yend: m,
            operations: ops,
        }
    }
}

/// Peeling one traceback step off: if the whole sequence is the current
/// suffix plus the reversed emitted operations, it stays so after emitting
/// one more operation.
proof fn lemma_unroll_step(
    whole: Seq<AlignOp>,
    shorter: Seq<AlignOp>,
    rev_after: Seq<AlignOp>,
    op: AlignOp,
)
    requires
        rev_after.len() >= 1,
        rev_after.last() == op,
        whole == shorter.push(op) + rev_after.drop_last().reverse(),
    ensures
        whole == shorter + rev_after.reverse(),
{
    assert(rev_after.reverse() =~= seq![op] + rev_after.drop_last().reverse());
    assert(shorter.push(op) + rev_after.drop_last().reverse() =~= shorter + (seq![op]
        + rev_after.drop_last().reverse()));
    assert(whole =~= shorter + rev_after.reverse());
}

} // verus!
