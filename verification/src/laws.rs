//! Properties of the alignment engine.
//!
//! The lemmas here relate the engine's specification functions across calls:
//! the optimal score is symmetric in its two sequences, and the operation
//! sequence the traceback emits is a genuine global alignment — it consumes
//! every residue of both sequences exactly once, marks `Match` exactly where
//! the aligned residues are equal, and never clips.

use vstd::prelude::*;

use crate::engine::AlignOp;
use crate::engine::AlignmentResult;
use crate::engine::Layer;
use crate::engine::align_ops_spec;
use crate::engine::best_layer;
use crate::engine::final_layer;
use crate::engine::is_global_spec;
use crate::engine::ix_val;
use crate::engine::iy_val;
use crate::engine::m_val;
use crate::engine::max2;
use crate::engine::max3;
use crate::engine::neg_inf;
use crate::engine::opt_score_spec;
use crate::engine::step_bound;
use crate::engine::trace;
use crate::matrix::lemma_sub_score_avg;
use crate::matrix::lemma_sub_score_bounds;
use crate::matrix::lemma_sub_score_sym;
use crate::matrix::sub_score_spec;
use crate::stats::match_count_spec;

verus! {

/// How many residues of `x` one operation consumes.
pub open spec fn op_x_units(op: AlignOp) -> int {
    match op {
        AlignOp::Match => 1,
        AlignOp::Subst => 1,
        AlignOp::Del => 1,
        AlignOp::Ins => 0,
        AlignOp::Xclip(s) => s as int,
        AlignOp::Yclip(s) => 0,
    }
}

/// How many residues of `y` one operation consumes.
pub open spec fn op_y_units(op: AlignOp) -> int {
    match op {
        AlignOp::Match => 1,
        AlignOp::Subst => 1,
        AlignOp::Del => 0,
        AlignOp::Ins => 1,
        AlignOp::Xclip(s) => 0,
        AlignOp::Yclip(s) => s as int,
    }
}

/// Residues of `x` consumed by an operation sequence.
pub open spec fn x_consumed(ops: Seq<AlignOp>) -> int
    decreases ops.len(),
{
    if ops.len() == 0 {
        0
    } else {
        x_consumed(ops.drop_last()) + op_x_units(ops.last())
    }
}

/// Residues of `y` consumed by an operation sequence.
pub open spec fn y_consumed(ops: Seq<AlignOp>) -> int
    decreases ops.len(),
{
    if ops.len() == 0 {
        0
    } else {
        y_consumed(ops.drop_last()) + op_y_units(ops.last())
    }
}

/// Whether an operation sequence is a well-formed alignment of prefixes of
/// `x` and `y`: every step consumes residues that exist, `Match` aligns
/// equal residues, `Subst` aligns different ones, and no clip appears.
pub open spec fn ops_valid(x: Seq<u8>, y: Seq<u8>, ops: Seq<AlignOp>) -> bool
    decreases ops.len(),
{
    if ops.len() == 0 {
        true
    } else {
        let front = ops.drop_last();
        ops_valid(x, y, front) && (match ops.last() {
            AlignOp::Match => x_consumed(front) < x.len() && y_consumed(front) < y.len() && x[
                x_consumed(front)
            ] == y[y_consumed(front)],
            AlignOp::Subst => x_consumed(front) < x.len() && y_consumed(front) < y.len() && x[
                x_consumed(front)
            ] != y[y_consumed(front)],
            AlignOp::Del => x_consumed(front) < x.len(),
            AlignOp::Ins => y_consumed(front) < y.len(),
            AlignOp::Xclip(s) => false,
            AlignOp::Yclip(s) => false,
        })
    }
}

/// The score of the layer a traceback state lives in.
pub open spec fn layer_val(x: Seq<u8>, y: Seq<u8>, go: int, ge: int, i: int, j: int, l: Layer) -> int {
    match l {
        Layer::Mid => m_val(x, y, go, ge, i, j),
        Layer::Gx => ix_val(x, y, go, ge, i, j),
        Layer::Gy => iy_val(x, y, go, ge, i, j),
    }
}

/// States below this threshold are unreachable by any alignment; every
/// state on the traceback path of a reachable state stays above it.
pub open spec fn reach_threshold(i: int, j: int) -> int {
    neg_inf() / 2 + (i + j) * step_bound()
}

/// The three layer scores are symmetric under swapping the two sequences,
/// with the two gap layers trading places.
pub proof fn lemma_vals_symmetric(x: Seq<u8>, y: Seq<u8>, go: int, ge: int, i: int, j: int)
    ensures
        m_val(x, y, go, ge, i, j) == m_val(y, x, go, ge, j, i),
        ix_val(x, y, go, ge, i, j) == iy_val(y, x, go, ge, j, i),
        iy_val(x, y, go, ge, i, j) == ix_val(y, x, go, ge, j, i),
    decreases i + j,
{
    if i >= 1 && j >= 1 {
        lemma_vals_symmetric(x, y, go, ge, i - 1, j - 1);
        lemma_vals_symmetric(x, y, go, ge, i - 1, j);
        lemma_vals_symmetric(x, y, go, ge, i, j - 1);
        lemma_sub_score_sym(x[i - 1], y[j - 1]);
    } else if i >= 1 && j == 0 {
        lemma_vals_symmetric(x, y, go, ge, i - 1, 0);
    } else if i == 0 && j >= 1 {
        lemma_vals_symmetric(x, y, go, ge, 0, j - 1);
    }
}

/// Score symmetry: aligning `x` against `y` yields the same optimal score
/// as aligning `y` against `x`.
pub proof fn lemma_score_symmetry(x: Seq<u8>, y: Seq<u8>, go: int, ge: int)
    ensures
        opt_score_spec(x, y, go, ge) == opt_score_spec(y, x, go, ge),
{
    lemma_vals_symmetric(x, y, go, ge, x.len() as int, y.len() as int);
}

/// The score of an all-gap row: consuming `j` leading residues of `y` costs
/// one gap open plus `j - 1` extensions.
proof fn lemma_iy_row0(x: Seq<u8>, y: Seq<u8>, go: int, ge: int, j: int)
    requires
        -30000 <= go <= 0,
        -30000 <= ge <= 0,
        1 <= j <= 30000,
    ensures
        iy_val(x, y, go, ge, 0, j) == go + (j - 1) * ge,
    decreases j,
{
    if j == 1 {
        assert(iy_val(x, y, go, ge, 0, 1) == max2(
            m_val(x, y, go, ge, 0, 0) + go,
            iy_val(x, y, go, ge, 0, 0) + ge,
        ));
        assert((j - 1) * ge == 0) by (nonlinear_arith)
            requires
                j == 1,
        ;
    } else {
        lemma_iy_row0(x, y, go, ge, j - 1);
        assert(m_val(x, y, go, ge, 0, j - 1) == neg_inf());
        assert(iy_val(x, y, go, ge, 0, j) == max2(
            m_val(x, y, go, ge, 0, j - 1) + go,
            iy_val(x, y, go, ge, 0, j - 1) + ge,
        ));
        assert((j - 2) * ge + ge == (j - 1) * ge) by (nonlinear_arith);
        assert((j - 1) * ge >= 30000 * -30000) by (nonlinear_arith)
            requires
                1 <= j <= 30000,
                -30000 <= ge <= 0,
        ;
        assert((j - 2) * ge >= 30000 * -30000) by (nonlinear_arith)
            requires
                2 <= j <= 30000,
                -30000 <= ge <= 0,
        ;
    }
}

/// The score of an all-gap column: consuming `i` leading residues of `x`.
proof fn lemma_ix_col0(x: Seq<u8>, y: Seq<u8>, go: int, ge: int, i: int)
    requires
        -30000 <= go <= 0,
        -30000 <= ge <= 0,
        1 <= i <= 30000,
    ensures
        ix_val(x, y, go, ge, i, 0) == go + (i - 1) * ge,
    decreases i,
{
    if i == 1 {
        assert(ix_val(x, y, go, ge, 1, 0) == max2(
            m_val(x, y, go, ge, 0, 0) + go,
            ix_val(x, y, go, ge, 0, 0) + ge,
        ));
        assert((i - 1) * ge == 0) by (nonlinear_arith)
            requires
                i == 1,
        ;
    } else {
        lemma_ix_col0(x, y, go, ge, i - 1);
        assert(m_val(x, y, go, ge, i - 1, 0) == neg_inf());
        assert(ix_val(x, y, go, ge, i, 0) == max2(
            m_val(x, y, go, ge, i - 1, 0) + go,
            ix_val(x, y, go, ge, i - 1, 0) + ge,
        ));
        assert((i - 2) * ge + ge == (i - 1) * ge) by (nonlinear_arith);
        assert((i - 1) * ge >= 30000 * -30000) by (nonlinear_arith)
            requires
                1 <= i <= 30000,
                -30000 <= ge <= 0,
        ;
        assert((i - 2) * ge >= 30000 * -30000) by (nonlinear_arith)
            requires
                2 <= i <= 30000,
                -30000 <= ge <= 0,
        ;
    }
}

/// A lower bound for the first match row: align `x`'s first residue after
/// skipping `j - 1` residues of `y`.
proof fn lemma_m_first_row(x: Seq<u8>, y: Seq<u8>, go: int, ge: int, j: int)
    requires
        -30000 <= go <= 0,
        -30000 <= ge <= 0,
        1 <= j <= 30000,
        x.len() >= 1,
        j <= y.len(),
    ensures
        m_val(x, y, go, ge, 1, j) >= go + (j - 1) * ge - 4,
{
    lemma_sub_score_bounds(x[0], y[j - 1]);
    if j == 1 {
        assert(m_val(x, y, go, ge, 1, 1) == max3(
            m_val(x, y, go, ge, 0, 0),
            ix_val(x, y, go, ge, 0, 0),
            iy_val(x, y, go, ge, 0, 0),
        ) + sub_score_spec(x[0], y[0]));
    } else {
        lemma_iy_row0(x, y, go, ge, j - 1);
        assert(m_val(x, y, go, ge, 1, j) >= iy_val(x, y, go, ge, 0, j - 1) + sub_score_spec(
            x[0],
            y[j - 1],
        ));
        assert((j - 2) * ge >= (j - 1) * ge) by (nonlinear_arith)
            requires
                ge <= 0,
        ;
    }
}

/// A lower bound for the last gap column: extend the first-row alignment by
/// deleting the remaining residues of `x`.
proof fn lemma_ix_chain(x: Seq<u8>, y: Seq<u8>, go: int, ge: int, i: int, j: int)
    requires
        -30000 <= go <= 0,
        -30000 <= ge <= 0,
        2 <= i,
        0 <= j,
    ensures
        ix_val(x, y, go, ge, i, j) >= m_val(x, y, go, ge, 1, j) + go + (i - 2) * ge,
    decreases i,
{
    if i == 2 {
        assert(ix_val(x, y, go, ge, 2, j) >= m_val(x, y, go, ge, 1, j) + go);
    } else {
        lemma_ix_chain(x, y, go, ge, i - 1, j);
        assert(ix_val(x, y, go, ge, i, j) >= ix_val(x, y, go, ge, i - 1, j) + ge);
        assert((i - 3) * ge + ge == (i - 2) * ge) by (nonlinear_arith);
    }
}

/// The optimal score is never unreachably low: some global alignment always
/// exists, so the best final state sits above the reachability threshold.
pub proof fn lemma_opt_reachable(x: Seq<u8>, y: Seq<u8>, go: int, ge: int)
    requires
        -30000 <= go <= 0,
        -30000 <= ge <= 0,
        x.len() <= 30000,
        y.len() <= 30000,
    ensures
        opt_score_spec(x, y, go, ge) >= reach_threshold(x.len() as int, y.len() as int),
        layer_val(
            x,
            y,
            go,
            ge,
            x.len() as int,
            y.len() as int,
            final_layer(x, y, go, ge),
        ) == opt_score_spec(x, y, go, ge),
{
    let n = x.len() as int;
    let m = y.len() as int;
    assert((n + m) * step_bound() <= 60000 * 30011) by (nonlinear_arith)
        requires
            0 <= n <= 30000,
            0 <= m <= 30000,
    ;
    if n == 0 && m == 0 {
        assert(opt_score_spec(x, y, go, ge) >= m_val(x, y, go, ge, 0, 0));
    } else if n == 0 {
        lemma_iy_row0(x, y, go, ge, m);
        assert((m - 1) * ge >= 30000 * -30000) by (nonlinear_arith)
            requires
                1 <= m <= 30000,
                -30000 <= ge <= 0,
        ;
        assert(opt_score_spec(x, y, go, ge) >= iy_val(x, y, go, ge, 0, m));
    } else if m == 0 {
        lemma_ix_col0(x, y, go, ge, n);
        assert((n - 1) * ge >= 30000 * -30000) by (nonlinear_arith)
            requires
                1 <= n <= 30000,
                -30000 <= ge <= 0,
        ;
        assert(opt_score_spec(x, y, go, ge) >= ix_val(x, y, go, ge, n, 0));
    } else if n == 1 {
        lemma_m_first_row(x, y, go, ge, m);
        assert((m - 1) * ge >= 30000 * -30000) by (nonlinear_arith)
            requires
                1 <= m <= 30000,
                -30000 <= ge <= 0,
        ;
        assert(opt_score_spec(x, y, go, ge) >= m_val(x, y, go, ge, 1, m));
    } else {
        lemma_m_first_row(x, y, go, ge, m);
        lemma_ix_chain(x, y, go, ge, n, m);
        assert((m - 1) * ge >= 30000 * -30000) by (nonlinear_arith)
            requires
                1 <= m <= 30000,
                -30000 <= ge <= 0,
        ;
        assert((n - 2) * ge >= 30000 * -30000) by (nonlinear_arith)
            requires
                2 <= n <= 30000,
                -30000 <= ge <= 0,
        ;
        assert(opt_score_spec(x, y, go, ge) >= ix_val(x, y, go, ge, n, m));
    }
}

/// Everything the traceback emits from a reachable state is a well-formed
/// alignment of exactly the first `i` residues of `x` and `j` of `y`.
proof fn lemma_trace_shape(x: Seq<u8>, y: Seq<u8>, go: int, ge: int, i: int, j: int, l: Layer)
    requires
        -30000 <= go <= 0,
        -30000 <= ge <= 0,
        x.len() <= 30000,
        y.len() <= 30000,
        0 <= i <= x.len(),
        0 <= j <= y.len(),
        layer_val(x, y, go, ge, i, j, l) >= reach_threshold(i, j),
    ensures
        x_consumed(trace(x, y, go, ge, i, j, l)) == i,
        y_consumed(trace(x, y, go, ge, i, j, l)) == j,
        ops_valid(x, y, trace(x, y, go, ge, i, j, l)),
    decreases i + j,
{
    assert(0 <= (i + j) * step_bound() <= 60000 * 30011) by (nonlinear_arith)
        requires
            0 <= i <= 30000,
            0 <= j <= 30000,
    ;
    assert((i + j - 1) * step_bound() <= (i + j) * step_bound()) by (nonlinear_arith)
        requires
            0 <= i + j,
    ;
    assert((i + j - 2) * step_bound() + 2 * step_bound() == (i + j) * step_bound())
        by (nonlinear_arith);
    match l {
        Layer::Mid => {
            if i == 0 && j == 0 {
                assert(trace(x, y, go, ge, 0, 0, l) =~= Seq::<AlignOp>::empty());
            } else if i == 0 || j == 0 {
                assert(m_val(x, y, go, ge, i, j) == neg_inf());
                assert(false);
            } else {
                let a = m_val(x, y, go, ge, i - 1, j - 1);
                let b = ix_val(x, y, go, ge, i - 1, j - 1);
                let c = iy_val(x, y, go, ge, i - 1, j - 1);
                let s = sub_score_spec(x[i - 1], y[j - 1]);
                lemma_sub_score_bounds(x[i - 1], y[j - 1]);
                let pl = best_layer(a, b, c);
                assert(layer_val(x, y, go, ge, i - 1, j - 1, pl) == max3(a, b, c));
                assert(max3(a, b, c) == m_val(x, y, go, ge, i, j) - s);
                lemma_trace_shape(x, y, go, ge, i - 1, j - 1, pl);
                let front = trace(x, y, go, ge, i - 1, j - 1, pl);
                let op = if x[i - 1] == y[j - 1] {
                    AlignOp::Match
                } else {
                    AlignOp::Subst
                };
                assert(trace(x, y, go, ge, i, j, l) == front.push(op));
                assert(front.push(op).drop_last() =~= front);
            }
        },
        Layer::Gx => {
            if i == 0 {
                assert(ix_val(x, y, go, ge, i, j) == neg_inf());
                assert(false);
            } else {
                let bm = m_val(x, y, go, ge, i - 1, j) + go;
                let bx = ix_val(x, y, go, ge, i - 1, j) + ge;
                let pl = if bm >= bx {
                    Layer::Mid
                } else {
                    Layer::Gx
                };
                assert(ix_val(x, y, go, ge, i, j) == max2(bm, bx));
                lemma_trace_shape(x, y, go, ge, i - 1, j, pl);
                let front = trace(x, y, go, ge, i - 1, j, pl);
                assert(trace(x, y, go, ge, i, j, l) == front.push(AlignOp::Del));
                assert(front.push(AlignOp::Del).drop_last() =~= front);
            }
        },
        Layer::Gy => {
            if j == 0 {
                assert(iy_val(x, y, go, ge, i, j) == neg_inf());
                assert(false);
            } else {
                let bm = m_val(x, y, go, ge, i, j - 1) + go;
                let by = iy_val(x, y, go, ge, i, j - 1) + ge;
                let pl = if bm >= by {
                    Layer::Mid
                } else {
                    Layer::Gy
                };
                assert(iy_val(x, y, go, ge, i, j) == max2(bm, by));
                lemma_trace_shape(x, y, go, ge, i, j - 1, pl);
                let front = trace(x, y, go, ge, i, j - 1, pl);
                assert(trace(x, y, go, ge, i, j, l) == front.push(AlignOp::Ins));
                assert(front.push(AlignOp::Ins).drop_last() =~= front);
            }
        },
    }
}

/// The cost one operation adds at the end of an alignment: substitutions
/// score the aligned residues under the matrix, a gap step costs the open
/// penalty when it starts a run and the extend penalty when it continues
/// one.
pub open spec fn op_cost(x: Seq<u8>, y: Seq<u8>, go: int, ge: int, ops: Seq<AlignOp>) -> int
    recommends
        ops.len() > 0,
{
    let front = ops.drop_last();
    match ops.last() {
        AlignOp::Match => sub_score_spec(x[x_consumed(front)], y[y_consumed(front)]),
        AlignOp::Subst => sub_score_spec(x[x_consumed(front)], y[y_consumed(front)]),
        AlignOp::Del => if front.len() > 0 && front.last() == AlignOp::Del {
            ge
        } else {
            go
        },
        AlignOp::Ins => if front.len() > 0 && front.last() == AlignOp::Ins {
            ge
        } else {
            go
        },
        AlignOp::Xclip(s) => 0,
        AlignOp::Yclip(s) => 0,
    }
}

/// The affine-gap score of an operation sequence: matrix scores for aligned
/// residues, and `go + (k - 1) * ge` for every gap run of `k` residues.
pub open spec fn ops_score(x: Seq<u8>, y: Seq<u8>, go: int, ge: int, ops: Seq<AlignOp>) -> int
    decreases ops.len(),
{
    if ops.len() == 0 {
        0
    } else {
        ops_score(x, y, go, ge, ops.drop_last()) + op_cost(x, y, go, ge, ops)
    }
}

/// The traceback's operation sequence scores exactly the value of the state
/// it starts from, and ends with the operation the state's layer dictates.
proof fn lemma_trace_score(x: Seq<u8>, y: Seq<u8>, go: int, ge: int, i: int, j: int, l: Layer)
    requires
        -30000 <= go <= 0,
        -30000 <= ge <= 0,
        x.len() <= 30000,
        y.len() <= 30000,
        0 <= i <= x.len(),
        0 <= j <= y.len(),
        layer_val(x, y, go, ge, i, j, l) >= reach_threshold(i, j),
    ensures
        ops_score(x, y, go, ge, trace(x, y, go, ge, i, j, l)) == layer_val(x, y, go, ge, i, j, l),
        l == Layer::Mid && trace(x, y, go, ge, i, j, l).len() == 0 ==> i == 0 && j == 0,
        l == Layer::Mid && trace(x, y, go, ge, i, j, l).len() > 0 ==> (trace(
            x,
            y,
            go,
            ge,
            i,
            j,
            l,
        ).last() == AlignOp::Match || trace(x, y, go, ge, i, j, l).last() == AlignOp::Subst),
        l == Layer::Gx ==> trace(x, y, go, ge, i, j, l).len() > 0 && trace(
            x,
            y,
            go,
            ge,
            i,
            j,
            l,
        ).last() == AlignOp::Del,
        l == Layer::Gy ==> trace(x, y, go, ge, i, j, l).len() > 0 && trace(
            x,
            y,
            go,
            ge,
            i,
            j,
            l,
        ).last() == AlignOp::Ins,
    decreases i + j,
{
    assert(0 <= (i + j) * step_bound() <= 60000 * 30011) by (nonlinear_arith)
        requires
            0 <= i <= 30000,
            0 <= j <= 30000,
    ;
    assert((i + j - 1) * step_bound() <= (i + j) * step_bound()) by (nonlinear_arith)
        requires
            0 <= i + j,
    ;
    assert((i + j - 2) * step_bound() + 2 * step_bound() == (i + j) * step_bound())
        by (nonlinear_arith);
    match l {
        Layer::Mid => {
            if i == 0 && j == 0 {
                assert(trace(x, y, go, ge, 0, 0, l) =~= Seq::<AlignOp>::empty());
            } else if i == 0 || j == 0 {
                assert(m_val(x, y, go, ge, i, j) == neg_inf());
                assert(false);
            } else {
                let a = m_val(x, y, go, ge, i - 1, j - 1);
                let b = ix_val(x, y, go, ge, i - 1, j - 1);
                let c = iy_val(x, y, go, ge, i - 1, j - 1);
                let s = sub_score_spec(x[i - 1], y[j - 1]);
                lemma_sub_score_bounds(x[i - 1], y[j - 1]);
                let pl = best_layer(a, b, c);
                assert(layer_val(x, y, go, ge, i - 1, j - 1, pl) == max3(a, b, c));
                assert(max3(a, b, c) == m_val(x, y, go, ge, i, j) - s);
                lemma_trace_score(x, y, go, ge, i - 1, j - 1, pl);
                lemma_trace_shape(x, y, go, ge, i - 1, j - 1, pl);
                let front = trace(x, y, go, ge, i - 1, j - 1, pl);
                let op = if x[i - 1] == y[j - 1] {
                    AlignOp::Match
                } else {
                    AlignOp::Subst
                };
                let whole = trace(x, y, go, ge, i, j, l);
                assert(whole == front.push(op));
                assert(whole.drop_last() =~= front);
                assert(whole.last() == op);
                assert(op_cost(x, y, go, ge, whole) == s);
            }
        },
        Layer::Gx => {
            if i == 0 {
                assert(ix_val(x, y, go, ge, i, j) == neg_inf());
                assert(false);
            } else {
                let bm = m_val(x, y, go, ge, i - 1, j) + go;
                let bx = ix_val(x, y, go, ge, i - 1, j) + ge;
                let pl = if bm >= bx {
                    Layer::Mid
                } else {
                    Layer::Gx
                };
                assert(ix_val(x, y, go, ge, i, j) == max2(bm, bx));
                lemma_trace_score(x, y, go, ge, i - 1, j, pl);
                let front = trace(x, y, go, ge, i - 1, j, pl);
                let whole = trace(x, y, go, ge, i, j, l);
                assert(whole == front.push(AlignOp::Del));
                assert(whole.drop_last() =~= front);
                assert(whole.last() == AlignOp::Del);
                if pl == Layer::Gx {
                    assert(front.last() == AlignOp::Del);
                    assert(op_cost(x, y, go, ge, whole) == ge);
                } else {
                    assert(front.len() == 0 || front.last() == AlignOp::Match || front.last()
                        == AlignOp::Subst);
                    assert(op_cost(x, y, go, ge, whole) == go);
                }
            }
        },
        Layer::Gy => {
            if j == 0 {
                assert(iy_val(x, y, go, ge, i, j) == neg_inf());
                assert(false);
            } else {
                let bm = m_val(x, y, go, ge, i, j - 1) + go;
                let by = iy_val(x, y, go, ge, i, j - 1) + ge;
                let pl = if bm >= by {
                    Layer::Mid
                } else {
                    Layer::Gy
                };
                assert(iy_val(x, y, go, ge, i, j) == max2(bm, by));
                lemma_trace_score(x, y, go, ge, i, j - 1, pl);
                let front = trace(x, y, go, ge, i, j - 1, pl);
                let whole = trace(x, y, go, ge, i, j, l);
                assert(whole == front.push(AlignOp::Ins));
                assert(whole.drop_last() =~= front);
                assert(whole.last() == AlignOp::Ins);
                if pl == Layer::Gy {
                    assert(front.last() == AlignOp::Ins);
                    assert(op_cost(x, y, go, ge, whole) == ge);
                } else {
                    assert(front.len() == 0 || front.last() == AlignOp::Match || front.last()
                        == AlignOp::Subst);
                    assert(op_cost(x, y, go, ge, whole) == go);
                }
            }
        },
    }
}

/// The reported score is exactly the affine-gap score of the reported
/// operation sequence.
pub proof fn lemma_align_score_of_ops(x: Seq<u8>, y: Seq<u8>, go: int, ge: int)
    requires
        -30000 <= go <= 0,
        -30000 <= ge <= 0,
        x.len() <= 30000,
        y.len() <= 30000,
    ensures
        ops_score(x, y, go, ge, align_ops_spec(x, y, go, ge)) == opt_score_spec(x, y, go, ge),
{
    lemma_opt_reachable(x, y, go, ge);
    lemma_trace_score(
        x,
        y,
        go,
        ge,
        x.len() as int,
        y.len() as int,
        final_layer(x, y, go, ge),
    );
}

/// One operation with the roles of the two sequences swapped.
pub open spec fn mirror_op(op: AlignOp) -> AlignOp {
    match op {
        AlignOp::Match => AlignOp::Match,
        AlignOp::Subst => AlignOp::Subst,
        AlignOp::Del => AlignOp::Ins,
        AlignOp::Ins => AlignOp::Del,
        AlignOp::Xclip(s) => AlignOp::Yclip(s),
        AlignOp::Yclip(s) => AlignOp::Xclip(s),
    }
}

/// An operation sequence with the roles of the two sequences swapped:
/// every deletion becomes an insertion and the other way round.
pub open spec fn mirror_ops(ops: Seq<AlignOp>) -> Seq<AlignOp> {
    Seq::new(ops.len(), |k: int| mirror_op(ops[k]))
}

/// Swapping the sequences turns an alignment into its mirror: consumption,
/// validity and the affine-gap score all carry over with the roles of the
/// two sequences exchanged.
pub proof fn lemma_mirror_swaps_roles(x: Seq<u8>, y: Seq<u8>, go: int, ge: int, ops: Seq<AlignOp>)
    ensures
        x_consumed(mirror_ops(ops)) == y_consumed(ops),
        y_consumed(mirror_ops(ops)) == x_consumed(ops),
        ops_valid(x, y, ops) ==> ops_valid(y, x, mirror_ops(ops)),
        ops_score(y, x, go, ge, mirror_ops(ops)) == ops_score(x, y, go, ge, ops),
    decreases ops.len(),
{
    if ops.len() == 0 {
        assert(mirror_ops(ops) =~= Seq::<AlignOp>::empty());
    } else {
        let front = ops.drop_last();
        lemma_mirror_swaps_roles(x, y, go, ge, front);
        let whole_m = mirror_ops(ops);
        assert(whole_m.drop_last() =~= mirror_ops(front));
        assert(whole_m.last() == mirror_op(ops.last()));
        match ops.last() {
            AlignOp::Match => {
                lemma_sub_score_sym(x[x_consumed(front)], y[y_consumed(front)]);
            },
            AlignOp::Subst => {
                lemma_sub_score_sym(x[x_consumed(front)], y[y_consumed(front)]);
            },
            _ => {},
        }
        if front.len() > 0 {
            assert(mirror_ops(front).last() == mirror_op(front.last()));
            assert(mirror_ops(front).len() == front.len());
        }
    }
}

/// The mirrored half of operation symmetry: the Insert/Delete-swapped
/// mirror of the emitted operations for `(x, y)` is a well-formed global
/// alignment of `(y, x)` that achieves the optimal `(y, x)` score.  The
/// traceback for `(y, x)` may still emit a different sequence of the same
/// score when the two gap layers tie, so equality of the two operation
/// sequences themselves does not hold in general.
pub proof fn lemma_mirror_alignment(x: Seq<u8>, y: Seq<u8>, go: int, ge: int)
    requires
        -30000 <= go <= 0,
        -30000 <= ge <= 0,
        x.len() <= 30000,
        y.len() <= 30000,
    ensures
        ops_valid(y, x, mirror_ops(align_ops_spec(x, y, go, ge))),
        x_consumed(mirror_ops(align_ops_spec(x, y, go, ge))) == y.len(),
        y_consumed(mirror_ops(align_ops_spec(x, y, go, ge))) == x.len(),
        ops_score(y, x, go, ge, mirror_ops(align_ops_spec(x, y, go, ge))) == opt_score_spec(
            y,
            x,
            go,
            ge,
        ),
{
    lemma_align_ops_global(x, y, go, ge);
    lemma_align_score_of_ops(x, y, go, ge);
    lemma_mirror_swaps_roles(x, y, go, ge, align_ops_spec(x, y, go, ge));
    lemma_score_symmetry(x, y, go, ge);
}

/// The emitted operation sequence is a genuine global alignment: it
/// consumes all of `x` and all of `y`, aligns equal residues as `Match` and
/// unequal ones as `Subst`, and contains no clip.
pub proof fn lemma_align_ops_global(x: Seq<u8>, y: Seq<u8>, go: int, ge: int)
    requires
        -30000 <= go <= 0,
        -30000 <= ge <= 0,
        x.len() <= 30000,
        y.len() <= 30000,
    ensures
        x_consumed(align_ops_spec(x, y, go, ge)) == x.len(),
        y_consumed(align_ops_spec(x, y, go, ge)) == y.len(),
        ops_valid(x, y, align_ops_spec(x, y, go, ge)),
{
    lemma_opt_reachable(x, y, go, ge);
    lemma_trace_shape(
        x,
        y,
        go,
        ge,
        x.len() as int,
        y.len() as int,
        final_layer(x, y, go, ge),
    );
}


/// Whether every residue of the sequence scores non-negatively against
/// itself under the matrix.  All standard residue symbols do; only the
/// unknown-residue placeholders score negatively.
pub open spec fn self_scores_nonneg(x: Seq<u8>) -> bool {
    forall|k: int| 0 <= k < x.len() ==> sub_score_spec(#[trigger] x[k], x[k]) >= 0
}

/// Total self-score of the first `i` residues of `x`.
pub open spec fn self_score_sum(x: Seq<u8>, i: int) -> int
    decreases i,
{
    if i <= 0 {
        0
    } else {
        self_score_sum(x, i - 1) + sub_score_spec(x[i - 1], x[i - 1])
    }
}

proof fn lemma_self_score_sum_nonneg(x: Seq<u8>, i: int)
    requires
        self_scores_nonneg(x),
        0 <= i <= x.len(),
    ensures
        self_score_sum(x, i) >= 0,
    decreases i,
{
    if i > 0 {
        lemma_self_score_sum_nonneg(x, i - 1);
    }
}

proof fn lemma_self_score_sum_mono(x: Seq<u8>, i: int, j: int)
    requires
        self_scores_nonneg(x),
        0 <= i <= j <= x.len(),
    ensures
        self_score_sum(x, i) <= self_score_sum(x, j),
    decreases j,
{
    if j > i {
        lemma_self_score_sum_mono(x, i, j - 1);
    }
}

/// Upper bound for aligning a sequence against itself: twice any layer
/// value at `(i, j)` is at most the self-scores of both prefixes combined,
/// because no pairing beats self-pairing on average and gaps only cost.
proof fn lemma_self_upper(x: Seq<u8>, go: int, ge: int, i: int, j: int)
    requires
        self_scores_nonneg(x),
        go <= 0,
        ge <= 0,
        0 <= i <= x.len(),
        0 <= j <= x.len(),
    ensures
        2 * m_val(x, x, go, ge, i, j) <= self_score_sum(x, i) + self_score_sum(x, j),
        2 * ix_val(x, x, go, ge, i, j) <= self_score_sum(x, i) + self_score_sum(x, j),
        2 * iy_val(x, x, go, ge, i, j) <= self_score_sum(x, i) + self_score_sum(x, j),
    decreases i + j,
{
    lemma_self_score_sum_nonneg(x, i);
    lemma_self_score_sum_nonneg(x, j);
    if i >= 1 && j >= 1 {
        lemma_self_upper(x, go, ge, i - 1, j - 1);
        lemma_self_upper(x, go, ge, i - 1, j);
        lemma_self_upper(x, go, ge, i, j - 1);
        lemma_sub_score_avg(x[i - 1], x[j - 1]);
        lemma_self_score_sum_mono(x, i - 1, i);
        lemma_self_score_sum_mono(x, j - 1, j);
    } else if i >= 1 {
        lemma_self_upper(x, go, ge, i - 1, j);
        lemma_self_score_sum_mono(x, i - 1, i);
    } else if j >= 1 {
        lemma_self_upper(x, go, ge, i, j - 1);
        lemma_self_score_sum_mono(x, j - 1, j);
    }
}

/// Lower bound for aligning a sequence against itself: the all-match
/// diagonal path is always available.
proof fn lemma_self_lower(x: Seq<u8>, go: int, ge: int, i: int)
    requires
        0 <= i <= x.len(),
    ensures
        m_val(x, x, go, ge, i, i) >= self_score_sum(x, i),
    decreases i,
{
    if i >= 1 {
        lemma_self_lower(x, go, ge, i - 1);
        assert(m_val(x, x, go, ge, i, i) >= m_val(x, x, go, ge, i - 1, i - 1) + sub_score_spec(
            x[i - 1],
            x[i - 1],
        ));
    }
}

/// The traceback of a self-alignment never leaves the diagonal: it emits
/// one `Match` per residue.
proof fn lemma_self_trace(x: Seq<u8>, go: int, ge: int, i: int)
    requires
        self_scores_nonneg(x),
        go <= 0,
        ge <= 0,
        0 <= i <= x.len(),
    ensures
        trace(x, x, go, ge, i, i, Layer::Mid) =~= Seq::new(i as nat, |k: int| AlignOp::Match),
    decreases i,
{
    if i == 0 {
        assert(trace(x, x, go, ge, 0, 0, Layer::Mid) =~= Seq::<AlignOp>::empty());
    } else {
        lemma_self_lower(x, go, ge, i - 1);
        lemma_self_upper(x, go, ge, i - 1, i - 1);
        let a = m_val(x, x, go, ge, i - 1, i - 1);
        let b = ix_val(x, x, go, ge, i - 1, i - 1);
        let c = iy_val(x, x, go, ge, i - 1, i - 1);
        assert(a >= b && a >= c);
        assert(best_layer(a, b, c) == Layer::Mid);
        lemma_self_trace(x, go, ge, i - 1);
        assert(trace(x, x, go, ge, i, i, Layer::Mid) == trace(
            x,
            x,
            go,
            ge,
            i - 1,
            i - 1,
            Layer::Mid,
        ).push(AlignOp::Match));
        assert(Seq::new(i as nat, |k: int| AlignOp::Match) =~= Seq::new(
            (i - 1) as nat,
            |k: int| AlignOp::Match,
        ).push(AlignOp::Match));
    }
}

proof fn lemma_match_count_all_match(n: int)
    requires
        n >= 0,
    ensures
        match_count_spec(Seq::new(n as nat, |k: int| AlignOp::Match)) == n,
    decreases n,
{
    if n > 0 {
        lemma_match_count_all_match(n - 1);
        assert(Seq::new(n as nat, |k: int| AlignOp::Match).drop_last() =~= Seq::new(
            (n - 1) as nat,
            |k: int| AlignOp::Match,
        ));
    }
}

/// Self-alignment: aligning a sequence of ordinary residues against itself
/// emits exactly one `Match` per residue, so the alignment length and the
/// identity count both equal the sequence length and the score is the sum
/// of the self-scores.  The full engine therefore agrees with the self-hit
/// shortcut.  Sequences holding a placeholder residue with a negative
/// self-score are left out: for those a gap-rich alignment can outscore the
/// diagonal.
pub proof fn lemma_self_alignment(x: Seq<u8>, go: int, ge: int)
    requires
        self_scores_nonneg(x),
        go <= 0,
        ge <= 0,
    ensures
        align_ops_spec(x, x, go, ge) == Seq::new(x.len(), |k: int| AlignOp::Match),
        align_ops_spec(x, x, go, ge).len() == x.len(),
        match_count_spec(align_ops_spec(x, x, go, ge)) == x.len(),
        opt_score_spec(x, x, go, ge) == self_score_sum(x, x.len() as int),
{
    let n = x.len() as int;
    lemma_self_lower(x, go, ge, n);
    lemma_self_upper(x, go, ge, n, n);
    let a = m_val(x, x, go, ge, n, n);
    let b = ix_val(x, x, go, ge, n, n);
    let c = iy_val(x, x, go, ge, n, n);
    assert(a >= b && a >= c);
    assert(final_layer(x, x, go, ge) == Layer::Mid);
    assert(opt_score_spec(x, x, go, ge) == a);
    lemma_self_trace(x, go, ge, n);
    lemma_match_count_all_match(n);
}


/// Idempotence: any two alignment results whose score and operations meet
/// the engine's contract for the same inputs and parameters are identical,
/// because the contract pins both down to pure functions of the inputs.
pub proof fn lemma_engine_deterministic(
    x: Seq<u8>,
    y: Seq<u8>,
    go: int,
    ge: int,
    r1: AlignmentResult,
    r2: AlignmentResult,
)
    requires
        r1.score as int == opt_score_spec(x, y, go, ge),
        r1.operations@ == align_ops_spec(x, y, go, ge),
        is_global_spec(r1, x.len() as int, y.len() as int),
        r2.score as int == opt_score_spec(x, y, go, ge),
        r2.operations@ == align_ops_spec(x, y, go, ge),
        is_global_spec(r2, x.len() as int, y.len() as int),
    ensures
        r1.score == r2.score,
        r1.operations@ == r2.operations@,
        r1.xstart == r2.xstart && r1.xend == r2.xend,
        r1.ystart == r2.ystart && r1.yend == r2.yend,
{
}

} // verus!
