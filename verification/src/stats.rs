//! Per-alignment statistics and operation strings.
//!
//! The alignment length is the number of emitted operations; the identity
//! count is the number of `Match` operations.  Percent identity is the ratio
//! of the two, computed downstream by the runner with floating-point
//! division, so it does not appear here.

use vstd::prelude::*;
use vstd::string::StringExecFns;

use crate::engine::AlignOp;
use crate::engine::AlignmentResult;

verus! {

/// Number of `Match` operations in an operation sequence.
pub open spec fn match_count_spec(ops: Seq<AlignOp>) -> int
    decreases ops.len(),
{
    if ops.len() == 0 {
        0
    } else {
        match_count_spec(ops.drop_last()) + if ops.last() == AlignOp::Match {
            1int
        } else {
            0int
        }
    }
}

/// The characters that one operation contributes to the operation string.
pub open spec fn op_chars(op: AlignOp) -> Seq<char> {
    match op {
        AlignOp::Match => seq!['M'],
        AlignOp::Subst => seq!['S'],
        AlignOp::Del => seq!['D'],
        AlignOp::Ins => seq!['I'],
        AlignOp::Xclip(s) => Seq::new(s as nat, |q: int| 'X'),
        AlignOp::Yclip(s) => Seq::new(s as nat, |q: int| 'Y'),
    }
}

/// The operation string of an alignment: one character per operation, with
/// clips repeated once per clipped residue.
pub open spec fn ops_string_spec(ops: Seq<AlignOp>) -> Seq<char>
    decreases ops.len(),
{
    if ops.len() == 0 {
        Seq::empty()
    } else {
        ops_string_spec(ops.drop_last()) + op_chars(ops.last())
    }
}

/// The length of the alignment: the number of alignment operations.
pub fn alignment_length(alignment: &AlignmentResult) -> (len: i32)
    requires
        alignment.operations@.len() <= 0x7fff_ffff,
    ensures
        len as int == alignment.operations@.len(),
{
    alignment.operations.len() as i32
}

/// Count identities (matches) in the alignment.
pub fn count_identities(alignment: &AlignmentResult) -> (c: i32)
    requires
        alignment.operations@.len() <= 0x7fff_ffff,
    ensures
        c as int == match_count_spec(alignment.operations@),
        0 <= c as int <= alignment.operations@.len(),
{
    let ops = &alignment.operations;
    let mut c: i32 = 0;
    let mut k: usize = 0;
    while k < ops.len()
        invariant
            ops@ == alignment.operations@,
            ops@.len() <= 0x7fff_ffff,
            k <= ops@.len(),
            c as int == match_count_spec(ops@.take(k as int)),
            0 <= c as int <= k,
        decreases ops@.len() - k,
    {
        proof {
            assert(ops@.take(k as int + 1).drop_last() =~= ops@.take(k as int));
            assert(ops@.take(k as int + 1).last() == ops@[k as int]);
        }
        let is_match = match ops[k] {
            AlignOp::Match => true,
            _ => false,
        };
        if is_match {
            c += 1;
        }
        k += 1;
    }
    proof {
        assert(ops@.take(ops@.len() as int) =~= ops@);
    }
    c
}

/// Render one operation as its character codes, appended to `s`.
fn push_op_chars(s: &mut String, op: AlignOp)
    ensures
        final(s)@ == old(s)@ + op_chars(op),
{
    proof {
        reveal_strlit("M");
        reveal_strlit("S");
        reveal_strlit("D");
        reveal_strlit("I");
        reveal_strlit("X");
        reveal_strlit("Y");
    }
    match op {
        AlignOp::Match => {
            s.append("M");
            assert(s@ =~= old(s)@ + op_chars(op));
        },
        AlignOp::Subst => {
            s.append("S");
            assert(s@ =~= old(s)@ + op_chars(op));
        },
        AlignOp::Del => {
            s.append("D");
            assert(s@ =~= old(s)@ + op_chars(op));
        },
        AlignOp::Ins => {
            s.append("I");
            assert(s@ =~= old(s)@ + op_chars(op));
        },
        AlignOp::Xclip(size) => {
            let mut q: usize = 0;
            while q < size
                invariant
                    q <= size,
                    s@ == old(s)@ + Seq::new(q as nat, |t: int| 'X'),
                    "X"@ == seq!['X'],
                decreases size - q,
            {
                s.append("X");
                proof {
                    assert(old(s)@ + Seq::new(q as nat + 1, |t: int| 'X') =~= (old(s)@ + Seq::new(
                        q as nat,
                        |t: int| 'X',
                    )) + seq!['X']);
                }
                q += 1;
            }
            assert(s@ =~= old(s)@ + op_chars(op));
        },
        AlignOp::Yclip(size) => {
            let mut q: usize = 0;
            while q < size
                invariant
                    q <= size,
                    s@ == old(s)@ + Seq::new(q as nat, |t: int| 'Y'),
                    "Y"@ == seq!['Y'],
                decreases size - q,
            {
                s.append("Y");
                proof {
                    assert(old(s)@ + Seq::new(q as nat + 1, |t: int| 'Y') =~= (old(s)@ + Seq::new(
                        q as nat,
                        |t: int| 'Y',
                    )) + seq!['Y']);
                }
                q += 1;
            }
            assert(s@ =~= old(s)@ + op_chars(op));
        },
    }
}

/// The operation string of an alignment.
pub fn show_alignment_ops(alignment: &AlignmentResult) -> (s: String)
    ensures
        s@ == ops_string_spec(alignment.operations@),
{
    let ops = &alignment.operations;
    let mut s = String::new();
    let mut k: usize = 0;
    while k < ops.len()
        invariant
            ops@ == alignment.operations@,
            k <= ops@.len(),
            s@ == ops_string_spec(ops@.take(k as int)),
        decreases ops@.len() - k,
    {
        proof {
            assert(ops@.take(k as int + 1).drop_last() =~= ops@.take(k as int));
            assert(ops@.take(k as int + 1).last() == ops@[k as int]);
        }
        let op = ops[k];
        push_op_chars(&mut s, op);
        k += 1;
    }
    proof {
        assert(ops@.take(ops@.len() as int) =~= ops@);
    }
    s
}

/// The operation string of a trivial self-alignment: one `M` per residue.
pub fn show_self_alignment_ops(len: usize) -> (s: String)
    ensures
        s@ == Seq::new(len as nat, |t: int| 'M'),
{
    proof {
        reveal_strlit("M");
    }
    let mut s = String::new();
    let mut q: usize = 0;
    while q < len
        invariant
            q <= len,
            s@ == Seq::new(q as nat, |t: int| 'M'),
            "M"@ == seq!['M'],
        decreases len - q,
    {
        s.append("M");
        proof {
            assert(Seq::new(q as nat + 1, |t: int| 'M') =~= Seq::new(q as nat, |t: int| 'M')
                + seq!['M']);
        }
        q += 1;
    }
    s
}

} // verus!
