use allvall::cli::Cli;
use allvall::engine::AlignOp;
use allvall::engine::Aligner;
use allvall::engine::AlignmentResult;
use allvall::matrix::sub_score;
use allvall::output::check_global;
use allvall::output::pair_lines;
use allvall::output::self_hit_lines;
use allvall::record::SeqRecord;
use allvall::stats::alignment_length;
use allvall::stats::count_identities;
use allvall::stats::show_alignment_ops;
use allvall::stats::show_self_alignment_ops;

fn rec(id: &str, seq: &str) -> SeqRecord {
    SeqRecord::with_attrs(id.to_string(), None, seq.as_bytes().to_vec())
}

fn mirror_ops(ops: &[AlignOp]) -> Vec<AlignOp> {
    ops.iter()
        .map(|op| match op {
            AlignOp::Del => AlignOp::Ins,
            AlignOp::Ins => AlignOp::Del,
            other => *other,
        })
        .collect()
}

#[test]
fn matrix_spot_values() {
    assert_eq!(sub_score(b'H', b'A'), -2);
    assert_eq!(sub_score(b'H', b'H'), 8);
    assert_eq!(sub_score(b'*', b'*'), 1);
    assert_eq!(sub_score(b'X', b'Z'), -1);
    assert_eq!(sub_score(b'M', b'M'), 5);
    assert_eq!(sub_score(b'K', b'K'), 5);
    assert_eq!(sub_score(b'S', b'A'), 1);
}

#[test]
fn matrix_symmetry_spot_checks() {
    for &a in b"ARNDCQEGHILKMFPSTWYVBZX*" {
        for &b in b"ARNDCQEGHILKMFPSTWYVBZX*" {
            assert_eq!(sub_score(a, b), sub_score(b, a));
        }
    }
}

#[test]
fn global_spans_cover_both_sequences() {
    let engine = Aligner::new(-10, -1);
    let x = b"MSKAE".to_vec();
    let y = b"MAE".to_vec();
    let r = engine.global(&x, &y);
    assert_eq!(r.xstart, 0);
    assert_eq!(r.xend, x.len());
    assert_eq!(r.ystart, 0);
    assert_eq!(r.yend, y.len());
    assert!(check_global(&r, x.len(), y.len()));
}

#[test]
fn score_symmetry_and_mirrored_operations() {
    let engine = Aligner::new(-10, -1);
    let cases: [(&[u8], &[u8]); 4] = [
        (b"MSK", b"MAK"),
        (b"MKVL", b"ML"),
        (b"MSKAE", b"MAE"),
        (b"A", b"WWWW"),
    ];
    for (xs, ys) in cases {
        let x = xs.to_vec();
        let y = ys.to_vec();
        let fwd = engine.global(&x, &y);
        let bwd = engine.global(&y, &x);
        assert_eq!(fwd.score, bwd.score);
        assert_eq!(mirror_ops(&fwd.operations), bwd.operations);
    }
}

#[test]
fn gap_layer_ties_break_toward_deletion_in_both_directions() {
    // With free gaps, deleting A, matching B, inserting A scores the same as
    // inserting B, matching A, deleting B; the fixed preference picks the
    // deletion-ending path for both orders, so the two operation sequences
    // are equal rather than mirrored, while the scores still agree.
    let engine = Aligner::new(0, 0);
    let x = b"AB".to_vec();
    let y = b"BA".to_vec();
    let fwd = engine.global(&x, &y);
    let bwd = engine.global(&y, &x);
    assert_eq!(fwd.score, 4);
    assert_eq!(fwd.score, bwd.score);
    assert_eq!(show_alignment_ops(&fwd), "IMD");
    assert_eq!(show_alignment_ops(&bwd), "IMD");
    assert_ne!(mirror_ops(&fwd.operations), bwd.operations);
}

#[test]
fn self_alignment_is_all_matches() {
    let engine = Aligner::new(-10, -1);
    let x = b"MSKAE".to_vec();
    let r = engine.global(&x, &x);
    assert_eq!(alignment_length(&r), 5);
    assert_eq!(count_identities(&r), 5);
    let pid = f64::from(count_identities(&r)) / f64::from(alignment_length(&r));
    assert_eq!(pid, 1.0);
    assert_eq!(show_alignment_ops(&r), "MMMMM");
}

#[test]
fn shortcut_and_engine_agree_on_self_hit() {
    let engine = Aligner::new(-10, -1);
    let record = rec("A", "MSKAE");
    let r = engine.global(&record.seq, &record.seq);
    let lines = self_hit_lines(&record, true);
    assert_eq!(lines.len(), 2);
    for line in &lines {
        assert_eq!(line.aln_len, alignment_length(&r));
        assert_eq!(line.num_matches, count_identities(&r));
        assert_eq!(line.aln_ops.as_deref(), Some("MMMMM"));
        let pid = f64::from(line.num_matches) / f64::from(line.aln_len);
        assert_eq!(pid, 1.0);
    }
    assert_eq!(show_self_alignment_ops(5), show_alignment_ops(&r));
}

#[test]
fn unknown_residues_with_free_gaps_can_beat_the_diagonal() {
    // X scores -1 against itself, so with free gaps the engine prefers a
    // gap-rich self-alignment with a single match over two weak matches.
    // This is why the all-match self-alignment law asks for residues with
    // non-negative self-scores.
    let engine = Aligner::new(0, 0);
    let x = b"XX".to_vec();
    let r = engine.global(&x, &x);
    assert_eq!(r.score, -1);
    assert_eq!(show_alignment_ops(&r), "IMD");
    assert_eq!(count_identities(&r), 1);
}

#[test]
fn engine_is_deterministic() {
    let engine = Aligner::new(-10, -1);
    let x = b"MSKAE".to_vec();
    let y = b"MKVL".to_vec();
    let r1 = engine.global(&x, &y);
    let r2 = engine.global(&x, &y);
    assert_eq!(r1.score, r2.score);
    assert_eq!(r1.operations, r2.operations);
    assert_eq!(
        (r1.xstart, r1.xend, r1.ystart, r1.yend),
        (r2.xstart, r2.xend, r2.ystart, r2.yend)
    );
}

#[test]
fn example_pair_statistics() {
    let a = rec("A", "MSK");
    let b = rec("B", "MAK");
    let engine = Aligner::new(-10, -1);
    let r = engine.global(&a.seq, &b.seq);
    assert_eq!(r.score, 11);
    assert_eq!(alignment_length(&r), 3);
    assert_eq!(count_identities(&r), 2);
    assert_eq!(show_alignment_ops(&r), "MSM");
    let pid = f64::from(count_identities(&r)) / f64::from(alignment_length(&r));
    assert!((pid - 0.667).abs() < 1e-3);

    let lines = pair_lines(&a, &b, &r, false);
    assert_eq!(lines.len(), 2);
    assert_eq!(lines[0].x_id, "A");
    assert_eq!(lines[0].y_id, "B");
    assert_eq!(lines[1].x_id, "B");
    assert_eq!(lines[1].y_id, "A");
    assert_eq!((lines[0].x_len, lines[0].y_len), (3, 3));
    assert_eq!((lines[1].x_len, lines[1].y_len), (3, 3));
    for line in &lines {
        assert_eq!(line.aln_len, 3);
        assert_eq!(line.num_matches, 2);
        assert!(line.aln_ops.is_none());
    }
}

#[test]
fn empty_and_one_sided_alignments() {
    let engine = Aligner::new(-10, -1);
    let empty: Vec<u8> = Vec::new();
    let r = engine.global(&empty, &empty);
    assert_eq!(r.score, 0);
    assert!(r.operations.is_empty());

    let y = b"MK".to_vec();
    let r = engine.global(&empty, &y);
    assert_eq!(r.score, -11);
    assert_eq!(show_alignment_ops(&r), "II");

    let r = engine.global(&y, &empty);
    assert_eq!(r.score, -11);
    assert_eq!(show_alignment_ops(&r), "DD");
}

#[test]
fn gap_run_costs_open_plus_extensions() {
    let engine = Aligner::new(-10, -1);
    let x = b"MKVL".to_vec();
    let y = b"ML".to_vec();
    let r = engine.global(&x, &y);
    assert_eq!(show_alignment_ops(&r), "MDDM");
    // M-M and L-L score 5 + 4; the two-residue gap costs 10 + 1.
    assert_eq!(r.score, 5 + 4 - 11);
}

#[test]
fn stats_handle_clip_operations() {
    let r = AlignmentResult {
        score: 0,
        xstart: 0,
        xend: 0,
        ystart: 0,
        yend: 0,
        operations: vec![
            AlignOp::Xclip(3),
            AlignOp::Match,
            AlignOp::Subst,
            AlignOp::Ins,
            AlignOp::Yclip(2),
        ],
    };
    assert_eq!(alignment_length(&r), 5);
    assert_eq!(count_identities(&r), 1);
    assert_eq!(show_alignment_ops(&r), "XXXMSIYY");
}

#[test]
fn self_alignment_ops_string() {
    assert_eq!(show_self_alignment_ops(0), "");
    assert_eq!(show_self_alignment_ops(4), "MMMM");
}

#[test]
fn cli_parameter_conversions() {
    let cli = Cli {
        in_file: "in.fa".to_string(),
        out_file: "out.tsv".to_string(),
        threads: 4,
        gap_open: 10,
        gap_extend: 1,
        show_aln_ops: false,
    };
    assert_eq!(cli.threads(), 4);
    assert_eq!(cli.gap_open(), -10);
    assert_eq!(cli.gap_extend(), -1);
}

#[test]
fn record_attributes() {
    let r = SeqRecord::with_attrs(
        "id1".to_string(),
        Some("a description".to_string()),
        b"MSK".to_vec(),
    );
    assert_eq!(r.id(), "id1");
    assert_eq!(r.seq(), &b"MSK".to_vec());
    assert_eq!(r.len(), 3);
    assert_eq!(r.desc.as_deref(), Some("a description"));
}
