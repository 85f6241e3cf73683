use allvall::output::pair_lines;
use allvall::output::self_hit_lines;
use allvall::pairs::all_pairs;
use allvall::pairs::split_round_robin;
use allvall::pairs::worker_of;
use allvall::engine::Aligner;
use allvall::record::SeqRecord;

fn rec(id: &str, seq: &str) -> SeqRecord {
    SeqRecord::with_attrs(id.to_string(), None, seq.as_bytes().to_vec())
}

#[test]
fn pair_generator_counts_and_order() {
    assert_eq!(all_pairs(0), Vec::<(usize, usize)>::new());
    assert_eq!(all_pairs(1), Vec::<(usize, usize)>::new());
    assert_eq!(all_pairs(2), vec![(0, 1)]);
    assert_eq!(all_pairs(3), vec![(0, 1), (0, 2), (1, 2)]);
    assert_eq!(
        all_pairs(4),
        vec![(0, 1), (0, 2), (0, 3), (1, 2), (1, 3), (2, 3)]
    );
    for n in 0..20usize {
        let pairs = all_pairs(n);
        assert_eq!(pairs.len(), n * n.saturating_sub(1) / 2);
        for (i, j) in &pairs {
            assert!(i < j && *j < n);
        }
    }
}

#[test]
fn round_robin_assignment() {
    assert_eq!(worker_of(0, 3), 0);
    assert_eq!(worker_of(1, 3), 1);
    assert_eq!(worker_of(2, 3), 2);
    assert_eq!(worker_of(3, 3), 0);
}

#[test]
fn round_robin_shares_are_balanced() {
    let pairs = all_pairs(5);
    assert_eq!(pairs.len(), 10);
    let queues = split_round_robin(&pairs, 3);
    assert_eq!(queues.len(), 3);
    assert_eq!(queues[0].len(), 4);
    assert_eq!(queues[1].len(), 3);
    assert_eq!(queues[2].len(), 3);
    // Every job lands with worker k mod 3, in order; none lost or duplicated.
    let mut seen: Vec<(usize, usize)> = Vec::new();
    for (t, lane) in queues.iter().enumerate() {
        for (q, job) in lane.iter().enumerate() {
            assert_eq!(*job, pairs[q * 3 + t]);
            seen.push(*job);
        }
    }
    seen.sort();
    let mut expected = pairs.clone();
    expected.sort();
    assert_eq!(seen, expected);
}

#[test]
fn total_line_count_matches_formula() {
    let records = vec![rec("A", "MSK"), rec("B", "MAK"), rec("C", "MKVL")];
    let n = records.len();
    let engine = Aligner::new(-10, -1);
    let mut total = 1usize;  // header
    for r in &records {
        total += self_hit_lines(r, false).len();
    }
    for (i, j) in all_pairs(n) {
        let alignment = engine.global(&records[i].seq, &records[j].seq);
        total += pair_lines(&records[i], &records[j], &alignment, false).len();
    }
    assert_eq!(total, n * n + n + 1);
}
