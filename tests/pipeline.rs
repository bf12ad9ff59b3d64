use lantern_pipeline::{
    build_codebook, calculate_progress, closest_centroid, pair_from_end, prepare_batch, quantize,
    segment_bounds, BatchError, ExportState, ProgressTracker,
};

fn l2sq(a: &[f32], b: &[f32]) -> f32 {
    a.iter().zip(b.iter()).map(|(x, y)| (x - y) * (x - y)).sum()
}

fn keys_for(vector: &[f32], book: &[Vec<Vec<f32>>], subvector_dim: usize) -> Vec<Vec<u32>> {
    let mut table = Vec::new();
    for (s, centroids) in book.iter().enumerate() {
        let (start, end) = segment_bounds(s, subvector_dim, vector.len());
        table.push(centroids.iter().map(|c| l2sq(c, &vector[start..end]).to_bits()).collect());
    }
    table
}

#[test]
fn progress_floor_of_percentage() {
    assert_eq!(calculate_progress(100, 29), 29);
    assert_eq!(calculate_progress(3, 1), 33);
    assert_eq!(calculate_progress(3, 2), 66);
    assert_eq!(calculate_progress(3, 3), 100);
    assert_eq!(calculate_progress(0, 10), 0);
    assert_eq!(calculate_progress(-5, 10), 0);
    assert_eq!(calculate_progress(10, 50), 100);
}

#[test]
fn progress_reports_only_increases() {
    let mut t = ProgressTracker::new(200);
    assert_eq!(t.record(1), None);
    assert_eq!(t.record(1), Some(1));
    assert_eq!(t.record(1), None);
    assert_eq!(t.record(197), Some(100));
    assert_eq!(t.finish(), None);
}

#[test]
fn progress_sequence_is_monotone_and_ends_at_hundred() {
    let mut t = ProgressTracker::new(7);
    let mut seen = Vec::new();
    for _ in 0..5 {
        if let Some(p) = t.record(1) {
            seen.push(p);
        }
    }
    if let Some(p) = t.finish() {
        seen.push(p);
    }
    assert_eq!(seen, vec![14, 28, 42, 57, 71, 100]);
    assert!(seen.windows(2).all(|w| w[0] <= w[1]));
    assert_eq!(*seen.last().unwrap(), 100);
}

#[test]
fn empty_job_reports_hundred_and_merges_nothing() {
    let mut s = ExportState::new(0, false);
    let end = s.on_end();
    assert_eq!(end.processed, 0);
    assert!(!end.merge);
    assert_eq!(end.report, Some(100));
    let mut s = ExportState::new(40, true);
    let end = s.on_end();
    assert_eq!(end.processed, 0);
    assert_eq!(end.report, Some(100));
}

#[test]
fn three_rows_one_null_payload() {
    let rows: Vec<(String, Option<String>)> = vec![
        ("(0,1)".to_string(), Some("hello".to_string())),
        ("(0,2)".to_string(), None),
        ("(0,3)".to_string(), Some("world".to_string())),
    ];
    let mut exporter = ExportState::new(3, false);
    let mut records: Vec<(String, Vec<f32>)> = Vec::new();
    let mut reports = Vec::new();
    for batch in rows.chunks(2) {
        let payloads: Vec<Option<String>> = batch.iter().map(|r| r.1.clone()).collect();
        let picked = prepare_batch(false, &payloads).unwrap();
        if picked.is_empty() {
            continue;
        }
        let ids: Vec<String> = picked.iter().map(|&i| batch[i].0.clone()).collect();
        let vectors: Vec<Vec<f32>> = picked.iter().map(|&i| vec![i as f32]).collect();
        let out = pair_from_end(ids, vectors);
        let step = exporter.on_batch(out.len(), 0);
        assert!(!step.flush);
        if let Some(p) = step.report {
            reports.push(p);
        }
        records.extend(out);
    }
    let end = exporter.on_end();
    if let Some(p) = end.report {
        reports.push(p);
    }
    assert_eq!(records.len(), 2);
    assert!(end.merge);
    assert_eq!(end.processed, 2);
    assert_eq!(*reports.last().unwrap(), 100);
}

#[test]
fn cancelled_batch_is_distinguished() {
    let payloads = vec![Some("a".to_string())];
    assert_eq!(prepare_batch(true, &payloads), Err(BatchError::Cancelled));
}

#[test]
fn blank_payloads_are_skipped() {
    let payloads = vec![
        Some("  ".to_string()),
        Some(" x ".to_string()),
        None,
        Some("".to_string()),
        Some("\t\n".to_string()),
        Some("y".to_string()),
        Some("\u{3000}\u{a0}".to_string()),
        Some("\u{a0}z".to_string()),
    ];
    assert_eq!(prepare_batch(false, &payloads), Ok(vec![1, 5, 7]));
}

#[test]
fn pairing_reverses_batch_order() {
    let r = pair_from_end(vec!["a", "b", "c"], vec![1, 2, 3]);
    assert_eq!(r, vec![("c", 3), ("b", 2), ("a", 1)]);
}

#[test]
fn two_segments_four_centroids() {
    let entries: Vec<(usize, usize)> =
        vec![(0, 0), (1, 0), (0, 1), (1, 1), (0, 2), (1, 2), (0, 3), (1, 3)];
    let layout = build_codebook(&entries, 2).unwrap();
    let values: Vec<Vec<f32>> = (0..8).map(|i| vec![i as f32; 4]).collect();
    let book: Vec<Vec<Vec<f32>>> =
        layout.iter().map(|seg| seg.iter().map(|&j| values[j].clone()).collect()).collect();
    assert_eq!(book[0].len(), 4);
    let v = [0.1f32, 0.2, 0.0, 0.1, 7.0, 7.2, 6.8, 7.0];
    let code = quantize(&keys_for(&v, &book, 4));
    assert_eq!(code.len(), 2);
    assert!(code.iter().all(|&b| b <= 3));
    assert_eq!(code, vec![0, 3]);
}

#[test]
fn quantizing_twice_gives_same_code() {
    let book = vec![vec![vec![0.0f32, 0.0], vec![1.0, 1.0]], vec![vec![5.0f32], vec![2.0]]];
    let v = [0.8f32, 0.7, 3.0];
    let a = quantize(&keys_for(&v, &book, 2));
    let b = quantize(&keys_for(&v, &book, 2));
    assert_eq!(a, b);
    assert_eq!(a, vec![1, 1]);
}

#[test]
fn closest_centroid_takes_first_on_ties() {
    assert_eq!(closest_centroid(&vec![5, 3, 3, 9]), 1);
    assert_eq!(closest_centroid(&vec![2]), 0);
    assert_eq!(closest_centroid(&vec![4, 4, 4]), 0);
    let keys: Vec<u32> = (0..256u32).map(|i| 1000 - i).collect();
    assert_eq!(closest_centroid(&keys), 255);
}

#[test]
fn quantized_index_is_optimal() {
    let keys = vec![vec![9, 4, 7, 4], vec![1, 0]];
    let code = quantize(&keys);
    for (s, &c) in code.iter().enumerate() {
        assert!(keys[s].iter().all(|&k| keys[s][c as usize] <= k));
    }
    assert_eq!(code, vec![1, 1]);
}

#[test]
fn last_segment_may_be_shorter() {
    assert_eq!(segment_bounds(0, 4, 10), (0, 4));
    assert_eq!(segment_bounds(2, 4, 10), (8, 10));
    assert_eq!(segment_bounds(1, 4, 8), (4, 8));
}
