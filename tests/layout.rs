use lantern_pipeline::{
    build_codebook, connection_budget, export_progress, should_flush, split_range, task_range,
    worker_count, worker_ranges, CodebookError, ExportState, PartitionError, WorkRange,
};

fn wr(start: usize, end: usize) -> WorkRange {
    WorkRange { start, end }
}

#[test]
fn three_tasks_hundred_rows() {
    assert_eq!(task_range(100, Some(3), Some(0)), Ok(wr(0, 33)));
    assert_eq!(task_range(100, Some(3), Some(1)), Ok(wr(33, 66)));
    assert_eq!(task_range(100, Some(3), Some(2)), Ok(wr(66, 100)));
}

#[test]
fn task_ranges_cover_domain_once() {
    for total in [0usize, 1, 7, 100, 101] {
        for count in 1..6usize {
            let mut covered = vec![0u32; total];
            for id in 0..count {
                let r = task_range(total, Some(count), Some(id)).unwrap();
                for k in r.start..r.end {
                    covered[k] += 1;
                }
            }
            assert!(covered.iter().all(|&c| c == 1));
        }
    }
}

#[test]
fn task_range_errors() {
    assert_eq!(task_range(10, None, Some(0)), Err(PartitionError::MissingTaskCount));
    assert_eq!(task_range(10, Some(0), Some(0)), Err(PartitionError::ZeroTaskCount));
    assert_eq!(task_range(10, Some(2), Some(2)), Err(PartitionError::TaskIdOutOfRange));
    assert_eq!(task_range(10, Some(2), None), Ok(wr(0, 10)));
    assert_eq!(task_range(10, None, None), Ok(wr(0, 10)));
}

#[test]
fn worker_ranges_split_task_range() {
    let r = worker_ranges(wr(33, 66), 4);
    assert_eq!(r, vec![wr(33, 41), wr(41, 49), wr(49, 57), wr(57, 66)]);
    assert_eq!(worker_ranges(wr(5, 7), 3), vec![wr(5, 5), wr(5, 5), wr(5, 7)]);
    assert_eq!(split_range(wr(0, 10), 2, 1), wr(5, 10));
}

#[test]
fn connection_budget_arithmetic() {
    assert_eq!(connection_budget(100, Some(3), 0), 32);
    assert_eq!(connection_budget(1, Some(3), 0), 0);
    assert_eq!(connection_budget(100, None, 12), 88);
    assert_eq!(connection_budget(10, None, 12), 0);
    assert_eq!(worker_count(8, 32), 8);
    assert_eq!(worker_count(8, 3), 3);
    assert_eq!(worker_count(8, 0), 1);
    assert_eq!(worker_count(0, 5), 1);
}

#[test]
fn codebook_groups_by_segment() {
    let entries = vec![(1, 0), (0, 0), (0, 1), (1, 1), (2, 0)];
    let book = build_codebook(&entries, 3).unwrap();
    assert_eq!(book, vec![vec![1, 2], vec![0, 3], vec![4]]);
}

#[test]
fn codebook_errors() {
    assert_eq!(build_codebook(&vec![], 2), Err(CodebookError::Empty));
    assert_eq!(build_codebook(&vec![(0, 0), (2, 0)], 2), Err(CodebookError::MalformedEntry(1)));
    assert_eq!(build_codebook(&vec![(0, 1)], 1), Err(CodebookError::MalformedEntry(0)));
    assert_eq!(build_codebook(&vec![(0, 0), (0, 0)], 1), Err(CodebookError::MalformedEntry(1)));
    assert_eq!(build_codebook(&vec![(1, 0)], 2), Err(CodebookError::MissingSegment(0)));
    let full: Vec<(usize, usize)> = (0..257).map(|c| (0, c)).collect();
    assert_eq!(build_codebook(&full, 1), Err(CodebookError::MalformedEntry(256)));
}

#[test]
fn flush_thresholds() {
    assert!(should_flush(1000, 0));
    assert!(!should_flush(999, 9));
    assert!(should_flush(50, 10));
    assert!(!should_flush(49, 100));
}

#[test]
fn streaming_sink_flushes_in_windows() {
    let mut s = ExportState::new(2000, true);
    let a = s.on_batch(600, 1);
    assert!(!a.flush);
    assert_eq!(a.report, Some(30));
    let b = s.on_batch(400, 2);
    assert!(b.flush);
    assert_eq!(s.collected, 0);
    let c = s.on_batch(60, 11);
    assert!(c.flush);
    let d = s.on_batch(10, 30);
    assert!(!d.flush);
    let end = s.on_end();
    assert!(end.merge);
    assert_eq!(end.processed, 1070);
    assert_eq!(end.report, Some(100));
}

#[test]
fn one_shot_sink_never_flushes_early() {
    let mut s = ExportState::new(10, false);
    let a = s.on_batch(5000, 100);
    assert!(!a.flush);
    assert_eq!(a.report, Some(100));
    let end = s.on_end();
    assert_eq!(end.report, None);
    assert!(end.merge);
}

#[test]
fn export_progress_every_thousand_rows() {
    assert_eq!(export_progress(1000, 4000), Some(1));
    assert_eq!(export_progress(999, 4000), None);
    assert_eq!(export_progress(4000, 4000), Some(5));
    assert_eq!(export_progress(0, 4000), None);
}
