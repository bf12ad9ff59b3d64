use vstd::prelude::*;
use crate::progress::{progress_percent, ProgressTracker};

verus! {

/// Seconds after the last flush from which a smaller buffer may be flushed.
pub const FLUSH_INTERVAL_SECS: u64 = 10;

/// Smallest buffer flushed once the interval has elapsed.
pub const MIN_FLUSH_ROWS: usize = 50;

/// Buffer size that is flushed at once.
pub const MAX_FLUSH_ROWS: usize = 1000;

/// Streaming flush rule: a full buffer, or an elapsed interval with a buffer
/// that is not tiny.
pub open spec fn flush_due(collected: int, elapsed_secs: int) -> bool {
    collected >= MAX_FLUSH_ROWS || (elapsed_secs >= FLUSH_INTERVAL_SECS && collected
        >= MIN_FLUSH_ROWS)
}

pub fn should_flush(collected: usize, elapsed_secs: u64) -> (r: bool)
    ensures
        r == flush_due(collected as int, elapsed_secs as int),
{
    collected >= MAX_FLUSH_ROWS || (elapsed_secs >= FLUSH_INTERVAL_SECS && collected
        >= MIN_FLUSH_ROWS)
}

/// What the sink does after it has staged one batch of records.
#[derive(Clone, Copy, Debug, PartialEq, Eq, Structural)]
pub struct BatchStep {
    /// Percentage to hand to the progress callback, if it went up.
    pub report: Option<u8>,
    /// Whether to merge the staged records now and start a new staging buffer.
    pub flush: bool,
}

/// What the sink does once the result stream has ended.
#[derive(Clone, Copy, Debug, PartialEq, Eq, Structural)]
pub struct EndStep {
    /// Percentage to hand to the progress callback: 100 unless already given.
    pub report: Option<u8>,
    /// Whether to run the final merge of what is still staged.
    pub merge: bool,
    /// Rows processed over the whole job.
    pub processed: usize,
}

/// Decisions of the merge-write sink: when to flush, what progress to
/// report. The caller stages records, runs merges and calls back.
pub struct ExportState {
    /// Streaming (windowed flushes) rather than one merge at the end.
    pub stream: bool,
    /// Records staged since the last flush.
    pub collected: usize,
    pub progress: ProgressTracker,
}

impl ExportState {
    pub open spec fn wf(&self) -> bool {
        &&& self.progress.wf()
        &&& self.collected <= self.progress.processed
    }

    pub fn new(estimated_total: i64, stream: bool) -> (r: Self)
        ensures
            r.wf(),
            r.stream == stream,
            r.collected == 0,
            r.progress.total == estimated_total,
            r.progress.processed == 0,
            r.progress.reported@ == Seq::<u8>::empty(),
    {
        ExportState { stream, collected: 0, progress: ProgressTracker::new(estimated_total) }
    }

    /// A batch of `rows` records was staged, `elapsed_secs` after the last
    /// flush (or the start).
    pub fn on_batch(&mut self, rows: usize, elapsed_secs: u64) -> (r: BatchStep)
        requires
            old(self).wf(),
            old(self).progress.processed + rows <= usize::MAX,
        ensures
            final(self).wf(),
            final(self).stream == old(self).stream,
            final(self).progress.total == old(self).progress.total,
            final(self).progress.processed == old(self).progress.processed + rows,
            r.flush == (old(self).stream && flush_due(
                old(self).collected + rows,
                elapsed_secs as int,
            )),
            final(self).collected == if r.flush {
                0
            } else {
                old(self).collected + rows
            },
            ({
                let p = progress_percent(
                    old(self).progress.total as int,
                    final(self).progress.processed as int,
                );
                if p > old(self).progress.last {
                    r.report == Some(p as u8) && final(self).progress.reported@
                        == old(self).progress.reported@.push(p as u8)
                } else {
                    r.report is None && final(self).progress.reported@
                        == old(self).progress.reported@
                }
            }),
    {
        self.collected = self.collected + rows;
        let report = self.progress.record(rows);
        let flush = self.stream && should_flush(self.collected, elapsed_secs);
        if flush {
            self.collected = 0;
        }
        BatchStep { report, flush }
    }

    /// The result stream ended: report a terminal 100 if needed, and merge
    /// what is staged unless no row was processed at all.
    pub fn on_end(&mut self) -> (r: EndStep)
        requires
            old(self).wf(),
        ensures
            final(self).wf(),
            r.processed == old(self).progress.processed,
            r.merge == (old(self).progress.processed > 0),
            old(self).collected > 0 ==> r.merge,
            final(self).progress.processed == old(self).progress.processed,
            final(self).progress.reported@.len() > 0,
            final(self).progress.reported@.last() == 100,
            old(self).progress.last == 100 ==> r.report is None,
            old(self).progress.last != 100 ==> r.report == Some(100u8),
            final(self).progress.reported@ == if old(self).progress.last == 100 {
                old(self).progress.reported@
            } else {
                old(self).progress.reported@.push(100)
            },
    {
        let report = self.progress.finish();
        EndStep { report, merge: self.progress.processed > 0, processed: self.progress.processed }
    }
}

/// Progress of a compression worker's export, at most 5 percent of the job:
/// reported every 1000 written rows, as `floor(5 * written / total)`.
pub fn export_progress(written: usize, total: usize) -> (r: Option<u8>)
    ensures
        (written > 0 && written % 1000 == 0 && total > 0 && written <= total) ==> r == Some(
            ((5 * written as int) / total as int) as u8,
        ),
        !(written > 0 && written % 1000 == 0 && total > 0 && written <= total) ==> r is None,
        r is Some ==> r->0 <= 5,
{
    if written > 0 && written % 1000 == 0 && total > 0 && written <= total {
        let q: u128 = (written as u128 * 5) / (total as u128);
        assert(q <= 5) by (nonlinear_arith)
            requires
                q == (written as int * 5) / total as int,
                written <= total,
                total > 0,
        ;
        Some(q as u8)
    } else {
        None
    }
}

} // verus!
