use vstd::prelude::*;

verus! {

/// `floor(100 * processed / total)`, capped at 100; 0 when the total is unknown.
pub open spec fn progress_percent(total: int, processed: int) -> int {
    if total <= 0 {
        0
    } else if 100 * processed / total > 100 {
        100
    } else {
        100 * processed / total
    }
}

/// Percentage of `processed` rows out of an estimated `total`.
pub fn calculate_progress(total: i64, processed: usize) -> (r: u8)
    ensures
        r as int == progress_percent(total as int, processed as int),
        r <= 100,
{
    if total <= 0 {
        return 0;
    }
    let scaled: u128 = processed as u128 * 100;
    let q: u128 = scaled / (total as u128);
    if q > 100 {
        100
    } else {
        q as u8
    }
}

/// A sequence of percentages that only ever goes up, each at most 100.
pub open spec fn strictly_increasing(s: Seq<u8>) -> bool {
    &&& forall|i: int, j: int| 0 <= i < j < s.len() ==> s[i] < s[j]
    &&& forall|i: int| 0 <= i < s.len() ==> s[i] <= 100
}

/// Turns processed-row counts into progress reports: a value is reported only
/// when it is strictly greater than the last one reported, and `finish`
/// reports a terminal 100 if it has not been reported yet.
pub struct ProgressTracker {
    pub total: i64,
    pub processed: usize,
    pub last: u8,
    /// Every value handed out for reporting so far, in order.
    pub reported: Ghost<Seq<u8>>,
}

impl ProgressTracker {
    pub open spec fn wf(&self) -> bool {
        &&& strictly_increasing(self.reported@)
        &&& self.last <= 100
        &&& if self.reported@.len() == 0 {
            self.last == 0
        } else {
            self.last == self.reported@.last() && self.last > 0
        }
    }

    pub fn new(total: i64) -> (r: Self)
        ensures
            r.wf(),
            r.total == total,
            r.processed == 0,
            r.last == 0,
            r.reported@ == Seq::<u8>::empty(),
    {
        ProgressTracker { total, processed: 0, last: 0, reported: Ghost(Seq::empty()) }
    }

    /// Counts `rows` more processed rows; returns the percentage to report, if
    /// it went up.
    pub fn record(&mut self, rows: usize) -> (r: Option<u8>)
        requires
            old(self).wf(),
            old(self).processed + rows <= usize::MAX,
        ensures
            final(self).wf(),
            final(self).total == old(self).total,
            final(self).processed == old(self).processed + rows,
            ({
                let p = progress_percent(old(self).total as int, final(self).processed as int);
                if p > old(self).last {
                    &&& r == Some(p as u8)
                    &&& final(self).last == p
                    &&& final(self).reported@ == old(self).reported@.push(p as u8)
                } else {
                    &&& r is None
                    &&& final(self).last == old(self).last
                    &&& final(self).reported@ == old(self).reported@
                }
            }),
    {
        self.processed = self.processed + rows;
        let p = calculate_progress(self.total, self.processed);
        if p > self.last {
            self.last = p;
            self.reported = Ghost(self.reported@.push(p));
            Some(p)
        } else {
            None
        }
    }

    /// Ends the job: 100 is reported unless it already was. Afterwards the
    /// reported values are strictly increasing and the last one is 100.
    pub fn finish(&mut self) -> (r: Option<u8>)
        requires
            old(self).wf(),
        ensures
            final(self).wf(),
            final(self).total == old(self).total,
            final(self).processed == old(self).processed,
            final(self).last == 100,
            final(self).reported@.len() > 0,
            final(self).reported@.last() == 100,
            old(self).last == 100 ==> r is None && final(self).reported@ == old(self).reported@,
            old(self).last != 100 ==> r == Some(100u8) && final(self).reported@
                == old(self).reported@.push(100),
    {
        if self.last != 100 {
            self.last = 100;
            self.reported = Ghost(self.reported@.push(100));
            Some(100)
        } else {
            None
        }
    }
}

} // verus!
