use vstd::prelude::*;

verus! {

/// A half-open interval `[start, end)` over the key ordering.
#[derive(Clone, Copy, Debug, PartialEq, Eq, Structural)]
pub struct WorkRange {
    pub start: usize,
    pub end: usize,
}

#[derive(Clone, Copy, Debug, PartialEq, Eq, Structural)]
pub enum PartitionError {
    /// A task id was given without a task count.
    MissingTaskCount,
    /// The task count is zero.
    ZeroTaskCount,
    /// The task id is not below the task count.
    TaskIdOutOfRange,
}

/// Connections kept free for other clients when a job is split across tasks.
pub const RESERVED_CONNECTIONS: usize = 2;

/// Start of part `i` when `[lo, hi)` is cut into `parts` even pieces.
pub open spec fn part_start(lo: int, hi: int, parts: int, i: int) -> int {
    lo + ((hi - lo) / parts) * i
}

/// End of part `i`; the last part absorbs the remainder of the division.
pub open spec fn part_end(lo: int, hi: int, parts: int, i: int) -> int {
    if i == parts - 1 {
        hi
    } else {
        lo + ((hi - lo) / parts) * (i + 1)
    }
}

pub open spec fn in_part(lo: int, hi: int, parts: int, i: int, k: int) -> bool {
    part_start(lo, hi, parts, i) <= k < part_end(lo, hi, parts, i)
}

proof fn lemma_chunk_bounds(lo: int, hi: int, parts: int, i: int)
    requires
        lo <= hi,
        parts > 0,
        0 <= i <= parts,
    ensures
        0 <= ((hi - lo) / parts) * i <= hi - lo,
        ((hi - lo) / parts) * parts <= hi - lo,
{
    let c = (hi - lo) / parts;
    vstd::arithmetic::div_mod::lemma_fundamental_div_mod(hi - lo, parts);
    vstd::arithmetic::div_mod::lemma_mod_pos_bound(hi - lo, parts);
    vstd::arithmetic::div_mod::lemma_div_pos_is_pos(hi - lo, parts);
    assert(c * i <= c * parts) by (nonlinear_arith)
        requires
            c >= 0,
            i <= parts,
    ;
    assert(0 <= c * i) by (nonlinear_arith)
        requires
            c >= 0,
            i >= 0,
    ;
    assert(c * parts == parts * c) by (nonlinear_arith);
}

/// Part `i` of `range` cut into `parts` contiguous pieces.
pub fn split_range(range: WorkRange, parts: usize, i: usize) -> (r: WorkRange)
    requires
        range.start <= range.end,
        parts > 0,
        i < parts,
    ensures
        r.start == part_start(range.start as int, range.end as int, parts as int, i as int),
        r.end == part_end(range.start as int, range.end as int, parts as int, i as int),
        range.start <= r.start <= r.end <= range.end,
{
    let chunk = (range.end - range.start) / parts;
    proof {
        lemma_chunk_bounds(range.start as int, range.end as int, parts as int, i as int);
        lemma_chunk_bounds(range.start as int, range.end as int, parts as int, i as int + 1);
        assert(chunk * (i + 1) == chunk * i + chunk) by (nonlinear_arith);
    }
    let start = range.start + chunk * i;
    let end = if i == parts - 1 {
        range.end
    } else {
        start + chunk
    };
    WorkRange { start, end }
}

/// The slice of the key domain `[0, total)`. With a task id, the
/// domain is cut evenly into `task_count` slices, the last one absorbing the
/// remainder; without one, the slice is the whole domain.
pub fn task_range(total: usize, task_count: Option<usize>, task_id: Option<usize>) -> (r: Result<
    WorkRange,
    PartitionError,
>)
    ensures
        task_id is None ==> r == Ok::<WorkRange, PartitionError>(WorkRange { start: 0, end: total }),
        task_id is Some && task_count is None ==> r == Err::<WorkRange, PartitionError>(
            PartitionError::MissingTaskCount,
        ),
        task_id is Some && task_count == Some(0usize) ==> r == Err::<WorkRange, PartitionError>(
            PartitionError::ZeroTaskCount,
        ),
        task_id is Some && task_count is Some && task_count->0 > 0 && task_id->0 >= task_count->0
            ==> r == Err::<WorkRange, PartitionError>(PartitionError::TaskIdOutOfRange),
        task_id is Some && task_count is Some && task_id->0 < task_count->0 ==> r is Ok && r->Ok_0.start
            == part_start(0, total as int, task_count->0 as int, task_id->0 as int) && r->Ok_0.end
            == part_end(0, total as int, task_count->0 as int, task_id->0 as int),
{
    match task_id {
        None => Ok(WorkRange { start: 0, end: total }),
        Some(id) => match task_count {
            None => Err(PartitionError::MissingTaskCount),
            Some(count) => {
                if count == 0 {
                    Err(PartitionError::ZeroTaskCount)
                } else if id >= count {
                    Err(PartitionError::TaskIdOutOfRange)
                } else {
                    Ok(split_range(WorkRange { start: 0, end: total }, count, id))
                }
            },
        },
    }
}

/// Connections a worker set may open: with `task_count` tasks sharing the
/// server, `(max_connections - 2) / task_count`; alone, what the server has
/// left over its `active_connections`. Never below zero.
pub fn connection_budget(max_connections: usize, task_count: Option<usize>, active_connections: usize) -> (r: usize)
    requires
        task_count is Some ==> task_count->0 > 0,
    ensures
        task_count is Some ==> r as int == (if max_connections >= RESERVED_CONNECTIONS {
            max_connections - RESERVED_CONNECTIONS
        } else {
            0int
        }) / (task_count->0 as int),
        task_count is None ==> r == (if max_connections >= active_connections {
            max_connections - active_connections
        } else {
            0
        }),
{
    match task_count {
        Some(count) => {
            let usable = if max_connections >= RESERVED_CONNECTIONS {
                max_connections - RESERVED_CONNECTIONS
            } else {
                0
            };
            usable / count
        },
        None => {
            if max_connections >= active_connections {
                max_connections - active_connections
            } else {
                0
            }
        },
    }
}

/// Number of workers: the smaller of the hardware concurrency and the
/// connection budget, and at least one.
pub fn worker_count(num_cores: usize, budget: usize) -> (r: usize)
    ensures
        r >= 1,
        r == if num_cores <= budget {
            if num_cores >= 1 { num_cores } else { 1 }
        } else {
            if budget >= 1 { budget } else { 1 }
        },
{
    let m = if num_cores <= budget {
        num_cores
    } else {
        budget
    };
    if m >= 1 {
        m
    } else {
        1
    }
}

/// The task's range cut into `workers` contiguous work ranges.
pub fn worker_ranges(range: WorkRange, workers: usize) -> (r: Vec<WorkRange>)
    requires
        range.start <= range.end,
        workers > 0,
    ensures
        r@.len() == workers,
        forall|i: int|
            0 <= i < workers ==> #[trigger] r@[i].start == part_start(
                range.start as int,
                range.end as int,
                workers as int,
                i,
            ) && r@[i].end == part_end(range.start as int, range.end as int, workers as int, i),
{
    let mut out: Vec<WorkRange> = Vec::new();
    let mut i: usize = 0;
    while i < workers
        invariant
            i <= workers,
            range.start <= range.end,
            out@.len() == i,
            forall|j: int|
                0 <= j < i ==> #[trigger] out@[j].start == part_start(
                    range.start as int,
                    range.end as int,
                    workers as int,
                    j,
                ) && out@[j].end == part_end(range.start as int, range.end as int, workers as int, j),
        decreases workers - i,
    {
        out.push(split_range(range, workers, i));
        i = i + 1;
    }
    out
}

/// Cutting `[lo, hi)` into `parts` pieces covers every key exactly once: each
/// key of the interval lies in one piece, and in no other.
pub proof fn lemma_parts_cover_exactly_once(lo: int, hi: int, parts: int, k: int)
    requires
        parts > 0,
        lo <= k < hi,
    ensures
        exists|i: int| 0 <= i < parts && #[trigger] in_part(lo, hi, parts, i, k),
        forall|i: int, j: int|
            0 <= i < parts && 0 <= j < parts && #[trigger] in_part(lo, hi, parts, i, k)
                && #[trigger] in_part(lo, hi, parts, j, k) ==> i == j,
{
    let c = (hi - lo) / parts;
    lemma_chunk_bounds(lo, hi, parts, parts);
    assert forall|i: int, j: int|
        0 <= i < parts && 0 <= j < parts && #[trigger] in_part(lo, hi, parts, i, k)
            && #[trigger] in_part(lo, hi, parts, j, k) implies i == j by {
        if i < j {
            assert(c * (i + 1) <= c * j) by (nonlinear_arith)
                requires
                    c >= 0,
                    i + 1 <= j,
            ;
        } else if j < i {
            assert(c * (j + 1) <= c * i) by (nonlinear_arith)
                requires
                    c >= 0,
                    j + 1 <= i,
            ;
        }
    }
    if c == 0 {
        assert(c * (parts - 1) == 0) by (nonlinear_arith)
            requires
                c == 0,
        ;
        assert(in_part(lo, hi, parts, parts - 1, k));
    } else {
        let q = (k - lo) / c;
        vstd::arithmetic::div_mod::lemma_fundamental_div_mod(k - lo, c);
        vstd::arithmetic::div_mod::lemma_mod_pos_bound(k - lo, c);
        vstd::arithmetic::div_mod::lemma_div_pos_is_pos(k - lo, c);
        assert(c * q == q * c) by (nonlinear_arith);
        if q < parts - 1 {
            assert(c * (q + 1) == c * q + c) by (nonlinear_arith);
            assert(in_part(lo, hi, parts, q, k));
        } else {
            assert(c * (parts - 1) <= c * q) by (nonlinear_arith)
                requires
                    c >= 0,
                    parts - 1 <= q,
            ;
            assert(in_part(lo, hi, parts, parts - 1, k));
        }
    }
}

/// The slices of `[0, total)` over task ids `0..task_count` cover every row
/// exactly once, and the last one ends at `total`.
pub proof fn lemma_task_ranges_cover(total: nat, task_count: nat, k: int)
    requires
        task_count > 0,
        0 <= k < total,
    ensures
        exists|i: int| 0 <= i < task_count && #[trigger] in_part(0, total as int, task_count as int, i, k),
        forall|i: int, j: int|
            0 <= i < task_count && 0 <= j < task_count && #[trigger] in_part(
                0,
                total as int,
                task_count as int,
                i,
                k,
            ) && #[trigger] in_part(0, total as int, task_count as int, j, k) ==> i == j,
        part_end(0, total as int, task_count as int, task_count - 1) == total,
{
    lemma_parts_cover_exactly_once(0, total as int, task_count as int, k);
}

} // verus!
