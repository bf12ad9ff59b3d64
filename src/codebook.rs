use vstd::prelude::*;

verus! {

/// Most centroids a segment may hold: each code is one byte.
pub const MAX_CENTROIDS: usize = 256;

#[derive(Clone, Copy, Debug, PartialEq, Eq, Structural)]
pub enum CodebookError {
    /// The codebook has no entries at all.
    Empty,
    /// The entry at this position names a segment outside `0..splits`, or a
    /// centroid id that is not the next one of its segment, or is too large.
    MalformedEntry(usize),
    /// No centroid was given for this segment.
    MissingSegment(usize),
}

/// Positions of the entries that belong to `segment`, in order.
pub open spec fn segment_members(entries: Seq<(usize, usize)>, segment: int) -> Seq<usize>
    decreases entries.len(),
{
    if entries.len() == 0 {
        Seq::empty()
    } else {
        let before = segment_members(entries.drop_last(), segment);
        if entries.last().0 == segment {
            before.push((entries.len() - 1) as usize)
        } else {
            before
        }
    }
}

/// Entry `j` is well placed: its segment is in range, and its centroid id is
/// the number of centroids its segment already had.
pub open spec fn entry_ok(entries: Seq<(usize, usize)>, splits: int, j: int) -> bool {
    &&& entries[j].0 < splits
    &&& entries[j].1 < MAX_CENTROIDS
    &&& entries[j].1 == segment_members(entries.take(j), entries[j].0 as int).len()
}

/// Groups codebook entries `(segment, centroid)`, read in centroid order, into
/// one ordered list per segment. Each list holds the positions in `entries` of
/// that segment's centroids, so the centroid `c` of segment `s` is entry
/// `r[s][c]`.
pub fn build_codebook(entries: &Vec<(usize, usize)>, splits: usize) -> (r: Result<
    Vec<Vec<usize>>,
    CodebookError,
>)
    ensures
        entries@.len() == 0 ==> r == Err::<Vec<Vec<usize>>, CodebookError>(CodebookError::Empty),
        entries@.len() > 0 ==> match r {
            Err(CodebookError::Empty) => false,
            Err(CodebookError::MalformedEntry(j)) => {
                &&& j < entries@.len()
                &&& !entry_ok(entries@, splits as int, j as int)
                &&& forall|i: int| 0 <= i < j ==> entry_ok(entries@, splits as int, i)
            },
            Err(CodebookError::MissingSegment(s)) => {
                &&& forall|i: int| 0 <= i < entries@.len() ==> entry_ok(entries@, splits as int, i)
                &&& s < splits
                &&& segment_members(entries@, s as int).len() == 0
                &&& forall|t: int| 0 <= t < s ==> segment_members(entries@, t).len() > 0
            },
            Ok(book) => {
                &&& forall|i: int| 0 <= i < entries@.len() ==> entry_ok(entries@, splits as int, i)
                &&& book@.len() == splits
                &&& forall|s: int|
                    0 <= s < splits ==> #[trigger] book@[s]@ == segment_members(entries@, s)
                        && book@[s]@.len() > 0
            },
        },
{
    if entries.len() == 0 {
        return Err(CodebookError::Empty);
    }
    let mut book: Vec<Vec<usize>> = Vec::new();
    let mut s: usize = 0;
    while s < splits
        invariant
            s <= splits,
            book@.len() == s,
            forall|t: int| 0 <= t < s ==> #[trigger] book@[t]@ == Seq::<usize>::empty(),
        decreases splits - s,
    {
        book.push(Vec::new());
        s = s + 1;
    }
    let mut j: usize = 0;
    while j < entries.len()
        invariant
            j <= entries@.len(),
            book@.len() == splits,
            forall|t: int| 0 <= t < splits ==> #[trigger] book@[t]@ == segment_members(entries@.take(j as int), t),
            forall|i: int| 0 <= i < j ==> entry_ok(entries@, splits as int, i),
        decreases entries@.len() - j,
    {
        let (seg, centroid) = entries[j];
        proof {
            assert(entries@.take(j as int + 1).drop_last() == entries@.take(j as int));
        }
        if seg >= splits || centroid >= MAX_CENTROIDS || centroid != book[seg].len() {
            return Err(CodebookError::MalformedEntry(j));
        }
        let ghost old_book = book@;
        book[seg].push(j);
        proof {
            assert forall|t: int| 0 <= t < splits implies #[trigger] book@[t]@ == segment_members(
                entries@.take(j as int + 1),
                t,
            ) by {
                if t != seg {
                    assert(book@[t] == old_book[t]);
                }
            }
        }
        j = j + 1;
    }
    proof {
        assert(entries@.take(entries@.len() as int) == entries@);
    }
    let mut s: usize = 0;
    while s < splits
        invariant
            s <= splits,
            book@.len() == splits,
            forall|t: int| 0 <= t < splits ==> #[trigger] book@[t]@ == segment_members(entries@, t),
            forall|t: int| 0 <= t < s ==> segment_members(entries@, t).len() > 0,
            entries@.len() > 0,
            forall|i: int| 0 <= i < entries@.len() ==> entry_ok(entries@, splits as int, i),
        decreases splits - s,
    {
        if book[s].len() == 0 {
            return Err(CodebookError::MissingSegment(s));
        }
        s = s + 1;
    }
    Ok(book)
}

} // verus!
