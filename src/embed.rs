use vstd::prelude::*;

verus! {

/// What `str::trim` returns on a string: it without leading and trailing
/// whitespace.
pub uninterp spec fn trim_of(s: Seq<char>) -> Seq<char>;

/// A character of Unicode's White_Space property.
pub open spec fn is_white_space(c: char) -> bool {
    let u = c as u32;
    (0x9 <= u <= 0xd) || u == 0x20 || u == 0x85 || u == 0xa0 || u == 0x1680 || (0x2000 <= u
        <= 0x200a) || u == 0x2028 || u == 0x2029 || u == 0x202f || u == 0x205f || u == 0x3000
}

/// Relies on `str::trim`: the string without leading and trailing
/// whitespace (Unicode White_Space), a function of its characters alone; so
/// nothing is left exactly when every character is whitespace.
#[verifier::external_body]
fn trimmed(s: &str) -> (r: &str)
    ensures
        r@ == trim_of(s@),
        r@.len() == 0 <==> forall|i: int| 0 <= i < s@.len() ==> is_white_space(#[trigger] s@[i]),
{
    s.trim()
}

#[derive(Clone, Copy, Debug, PartialEq, Eq, Structural)]
pub enum BatchError {
    /// The job was cancelled before this batch; a voluntary abort.
    Cancelled,
}

/// Whether a trimmed payload has any text left.
pub fn is_text(t: &str) -> (r: bool)
    ensures
        r == (t@.len() > 0),
{
    !t.is_empty()
}

/// The payload is worth embedding: present and not blank.
pub open spec fn has_text(p: Option<String>) -> bool {
    p is Some && trim_of(p->0@).len() > 0
}

/// Positions, in order, of the payloads whose text is worth embedding.
pub open spec fn text_positions(payloads: Seq<Option<String>>) -> Seq<usize>
    decreases payloads.len(),
{
    if payloads.len() == 0 {
        Seq::empty()
    } else {
        let before = text_positions(payloads.drop_last());
        if has_text(payloads.last()) {
            before.push((payloads.len() - 1) as usize)
        } else {
            before
        }
    }
}

/// Positions of the rows of a batch whose payload is present and not blank;
/// the others are dropped from the job without an error.
pub fn select_inputs(payloads: &Vec<Option<String>>) -> (r: Vec<usize>)
    ensures
        r@ == text_positions(payloads@),
{
    let mut out: Vec<usize> = Vec::new();
    let mut i: usize = 0;
    while i < payloads.len()
        invariant
            i <= payloads@.len(),
            out@ == text_positions(payloads@.take(i as int)),
        decreases payloads@.len() - i,
    {
        proof {
            assert(payloads@.take(i as int + 1).drop_last() =~= payloads@.take(i as int));
        }
        match &payloads[i] {
            Some(text) => {
                let t = trimmed(text.as_str());
                if is_text(t) {
                    out.push(i);
                }
            },
            None => {},
        }
        i = i + 1;
    }
    proof {
        assert(payloads@.take(payloads@.len() as int) =~= payloads@);
    }
    out
}

/// The decision taken at a batch boundary: abort if the job was cancelled,
/// else the positions of the rows to embed (none: skip the batch).
pub fn prepare_batch(cancelled: bool, payloads: &Vec<Option<String>>) -> (r: Result<
    Vec<usize>,
    BatchError,
>)
    ensures
        cancelled ==> r == Err::<Vec<usize>, BatchError>(BatchError::Cancelled),
        !cancelled ==> r is Ok && r->Ok_0@ == text_positions(payloads@),
{
    if cancelled {
        Err(BatchError::Cancelled)
    } else {
        Ok(select_inputs(payloads))
    }
}

/// Pairs results with row keys by taking both from the end: the `k`-th pair
/// holds the `k`-th last key and the `k`-th last value, so a batch comes out
/// in reverse order.
pub fn pair_from_end<K, V>(keys: Vec<K>, values: Vec<V>) -> (r: Vec<(K, V)>)
    requires
        values@.len() <= keys@.len(),
    ensures
        r@.len() == values@.len(),
        forall|k: int|
            0 <= k < values@.len() ==> #[trigger] r@[k] == (
                keys@[keys@.len() - 1 - k],
                values@[values@.len() - 1 - k],
            ),
{
    let ghost k0 = keys@;
    let ghost v0 = values@;
    let mut keys = keys;
    let mut values = values;
    let mut out: Vec<(K, V)> = Vec::new();
    let n = values.len();
    let mut i: usize = 0;
    while i < n
        invariant
            n == v0.len(),
            v0.len() <= k0.len(),
            i <= n,
            keys@ == k0.take(k0.len() - i),
            values@ == v0.take(v0.len() - i),
            out@.len() == i,
            forall|k: int| 0 <= k < i ==> #[trigger] out@[k] == (k0[k0.len() - 1 - k], v0[v0.len() - 1 - k]),
        decreases n - i,
    {
        let key = keys.pop().unwrap();
        let value = values.pop().unwrap();
        proof {
            assert(keys@ =~= k0.take(k0.len() - i - 1));
            assert(values@ =~= v0.take(v0.len() - i - 1));
        }
        out.push((key, value));
        i = i + 1;
    }
    out
}

} // verus!
