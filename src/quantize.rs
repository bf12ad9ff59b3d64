use vstd::prelude::*;
use crate::codebook::MAX_CENTROIDS;

verus! {

/// `r` is the centroid picked for one segment: no centroid is strictly
/// closer, and every centroid before it is strictly farther (ties go to the
/// lowest index). `keys[c]` orders the squared distances to centroid `c`.
pub open spec fn is_closest(keys: Seq<u32>, r: int) -> bool {
    &&& 0 <= r < keys.len()
    &&& forall|c: int| 0 <= c < keys.len() ==> keys[r] <= #[trigger] keys[c]
    &&& forall|c: int| 0 <= c < r ==> keys[r] < #[trigger] keys[c]
}

/// `code` is the quantization of a vector whose per-segment distance keys are
/// `table`: one closest centroid index per segment.
pub open spec fn is_code_of(table: Seq<Seq<u32>>, code: Seq<u8>) -> bool {
    &&& code.len() == table.len()
    &&& forall|s: int| 0 <= s < table.len() ==> is_closest(#[trigger] table[s], code[s] as int)
}

pub open spec fn valid_segment_keys(keys: Seq<u32>) -> bool {
    0 < keys.len() <= MAX_CENTROIDS
}

/// Bounds `[start, end)` of segment `segment` of a vector of dimension
/// `vector_dim` cut into sub-vectors of dimension `subvector_dim`; the last
/// segment may be shorter.
pub fn segment_bounds(segment: usize, subvector_dim: usize, vector_dim: usize) -> (r: (usize, usize))
    requires
        (segment + 1) * subvector_dim <= usize::MAX,
    ensures
        r.0 == segment * subvector_dim,
        r.1 == if r.0 + subvector_dim <= vector_dim {
            r.0 + subvector_dim
        } else {
            vector_dim as int
        },
{
    proof {
        assert((segment + 1) * subvector_dim == segment * subvector_dim + subvector_dim)
            by (nonlinear_arith);
    }
    let start = segment * subvector_dim;
    let end = if start + subvector_dim <= vector_dim {
        start + subvector_dim
    } else {
        vector_dim
    };
    (start, end)
}

/// Index of the closest centroid of one segment, the first one on ties.
pub fn closest_centroid(keys: &Vec<u32>) -> (r: u8)
    requires
        valid_segment_keys(keys@),
    ensures
        is_closest(keys@, r as int),
{
    let mut best: usize = 0;
    let mut i: usize = 1;
    while i < keys.len()
        invariant
            1 <= i <= keys@.len(),
            keys@.len() <= MAX_CENTROIDS,
            best < i,
            forall|c: int| 0 <= c < i ==> keys@[best as int] <= #[trigger] keys@[c],
            forall|c: int| 0 <= c < best ==> keys@[best as int] < #[trigger] keys@[c],
        decreases keys@.len() - i,
    {
        if keys[i] < keys[best] {
            best = i;
        }
        i = i + 1;
    }
    best as u8
}

/// Code of a vector: the closest centroid index of each segment, from the
/// distance keys of every segment's centroids.
pub fn quantize(table: &Vec<Vec<u32>>) -> (r: Vec<u8>)
    requires
        forall|s: int| 0 <= s < table@.len() ==> valid_segment_keys(#[trigger] table@[s]@),
    ensures
        is_code_of(table@.map_values(|k: Vec<u32>| k@), r@),
{
    let ghost view = table@.map_values(|k: Vec<u32>| k@);
    let mut code: Vec<u8> = Vec::new();
    let mut s: usize = 0;
    while s < table.len()
        invariant
            s <= table@.len(),
            view == table@.map_values(|k: Vec<u32>| k@),
            forall|t: int| 0 <= t < table@.len() ==> valid_segment_keys(#[trigger] table@[t]@),
            code@.len() == s,
            forall|t: int| 0 <= t < s ==> is_closest(#[trigger] view[t], code@[t] as int),
        decreases table@.len() - s,
    {
        let c = closest_centroid(&table[s]);
        code.push(c);
        s = s + 1;
    }
    code
}

/// For one segment there is only one closest centroid in the sense above.
pub proof fn lemma_closest_unique(keys: Seq<u32>, a: int, b: int)
    requires
        is_closest(keys, a),
        is_closest(keys, b),
    ensures
        a == b,
{
    if a < b {
        assert(keys[b] < keys[a]);
    } else if b < a {
        assert(keys[a] < keys[b]);
    }
}

/// Quantizing the same vector against the same codebook twice gives the same
/// code.
pub proof fn lemma_quantize_deterministic(table: Seq<Seq<u32>>, c1: Seq<u8>, c2: Seq<u8>)
    requires
        is_code_of(table, c1),
        is_code_of(table, c2),
    ensures
        c1 == c2,
{
    assert forall|s: int| 0 <= s < c1.len() implies c1[s] == c2[s] by {
        lemma_closest_unique(table[s], c1[s] as int, c2[s] as int);
    }
    assert(c1 =~= c2);
}

} // verus!
