use vstd::prelude::*;

verus! {

/// Effect of one merge statement on the destination's result column: each
/// destination key found in the staging relation takes the staged value, the
/// others keep theirs, and no key is added.
pub open spec fn merge_effect<K, V>(dest: Map<K, V>, staged: Map<K, V>) -> Map<K, V> {
    Map::new(
        |k: K| dest.contains_key(k),
        |k: K|
            if staged.contains_key(k) {
                staged[k]
            } else {
                dest[k]
            },
    )
}

/// The destination after the merges of `flushes`, in order.
pub open spec fn after_flushes<K, V>(dest: Map<K, V>, flushes: Seq<Map<K, V>>) -> Map<K, V>
    decreases flushes.len(),
{
    if flushes.len() == 0 {
        dest
    } else {
        merge_effect(after_flushes(dest, flushes.drop_last()), flushes.last())
    }
}

/// Index of the most recent flush that staged `k`, or -1.
pub open spec fn last_flush_with<K, V>(flushes: Seq<Map<K, V>>, k: K) -> int
    decreases flushes.len(),
{
    if flushes.len() == 0 {
        -1
    } else if flushes.last().contains_key(k) {
        flushes.len() - 1
    } else {
        last_flush_with(flushes.drop_last(), k)
    }
}

/// After any sequence of merge flushes, a destination key holds the value
/// of the most recent flush that staged it, and its old value if none did.
pub proof fn lemma_latest_flush_wins<K, V>(dest: Map<K, V>, flushes: Seq<Map<K, V>>, k: K)
    requires
        dest.contains_key(k),
    ensures
        after_flushes(dest, flushes).contains_key(k),
        -1 <= last_flush_with(flushes, k) < flushes.len(),
        last_flush_with(flushes, k) >= 0 ==> after_flushes(dest, flushes)[k] == flushes[last_flush_with(
            flushes,
            k,
        )][k],
        last_flush_with(flushes, k) == -1 ==> after_flushes(dest, flushes)[k] == dest[k],
    decreases flushes.len(),
{
    if flushes.len() > 0 {
        lemma_latest_flush_wins(dest, flushes.drop_last(), k);
        let prev = flushes.drop_last();
        if !flushes.last().contains_key(k) {
            let i = last_flush_with(prev, k);
            if i >= 0 {
                assert(flushes[i] == prev[i]);
            }
        }
    }
}

} // verus!
