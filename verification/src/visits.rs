//! Which entries of the visit history are kept when it is written back: at
//! least the most recent 100, and every one visited within the last 50 days.

use vstd::prelude::*;

verus! {

/// Fifty days, in nanoseconds.
pub const MAX_AGE_NANOS: u128 = 4_320_000_000_000_000;

/// The number of most recent entries that are always kept.
pub const MIN_KEPT: usize = 100;

/// How long ago `last_visit` was at `now` (both in nanoseconds since the
/// epoch); zero if it is in the future.
pub open spec fn age(last_visit: u128, now: u128) -> int {
    if now >= last_visit {
        now - last_visit
    } else {
        0
    }
}

/// Whether the entry at position `i` (0 for the most recent) with the given
/// last visit is kept: it is among the first 100, or at most 50 days old.
pub open spec fn keeps(i: int, last_visit: u128, now: u128) -> bool {
    i < MIN_KEPT || age(last_visit, now) <= MAX_AGE_NANOS
}

/// How many entries are kept of the history, given the last visit of each
/// entry, most recent first: entries are kept from the start for as long as
/// each is kept by [`keeps`], and the rest are dropped.
pub fn kept_visits(last_visits: &Vec<u128>, now: u128) -> (r: usize)
    ensures
        r <= last_visits@.len(),
        forall|j: int| 0 <= j < r ==> keeps(j, #[trigger] last_visits@[j], now),
        r < last_visits@.len() ==> !keeps(r as int, last_visits@[r as int], now),
        r >= MIN_KEPT || r == last_visits@.len(),
{
    let mut i: usize = 0;
    while i < last_visits.len()
        invariant
            i <= last_visits@.len(),
            forall|j: int| 0 <= j < i ==> keeps(j, #[trigger] last_visits@[j], now),
        decreases last_visits@.len() - i,
    {
        let t = last_visits[i];
        let age: u128 = if now >= t {
            now - t
        } else {
            0
        };
        if i >= MIN_KEPT && age > MAX_AGE_NANOS {
            return i;
        }
        i = i + 1;
    }
    i
}

/// With entries ordered most recent first, the kept ones are exactly the
/// first 100 together with those visited within the last 50 days: an entry
/// within 50 days is never dropped while an older one is kept.
pub proof fn lemma_recent_entries_kept(last_visits: Seq<u128>, now: u128, r: int, j: int)
    requires
        forall|a: int, b: int| 0 <= a <= b < last_visits.len() ==> last_visits[b] <= last_visits[a],
        0 <= r <= last_visits.len(),
        forall|k: int| 0 <= k < r ==> keeps(k, #[trigger] last_visits[k], now),
        r < last_visits.len() ==> !keeps(r, last_visits[r], now),
        0 <= j < last_visits.len(),
        age(last_visits[j], now) <= MAX_AGE_NANOS,
    ensures
        j < r,
{
    if j >= r {
        assert(last_visits[j] <= last_visits[r]);
        assert(age(last_visits[r], now) <= age(last_visits[j], now));
    }
}

} // verus!
