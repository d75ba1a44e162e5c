//! Shared storage primitives for the chronology types: the mathematical
//! model of parallel timestamp/value sequences, the binary search that
//! answers nearest-timestamp queries, and the order-checked bulk append.

use vstd::prelude::*;

use crate::Direction;
use crate::entry::Entry;

verus! {

/// Error returned by a bulk insert whose entries would break the
/// non-decreasing timestamp order of the storage.
#[derive(Clone, Copy, Debug, PartialEq, Eq)]
pub struct DisorderedInsert;

/// The entries held by a pair of parallel timestamp/value sequences:
/// element `i` pairs `timestamps[i]` with `values[i]`.
pub open spec fn zip_entries<V>(timestamps: Seq<u64>, values: Seq<V>) -> Seq<Entry<V>> {
    Seq::new(timestamps.len(), |i: int| Entry { timestamp: timestamps[i], value: values[i] })
}

/// The entries stand in non-decreasing timestamp order.
pub open spec fn sorted_by_time<V>(entries: Seq<Entry<V>>) -> bool {
    forall|i: int, j: int|
        0 <= i <= j < entries.len() ==> entries[i].timestamp <= entries[j].timestamp
}

/// Neighbouring entries stand in non-decreasing timestamp order.
pub open spec fn adjacent_sorted_by_time<V>(entries: Seq<Entry<V>>) -> bool {
    forall|i: int, j: int|
        0 <= i && j == i + 1 && j < entries.len()
            ==> entries[i].timestamp <= entries[j].timestamp
}

/// Index of the first entry whose timestamp lies strictly after `timestamp`,
/// or the length of the sequence if there is none. On a sequence in
/// non-decreasing timestamp order this is the number of entries at or before
/// `timestamp`, so it is the point where a query splits the storage.
pub open spec fn first_after<V>(entries: Seq<Entry<V>>, timestamp: u64) -> int
    decreases entries.len(),
{
    if entries.len() == 0 {
        0
    } else if entries[0].timestamp > timestamp {
        0
    } else {
        1 + first_after(entries.drop_first(), timestamp)
    }
}

/// Some stored entry lies strictly after `timestamp`.
pub open spec fn has_after<V>(entries: Seq<Entry<V>>, timestamp: u64) -> bool {
    exists|i: int| 0 <= i < entries.len() && entries[i].timestamp > timestamp
}

/// Some stored entry lies at or before `timestamp`.
pub open spec fn has_at_or_before<V>(entries: Seq<Entry<V>>, timestamp: u64) -> bool {
    exists|i: int| 0 <= i < entries.len() && entries[i].timestamp <= timestamp
}

/// What a nearest-timestamp query returns on entries in non-decreasing
/// timestamp order.
///
/// Forward: the entry at the split point, the first one strictly after
/// `timestamp` (among equal timestamps, the earliest inserted). Backward:
/// the entry just before the split point, the last one at or before
/// `timestamp` (among equal timestamps, the latest inserted). Absence means
/// no entry satisfies the directional constraint.
pub open spec fn nearest_spec<V>(
    entries: Seq<Entry<V>>,
    timestamp: u64,
    direction: Direction,
) -> Option<Entry<V>> {
    let cut = first_after(entries, timestamp);
    match direction {
        Direction::Forward => if cut < entries.len() {
            Some(entries[cut])
        } else {
            None
        },
        Direction::Backward => if cut > 0 {
            Some(entries[cut - 1])
        } else {
            None
        },
    }
}

/// `first_after` indeed splits the sequence: everything before it is at or
/// before `timestamp`, and the entry at it (if any) is strictly after.
pub proof fn lemma_first_after_properties<V>(entries: Seq<Entry<V>>, timestamp: u64)
    ensures
        0 <= first_after(entries, timestamp) <= entries.len(),
        forall|j: int|
            0 <= j < first_after(entries, timestamp) ==> entries[j].timestamp <= timestamp,
        first_after(entries, timestamp) < entries.len()
            ==> entries[first_after(entries, timestamp)].timestamp > timestamp,
    decreases entries.len(),
{
    if entries.len() == 0 {
    } else if entries[0].timestamp > timestamp {
    } else {
        let rest = entries.drop_first();
        lemma_first_after_properties(rest, timestamp);
        let cut = first_after(entries, timestamp);
        assert forall|j: int| 0 <= j < cut implies entries[j].timestamp <= timestamp by {
            if j > 0 {
                assert(rest[j - 1] == entries[j]);
            }
        }
        if cut < entries.len() {
            assert(rest[cut - 1] == entries[cut]);
        }
    }
}

/// A split point is unique: any index with everything before it at or
/// before `timestamp` and everything from it strictly after is `first_after`.
pub proof fn lemma_first_after_unique<V>(entries: Seq<Entry<V>>, timestamp: u64, cut: int)
    requires
        0 <= cut <= entries.len(),
        forall|j: int| 0 <= j < cut ==> entries[j].timestamp <= timestamp,
        forall|j: int| cut <= j < entries.len() ==> entries[j].timestamp > timestamp,
    ensures
        first_after(entries, timestamp) == cut,
{
    lemma_first_after_properties(entries, timestamp);
    let k = first_after(entries, timestamp);
    if k < cut {
        assert(entries[k].timestamp <= timestamp);
        assert(entries[k].timestamp > timestamp);
    }
    if k > cut {
        assert(entries[cut].timestamp <= timestamp);
        assert(entries[cut].timestamp > timestamp);
    }
}

/// The query result is the tightest match on the requested side: with
/// `Forward` it lies strictly after the query point and no stored entry
/// strictly after it lies earlier; with `Backward` it lies at or before the
/// query point and no stored entry at or before it lies later. Absence
/// means no stored entry lies on that side at all.
pub proof fn lemma_nearest_is_tightest<V>(
    entries: Seq<Entry<V>>,
    timestamp: u64,
    direction: Direction,
)
    requires
        sorted_by_time(entries),
    ensures
        direction == Direction::Forward ==> match nearest_spec(entries, timestamp, direction) {
            Some(e) => e.timestamp > timestamp && forall|i: int|
                0 <= i < entries.len() && entries[i].timestamp > timestamp
                    ==> e.timestamp <= #[trigger] entries[i].timestamp,
            None => !has_after(entries, timestamp),
        },
        direction == Direction::Backward ==> match nearest_spec(entries, timestamp, direction) {
            Some(e) => e.timestamp <= timestamp && forall|i: int|
                0 <= i < entries.len() && entries[i].timestamp <= timestamp
                    ==> #[trigger] entries[i].timestamp <= e.timestamp,
            None => !has_at_or_before(entries, timestamp),
        },
{
    lemma_first_after_properties(entries, timestamp);
    let cut = first_after(entries, timestamp);
    match direction {
        Direction::Forward => {
            if cut < entries.len() {
                let e = entries[cut];
                assert forall|i: int|
                    0 <= i < entries.len() && entries[i].timestamp > timestamp
                        implies e.timestamp <= #[trigger] entries[i].timestamp by {
                    if i < cut {
                        assert(entries[i].timestamp <= timestamp);
                    }
                }
            }
        },
        Direction::Backward => {
            if cut > 0 {
                let e = entries[cut - 1];
                assert forall|i: int|
                    0 <= i < entries.len() && entries[i].timestamp <= timestamp
                        implies #[trigger] entries[i].timestamp <= e.timestamp by {
                    if i >= cut {
                        assert(entries[cut].timestamp <= entries[i].timestamp);
                    }
                }
            } else {
                assert forall|i: int| 0 <= i < entries.len()
                    implies entries[i].timestamp > timestamp by {
                    assert(entries[cut].timestamp <= entries[i].timestamp);
                }
            }
        },
    }
}

/// Adjacent order implies full order: a sequence whose neighbouring entries
/// are in non-decreasing timestamp order is sorted by time.
pub proof fn lemma_adjacent_sorted<V>(entries: Seq<Entry<V>>)
    requires
        adjacent_sorted_by_time(entries),
    ensures
        sorted_by_time(entries),
    decreases entries.len(),
{
    if entries.len() > 1 {
        let prefix = entries.drop_last();
        assert forall|i: int, j: int|
            0 <= i && j == i + 1 && j < prefix.len()
                implies prefix[i].timestamp <= prefix[j].timestamp by {
            assert(prefix[i] == entries[i]);
            assert(prefix[j] == entries[j]);
        }
        lemma_adjacent_sorted(prefix);
        let last = entries.len() - 1;
        assert forall|i: int, j: int|
            0 <= i <= j < entries.len() implies entries[i].timestamp <= entries[j].timestamp by {
            if j < last {
                assert(prefix[i] == entries[i]);
                assert(prefix[j] == entries[j]);
            } else if i < j {
                assert(prefix[i] == entries[i]);
                assert(prefix[last - 1] == entries[last - 1]);
                assert(entries[i].timestamp <= entries[last - 1].timestamp);
                assert(entries[last - 1].timestamp <= entries[last].timestamp);
            }
        }
    }
}

/// Binary search over the stored timestamps for the entry nearest to
/// `timestamp` on the side asked for. This is the logarithmic-time read
/// path shared by the chronology types.
pub(crate) fn search_nearest<V: Copy>(
    timestamps: &Vec<u64>,
    values: &Vec<V>,
    timestamp: u64,
    direction: Direction,
) -> (r: Option<Entry<V>>)
    requires
        timestamps@.len() == values@.len(),
        sorted_by_time(zip_entries(timestamps@, values@)),
    ensures
        r == nearest_spec(zip_entries(timestamps@, values@), timestamp, direction),
        direction == Direction::Forward
            ==> (r is Some <==> has_after(zip_entries(timestamps@, values@), timestamp)),
        direction == Direction::Backward
            ==> (r is Some <==> has_at_or_before(zip_entries(timestamps@, values@), timestamp)),
{
    let ghost entries = zip_entries(timestamps@, values@);
    let len = timestamps.len();
    let mut lo: usize = 0;
    let mut hi: usize = len;
    while lo < hi
        invariant
            lo <= hi <= len,
            len == timestamps@.len(),
            timestamps@.len() == values@.len(),
            entries == zip_entries(timestamps@, values@),
            sorted_by_time(entries),
            forall|j: int| 0 <= j < lo ==> entries[j].timestamp <= timestamp,
            forall|j: int| hi <= j < len ==> entries[j].timestamp > timestamp,
        decreases hi - lo,
    {
        let mid = lo + (hi - lo) / 2;
        if timestamps[mid] <= timestamp {
            proof {
                assert forall|j: int| 0 <= j < mid + 1 implies entries[j].timestamp <= timestamp by {
                    assert(entries[j].timestamp <= entries[mid as int].timestamp);
                }
            }
            lo = mid + 1;
        } else {
            proof {
                assert forall|j: int| mid <= j < len implies entries[j].timestamp > timestamp by {
                    assert(entries[mid as int].timestamp <= entries[j].timestamp);
                }
            }
            hi = mid;
        }
    }
    proof {
        lemma_first_after_unique(entries, timestamp, lo as int);
    }
    match direction {
        Direction::Forward => {
            if lo < len {
                Some(Entry::new(timestamps[lo], values[lo]))
            } else {
                None
            }
        },
        Direction::Backward => {
            if lo > 0 {
                Some(Entry::new(timestamps[lo - 1], values[lo - 1]))
            } else {
                None
            }
        },
    }
}

/// Append a batch of entries to the parallel vectors, first checking that
/// the result stays in non-decreasing timestamp order. On a disordered
/// batch nothing is changed. This is the write path shared by the
/// chronology types.
pub(crate) fn append_batch<V: Copy>(
    timestamps: &mut Vec<u64>,
    values: &mut Vec<V>,
    entries: &[Entry<V>],
) -> (r: Result<(), DisorderedInsert>)
    requires
        old(timestamps)@.len() == old(values)@.len(),
        sorted_by_time(zip_entries(old(timestamps)@, old(values)@)),
    ensures
        final(timestamps)@.len() == final(values)@.len(),
        sorted_by_time(zip_entries(final(timestamps)@, final(values)@)),
        r is Ok <==> sorted_by_time(zip_entries(old(timestamps)@, old(values)@) + entries@),
        r is Ok ==> zip_entries(final(timestamps)@, final(values)@)
            == zip_entries(old(timestamps)@, old(values)@) + entries@,
        r is Err ==> final(timestamps)@ == old(timestamps)@ && final(values)@ == old(values)@,
{
    let ghost stored = zip_entries(timestamps@, values@);
    let ghost combined = stored + entries@;
    let n = entries.len();
    if n > 0 {
        let stored_len = timestamps.len();
        if stored_len > 0 && entries[0].timestamp < timestamps[stored_len - 1] {
            proof {
                assert(combined[stored.len() - 1] == stored[stored.len() - 1]);
                assert(combined[stored.len() as int] == entries@[0]);
                assert(!sorted_by_time(combined));
            }
            return Err(DisorderedInsert);
        }
        let mut i: usize = 1;
        while i < n
            invariant
                1 <= i <= n,
                n == entries@.len(),
                timestamps@ == old(timestamps)@,
                values@ == old(values)@,
                timestamps@.len() == values@.len(),
                stored == zip_entries(timestamps@, values@),
                sorted_by_time(stored),
                combined == stored + entries@,
                forall|j: int, k: int|
                    0 <= j && k == j + 1 && k < i ==> entries@[j].timestamp <= entries@[k].timestamp,
            decreases n - i,
        {
            if entries[i].timestamp < entries[i - 1].timestamp {
                proof {
                    assert(combined[stored.len() + i - 1] == entries@[i - 1]);
                    assert(combined[stored.len() + i as int] == entries@[i as int]);
                    assert(!sorted_by_time(combined));
                }
                return Err(DisorderedInsert);
            }
            i += 1;
        }
        proof {
            assert forall|k: int, l: int|
                0 <= k && l == k + 1 && l < combined.len()
                    implies combined[k].timestamp <= combined[l].timestamp by {
                let sl = stored.len() as int;
                if l < sl {
                    assert(combined[k] == stored[k]);
                    assert(combined[l] == stored[l]);
                } else if l == sl {
                    assert(combined[k] == stored[k]);
                    assert(combined[l] == entries@[0]);
                } else {
                    assert(combined[k] == entries@[k - sl]);
                    assert(combined[l] == entries@[l - sl]);
                }
            }
            lemma_adjacent_sorted(combined);
        }
    } else {
        proof {
            assert(combined =~= stored);
        }
    }
    let mut i: usize = 0;
    while i < n
        invariant
            i <= n,
            n == entries@.len(),
            timestamps@.len() == values@.len(),
            zip_entries(timestamps@, values@) == stored + entries@.take(i as int),
        decreases n - i,
    {
        let e = entries[i];
        timestamps.push(e.timestamp);
        values.push(e.value);
        proof {
            let prev = stored + entries@.take(i as int);
            assert(entries@.take(i + 1) =~= entries@.take(i as int).push(e));
            assert(stored + entries@.take(i + 1) =~= prev.push(e));
            assert(zip_entries(timestamps@, values@) =~= prev.push(e));
        }
        i += 1;
    }
    proof {
        assert(entries@.take(n as int) =~= entries@);
        assert(sorted_by_time(combined));
    }
    Ok(())
}

} // verus!
