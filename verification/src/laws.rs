//! Laws that hold across the library's operations, stated over the spec
//! functions that the operations' contracts use.

use vstd::prelude::*;

use crate::Direction;
use crate::chronology::Chronology;
use crate::entry::Entry;
use crate::store::nearest_spec;
use crate::summary::Summary;

verus! {

/// Empty store: a query on a sequence with no entries returns `None`, for
/// either direction and any query timestamp.
pub proof fn lemma_empty_store_query<V>(entries: Seq<Entry<V>>, timestamp: u64, direction: Direction)
    requires
        entries.len() == 0,
    ensures
        nearest_spec(entries, timestamp, direction) is None,
{
}

/// Summaries are a side channel: two chronologies holding the same entries
/// answer every query alike, whatever summary types they carry. Together
/// with the `insert_values` contract — which makes the stored entries a
/// function of the previous entries and the batch alone — this means that
/// inserting any sequence of batches under one summary type never alters
/// observable query results compared to any other.
pub proof fn lemma_summary_is_side_channel<
    V: Copy,
    S1: Default + Summary<V>,
    S2: Default + Summary<V>,
>(
    c1: Chronology<V, S1>,
    c2: Chronology<V, S2>,
    timestamp: u64,
    direction: Direction,
)
    requires
        c1@ == c2@,
    ensures
        nearest_spec(c1@, timestamp, direction) == nearest_spec(c2@, timestamp, direction),
{
}

/// Queries are idempotent: any two results obtained for the same arguments
/// on an unmodified store — each pinned by the `find_nearest_value`
/// contract to `nearest_spec` — are equal.
pub proof fn lemma_query_idempotent<V: Copy, S: Default + Summary<V>>(
    c: Chronology<V, S>,
    timestamp: u64,
    direction: Direction,
    r1: Option<Entry<V>>,
    r2: Option<Entry<V>>,
)
    requires
        r1 == nearest_spec(c@, timestamp, direction),
        r2 == nearest_spec(c@, timestamp, direction),
    ensures
        r1 == r2,
{
}

} // verus!
