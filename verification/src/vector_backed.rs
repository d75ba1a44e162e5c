use vstd::prelude::*;

use crate::Direction;
use crate::entry::Entry;
use crate::store::DisorderedInsert;
use crate::store::append_batch;
use crate::store::has_after;
use crate::store::has_at_or_before;
use crate::store::nearest_spec;
use crate::store::search_nearest;
use crate::store::sorted_by_time;
use crate::store::zip_entries;

verus! {

/// A stream of values over time for a single variable, backed by parallel
/// vectors and carrying no summary. Storage and queries behave exactly as
/// in [`Chronology`](crate::Chronology): entries are kept in non-decreasing
/// timestamp order, a disordered batch is rejected whole, and lookups run a
/// binary search.
pub struct VectorChronology<V: Copy> {
    timestamps: Vec<u64>,
    values: Vec<V>,
}

impl<V: Copy> View for VectorChronology<V> {
    type V = Seq<Entry<V>>;

    closed spec fn view(&self) -> Seq<Entry<V>> {
        zip_entries(self.timestamps@, self.values@)
    }
}

impl<V: Copy> VectorChronology<V> {
    /// Storage well-formedness: the parallel timestamp and value sequences
    /// have equal length and the entries stand in non-decreasing timestamp
    /// order. Established by `new` and preserved by every operation.
    pub closed spec fn wf(self) -> bool {
        self.timestamps@.len() == self.values@.len() && sorted_by_time(self@)
    }

    /// Create a new, empty `VectorChronology`.
    pub fn new() -> (c: Self)
        ensures
            c.wf(),
            c@ == Seq::<Entry<V>>::empty(),
    {
        let c = VectorChronology { timestamps: Vec::new(), values: Vec::new() };
        proof {
            assert(c@ =~= Seq::<Entry<V>>::empty());
        }
        c
    }

    /// Find the nearest value in time: with [`Direction::Forward`] the
    /// entry with the smallest stored timestamp strictly after `timestamp`,
    /// with [`Direction::Backward`] the entry with the largest stored
    /// timestamp at or before it, and `None` when no stored entry lies on
    /// the requested side.
    pub fn find_nearest_value(&self, timestamp: u64, direction: Direction) -> (r: Option<
        Entry<V>,
    >)
        requires
            self.wf(),
        ensures
            r == nearest_spec(self@, timestamp, direction),
            direction == Direction::Forward ==> (r is Some <==> has_after(self@, timestamp)),
            direction == Direction::Backward ==> (r is Some <==> has_at_or_before(
                self@,
                timestamp,
            )),
    {
        search_nearest(&self.timestamps, &self.values, timestamp, direction)
    }

    /// Record a set of values and their timestamps. The batch is accepted
    /// exactly when appending it keeps the storage in non-decreasing
    /// timestamp order; every entry is then appended in the order given. A
    /// disordered batch is rejected whole and nothing changes.
    pub fn insert_values(&mut self, values: &[Entry<V>]) -> (r: Result<(), DisorderedInsert>)
        requires
            old(self).wf(),
        ensures
            final(self).wf(),
            r is Ok <==> sorted_by_time(old(self)@ + values@),
            r is Ok ==> final(self)@ == old(self)@ + values@,
            r is Ok ==> final(self)@.len() == old(self)@.len() + values@.len(),
            r is Err ==> final(self)@ == old(self)@,
    {
        append_batch(&mut self.timestamps, &mut self.values, values)
    }

    /// Order invariant: the stored entries of a well-formed chronology
    /// stand in non-decreasing timestamp order.
    pub proof fn lemma_order_invariant(self)
        requires
            self.wf(),
        ensures
            sorted_by_time(self@),
    {
    }
}

} // verus!
