use vstd::prelude::*;

use crate::Direction;
use crate::entry::Entry;
use crate::store::DisorderedInsert;
use crate::store::append_batch;
use crate::store::has_after;
use crate::store::has_at_or_before;
use crate::store::nearest_spec;
use crate::store::search_nearest;
use crate::store::sorted_by_time;
use crate::store::zip_entries;
use crate::summary::Summary;
use crate::summary::batch_updated;

verus! {

/// A stream of values over time for a single variable.
///
/// A chronology stores timestamped values where the timestamp is when the
/// new value was set. Its view `self@` is the stored sequence of entries,
/// kept in non-decreasing timestamp order so that queries can run a binary
/// search; a batch of values that would break that order is rejected whole
/// with [`DisorderedInsert`].
///
/// ## Values
///
/// Values stored within a `Chronology` must implement the `Copy` trait.
/// Values are copied when they are stored within the `Chronology`. For this
/// reason, it is typically advisable to keep them simple and easy to copy if
/// you're dealing with large numbers of values and need the highest levels
/// of performance.
///
/// ## Nature of Timestamps
///
/// Timestamps are represented as unsigned 64 bit integer values. The exact
/// interpretation of this value is up to the producer and consumer of the
/// data: 1 unit may be a second, a nanosecond, or anything else, counted
/// from whatever origin the application picks.
///
/// ## Summaries
///
/// A [`Summary`] implementation chosen at construction time observes every
/// inserted entry and maintains derived aggregate state. It is a side
/// channel only: what a query returns never depends on it.
pub struct Chronology<V: Copy, S: Default + Summary<V>> {
    timestamps: Vec<u64>,
    values: Vec<V>,
    summary: S,
}

impl<V: Copy, S: Default + Summary<V>> View for Chronology<V, S> {
    type V = Seq<Entry<V>>;

    closed spec fn view(&self) -> Seq<Entry<V>> {
        zip_entries(self.timestamps@, self.values@)
    }
}

impl<V: Copy, S: Default + Summary<V>> Chronology<V, S> {
    /// Storage well-formedness: the parallel timestamp and value sequences
    /// have equal length and the entries stand in non-decreasing timestamp
    /// order. Established by `new` and preserved by every operation.
    pub closed spec fn wf(self) -> bool {
        self.timestamps@.len() == self.values@.len() && sorted_by_time(self@)
    }

    /// The summary state currently held by this chronology.
    pub closed spec fn summary_state(self) -> S {
        self.summary
    }

    /// Create a new, empty `Chronology`, default-constructing its summary.
    pub fn new() -> (c: Self)
        ensures
            c.wf(),
            c@ == Seq::<Entry<V>>::empty(),
    {
        let c = Chronology { timestamps: Vec::new(), values: Vec::new(), summary: S::default() };
        proof {
            assert(c@ =~= Seq::<Entry<V>>::empty());
        }
        c
    }

    /// Find the nearest value in time: with [`Direction::Forward`] the
    /// entry with the smallest stored timestamp strictly after `timestamp`
    /// (among equal timestamps, the earliest inserted), with
    /// [`Direction::Backward`] the entry with the largest stored timestamp
    /// at or before it (among equal timestamps, the latest inserted), and
    /// `None` when no stored entry lies on the requested side.
    pub fn find_nearest_value(&self, timestamp: u64, direction: Direction) -> (r: Option<
        Entry<V>,
    >)
        requires
            self.wf(),
        ensures
            r == nearest_spec(self@, timestamp, direction),
            direction == Direction::Forward ==> (r is Some <==> has_after(self@, timestamp)),
            direction == Direction::Backward ==> (r is Some <==> has_at_or_before(
                self@,
                timestamp,
            )),
    {
        search_nearest(&self.timestamps, &self.values, timestamp, direction)
    }

    /// Record a set of values and their timestamps.
    ///
    /// The batch is accepted exactly when appending it keeps the storage in
    /// non-decreasing timestamp order; every entry is then appended in the
    /// order given, none dropped, reordered or deduplicated, and the same
    /// sequence is forwarded to the summary's batch update exactly once (an
    /// empty batch is a no-op that the summary still observes). A
    /// disordered batch is rejected whole: the error is returned and
    /// nothing — storage or summary — changes.
    pub fn insert_values(&mut self, values: &[Entry<V>]) -> (r: Result<(), DisorderedInsert>)
        requires
            old(self).wf(),
        ensures
            final(self).wf(),
            r is Ok <==> sorted_by_time(old(self)@ + values@),
            r is Ok ==> final(self)@ == old(self)@ + values@,
            r is Ok ==> final(self)@.len() == old(self)@.len() + values@.len(),
            r is Ok ==> (S::obeys_update_spec() ==> final(self).summary_state()
                == batch_updated(old(self).summary_state(), values@)),
            r is Err ==> final(self)@ == old(self)@ && final(self).summary_state() == old(
                self,
            ).summary_state(),
    {
        match append_batch(&mut self.timestamps, &mut self.values, values) {
            Ok(()) => {
                self.summary.batch_update(values);
                Ok(())
            },
            Err(e) => Err(e),
        }
    }

    /// Order invariant: the stored entries of a well-formed chronology
    /// stand in non-decreasing timestamp order.
    pub proof fn lemma_order_invariant(self)
        requires
            self.wf(),
        ensures
            sorted_by_time(self@),
    {
    }
}

} // verus!
