use vstd::prelude::*;

use core::marker::PhantomData;

use crate::entry::Entry;
use crate::summary::Summary;
use crate::summary::SummaryModel;
use crate::summary::batch_updated;

verus! {

/// A [`Summary`] that does nothing: both update operations leave it
/// unchanged. Used when the caller wants zero overhead and no derived
/// statistics.
pub struct NullSummary<V> {
    phantom: PhantomData<V>,
}

impl<V> Default for NullSummary<V> {
    /// Create the (only) state of a `NullSummary`.
    fn default() -> (r: Self) {
        NullSummary { phantom: PhantomData }
    }
}

impl<V> SummaryModel<V> for NullSummary<V> {
    open spec fn obeys_update_spec() -> bool {
        true
    }

    open spec fn updated(self, entry: Entry<V>) -> Self {
        self
    }
}

impl<V> Summary<V> for NullSummary<V> {
    fn batch_update(&mut self, entries: &[Entry<V>]) {
        proof {
            lemma_null_batch_updated(*self, entries@);
        }
    }

    fn update(&mut self, entry: &Entry<V>) {
    }
}

/// A batch of any length leaves a `NullSummary` unchanged.
proof fn lemma_null_batch_updated<V>(s: NullSummary<V>, entries: Seq<Entry<V>>)
    ensures
        batch_updated(s, entries) == s,
    decreases entries.len(),
{
    if entries.len() > 0 {
        assert(s.updated(entries[0]) == s);
        lemma_null_batch_updated(s, entries.drop_first());
    }
}

} // verus!
