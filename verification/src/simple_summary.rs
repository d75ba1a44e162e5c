use vstd::prelude::*;
use vstd::std_specs::cmp::PartialOrdSpec;

use core::cmp::Ordering;

use crate::entry::Entry;
use crate::summary::Summary;
use crate::summary::SummaryModel;
use crate::summary::batch_updated;
use crate::summary::lemma_batch_updated_push;

verus! {

/// A [`Summary`] that tracks the running minimum and maximum of all values
/// ever inserted, using the value type's ordering comparison.
///
/// The first entry seeds both bounds with its value, so the tracked minimum
/// and maximum are correct for arbitrary value ranges; until then both hold
/// the value type's default. Whether an entry moves a bound is decided by
/// the value type's `PartialOrd`: wherever that ordering obeys its vstd
/// specification (integers, for instance), the summary state is pinned down
/// by the `updated` model; for types such as floating-point values the
/// updates run unverified.
pub struct SimpleSummary<V: Copy + Default + PartialOrd> {
    /// The minimum value seen by this summary.
    pub min: V,

    /// The maximum value seen by this summary.
    pub max: V,

    /// Whether any entry has been incorporated yet; until then `min` and
    /// `max` hold placeholder values.
    pub seen: bool,
}

impl<V: Copy + Default + PartialOrd> Default for SimpleSummary<V> {
    /// Create a summary that has seen no entries, with both bounds at the
    /// value type's default.
    fn default() -> (r: Self)
        ensures
            r.min == r.max,
            !r.seen,
    {
        let placeholder = V::default();
        SimpleSummary { min: placeholder, max: placeholder, seen: false }
    }
}

impl<V: Copy + Default + PartialOrd> SummaryModel<V> for SimpleSummary<V> {
    open spec fn obeys_update_spec() -> bool {
        V::obeys_partial_cmp_spec()
    }

    open spec fn updated(self, entry: Entry<V>) -> Self {
        if !self.seen {
            SimpleSummary { min: entry.value, max: entry.value, seen: true }
        } else {
            SimpleSummary {
                min: if entry.value.partial_cmp_spec(&self.min) == Some(Ordering::Less) {
                    entry.value
                } else {
                    self.min
                },
                max: if entry.value.partial_cmp_spec(&self.max) == Some(Ordering::Greater) {
                    entry.value
                } else {
                    self.max
                },
                seen: true,
            }
        }
    }
}

impl<V: Copy + Default + PartialOrd> Summary<V> for SimpleSummary<V> {
    fn batch_update(&mut self, entries: &[Entry<V>]) {
        let ghost start = *self;
        let n = entries.len();
        let mut i: usize = 0;
        while i < n
            invariant
                i <= n,
                n == entries@.len(),
                Self::obeys_update_spec()
                    ==> *self == batch_updated(start, entries@.take(i as int)),
            decreases n - i,
        {
            let e = entries[i];
            self.update(&e);
            proof {
                if Self::obeys_update_spec() {
                    lemma_batch_updated_push(start, entries@.take(i as int), e);
                    assert(entries@.take(i + 1) =~= entries@.take(i as int).push(e));
                }
            }
            i += 1;
        }
        proof {
            assert(entries@.take(n as int) =~= entries@);
        }
    }

    fn update(&mut self, entry: &Entry<V>) {
        if !self.seen {
            self.min = entry.value;
            self.max = entry.value;
            self.seen = true;
        } else {
            if entry.value > self.max {
                self.max = entry.value;
            }
            if entry.value < self.min {
                self.min = entry.value;
            }
        }
    }
}

} // verus!
