use vstd::prelude::*;

use crate::entry::Entry;

verus! {

/// The abstract step model of a summary: what one incorporated entry does
/// to the aggregate state.
pub trait SummaryModel<V>: Sized {
    /// Whether the executable updates of this summary are pinned down by the
    /// `updated` model. An implementation whose values admit no specified
    /// ordering (floating point, for instance) may leave this false; its
    /// updates then run unverified.
    spec fn obeys_update_spec() -> bool;

    /// The summary state after incorporating exactly one entry.
    spec fn updated(self, entry: Entry<V>) -> Self;
}

/// The summary state after incorporating each entry in order, one `updated`
/// step at a time. This is the meaning shared by `update` called in a loop
/// and by `batch_update` called once.
pub open spec fn batch_updated<V, S: SummaryModel<V>>(s: S, entries: Seq<Entry<V>>) -> S
    decreases entries.len(),
{
    if entries.len() == 0 {
        s
    } else {
        batch_updated(s.updated(entries[0]), entries.drop_first())
    }
}

/// Pluggable means of maintaining summary information about the data stored
/// in a [`Chronology`](crate::Chronology).
///
/// A summary never reads back from the store; it only receives each inserted
/// entry, and neither operation can fail. Its abstract behaviour is given by
/// the `updated` step function of its [`SummaryModel`]: wherever
/// `obeys_update_spec` holds, one `update` call moves the state by exactly
/// one `updated` step, and `batch_update` is equivalent to one `update` per
/// entry in order.
pub trait Summary<V>: SummaryModel<V> {
    /// Update the summary with a batch of entries.
    ///
    /// Some summary implementations may be able to operate more efficiently
    /// in batch form rather than updating over and over for each individual
    /// [`Entry`]. The result must equal one `update` per entry in order.
    fn batch_update(&mut self, entries: &[Entry<V>])
        ensures
            Self::obeys_update_spec()
                ==> *final(self) == batch_updated(*old(self), entries@),
    ;

    /// Update the summary with a single new [`Entry`].
    fn update(&mut self, entry: &Entry<V>)
        ensures
            Self::obeys_update_spec() ==> *final(self) == old(self).updated(*entry),
    ;
}

/// Batch/incremental equivalence, one step at a time: incorporating a batch
/// and then one more entry is the same as incorporating the batch with that
/// entry appended.
pub proof fn lemma_batch_updated_push<V, S: SummaryModel<V>>(
    s: S,
    entries: Seq<Entry<V>>,
    entry: Entry<V>,
)
    ensures
        batch_updated(s, entries.push(entry)) == batch_updated(s, entries).updated(entry),
    decreases entries.len(),
{
    if entries.len() == 0 {
        assert(entries.push(entry)[0] == entry);
        assert(entries.push(entry).drop_first() =~= Seq::<Entry<V>>::empty());
        assert(batch_updated(s, entries.push(entry))
            == batch_updated(s.updated(entry), Seq::<Entry<V>>::empty()));
        assert(batch_updated(s.updated(entry), Seq::<Entry<V>>::empty()) == s.updated(entry));
        assert(batch_updated(s, entries) == s);
    } else {
        assert(entries.push(entry)[0] == entries[0]);
        assert(entries.push(entry).drop_first() =~= entries.drop_first().push(entry));
        lemma_batch_updated_push(s.updated(entries[0]), entries.drop_first(), entry);
        assert(batch_updated(s, entries.push(entry))
            == batch_updated(s.updated(entries[0]), entries.drop_first().push(entry)));
        assert(batch_updated(s, entries)
            == batch_updated(s.updated(entries[0]), entries.drop_first()));
    }
}

} // verus!
