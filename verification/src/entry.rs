use vstd::prelude::*;

verus! {

/// A paired timestamp and value. These are used when storing data within a
/// [`Chronology`](crate::Chronology) and returned when querying.
///
/// No validation is performed at construction: any `u64` timestamp and any
/// value are accepted. Values are copied freely on the way into and out of a
/// store, so they should be cheap, fixed-size types.
#[derive(Clone, Copy, Debug, PartialEq)]
pub struct Entry<V> {
    /// Timestamp for which the value is valid.
    pub timestamp: u64,

    /// The value to be recorded.
    pub value: V,
}

impl<V> Entry<V> {
    /// Create a new [`Entry`].
    pub fn new(timestamp: u64, value: V) -> (e: Entry<V>)
        ensures
            e == (Entry { timestamp, value }),
    {
        Entry { timestamp, value }
    }
}

} // verus!
