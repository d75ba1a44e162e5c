//! In-memory store for a single time-ordered stream of values.
//!
//! A [`Chronology`] holds timestamped samples (profiling counters, trace
//! events, and similar high-frequency data captured elsewhere) and answers
//! nearest-timestamp queries over them. Timestamps are plain `u64` values
//! whose unit and origin are up to the producer and consumer of the data.
//!
//! Entries are appended in bulk with [`Chronology::insert_values`], which
//! keeps the storage in non-decreasing timestamp order and rejects a batch
//! that would break that order. Queries with
//! [`Chronology::find_nearest_value`] run a binary search over the stored
//! timestamps and look either [`Direction::Backward`] (the value in force at
//! or before the query point) or [`Direction::Forward`] (the next value that
//! becomes effective strictly after it).
//!
//! A [`Summary`] chosen at construction time observes every inserted entry
//! and maintains derived aggregate state, such as the running minimum and
//! maximum of [`SimpleSummary`]; it never influences what a query returns.

mod chronology;
mod entry;
mod laws;
mod null_summary;
mod simple_summary;
mod store;
mod summary;
mod vector_backed;

pub use crate::chronology::Chronology;
pub use crate::entry::Entry;
pub use crate::laws::lemma_empty_store_query;
pub use crate::laws::lemma_query_idempotent;
pub use crate::laws::lemma_summary_is_side_channel;
pub use crate::null_summary::NullSummary;
pub use crate::simple_summary::SimpleSummary;
pub use crate::store::DisorderedInsert;
pub use crate::store::first_after;
pub use crate::store::has_after;
pub use crate::store::has_at_or_before;
pub use crate::store::lemma_nearest_is_tightest;
pub use crate::store::nearest_spec;
pub use crate::store::sorted_by_time;
pub use crate::store::zip_entries;
pub use crate::summary::Summary;
pub use crate::summary::SummaryModel;
pub use crate::summary::batch_updated;
pub use crate::summary::lemma_batch_updated_push;
pub use crate::vector_backed::VectorChronology;

use vstd::prelude::*;

verus! {

/// Direction to search for a value from a timestamp.
#[derive(Clone, Copy, Debug, PartialEq)]
pub enum Direction {
    /// Search backward from the timestamp: find the entry with the largest
    /// stored timestamp at or before the query point.
    Backward,
    /// Search forward from the timestamp: find the entry with the smallest
    /// stored timestamp strictly after the query point.
    Forward,
}

} // verus!
