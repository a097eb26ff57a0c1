//! A decorator for sequential producers that overrides the advisory size
//! bound a producer reports, without changing the values it yields.
//!
//! Consumers that materialize a produced sequence into a growable container
//! often consult the producer's reported `(lower, upper)` bound to pre-size
//! storage. When the producer cannot compute a useful bound itself, a caller
//! with outside knowledge can attach one here. The bound is purely advisory:
//! decorating a producer never alters, reorders, drops or duplicates the
//! values it yields.

mod bounds;
mod estimate;
mod producer;
mod sources;

pub use bounds::capped_lower;
pub use bounds::dec_or_absent;
pub use bounds::lemma_absent_stays_absent;
pub use bounds::lemma_lower_counts_down;
pub use bounds::lemma_max_size_respects_floor;
pub use bounds::lemma_min_size_respects_ceiling;
pub use bounds::lemma_upper_counts_down;
pub use bounds::lower_after;
pub use bounds::raised_upper;
pub use bounds::sat_dec;
pub use bounds::upper_after;
pub use estimate::EstimateSize;
pub use estimate::SizeEstimate;
pub use producer::collect_values;
pub use producer::Producer;
pub use sources::range_seq;
pub use sources::RangeProducer;
pub use sources::VecProducer;
