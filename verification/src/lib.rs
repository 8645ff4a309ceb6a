//! An in-memory batching primitive.
//!
//! Units, each carrying a derivable identifier, accumulate in insertion order
//! into a pending batch. After every insertion a pluggable policy decides
//! whether the batch is complete: a size threshold, or exact equality between
//! the set of distinct pending identifiers and a target set. The caller may
//! also force-release a partial batch at any time, which consumes the batcher.

pub mod accumulator;
pub mod batcher;
pub mod laws;
pub mod policy;
pub mod unit;

pub use accumulator::VecBatcher;
pub use batcher::Batcher;
pub use batcher::PolicyBatcher;
pub use policy::BatchStatus;
pub use policy::PolicyKind;
pub use unit::KeyUnit;
pub use unit::Unit;
