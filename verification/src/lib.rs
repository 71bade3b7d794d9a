//! Hybrid vector search core: the data model that ties fixed-dimensionality
//! vectors to per-vector scalar attributes, the bitmask / predicate filtering
//! abstraction, the dataset state machine (unindexed to indexed), and the
//! contracts for index construction and filtered top-k search.
//!
//! The graph-based ANN engine itself is an external collaborator reached
//! through the [`engine::AnnEngine`] boundary; this crate validates every
//! input before that boundary is crossed, wraps every fault that comes back
//! across it, and proves the filtering and dispatch logic around it.

pub mod bitmask;
pub mod dataset;
pub mod engine;
pub mod oak_dataset;
pub mod predicate;
pub mod vectors;
