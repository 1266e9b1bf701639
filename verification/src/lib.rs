//! Pointer-free addressing of the well-known built-ins of an ECMAScript
//! engine: typed heap indexes, the ordinal tables that place every built-in
//! in its slab, the per-realm registry that resolves a built-in to its
//! handle, the sequencer that populates the reserved slots, and the
//! registry's part in marking and compaction.

pub mod indexes;
pub mod heap_constants;
pub mod heap;
pub mod prototypes;
pub mod intrinsics;
pub mod accessors;
pub mod bootstrap;
pub mod compaction;
pub mod mark_and_sweep;
pub mod collector;
