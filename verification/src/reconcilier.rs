//! The reconciliation engine: child-object rendering, the lifecycle state
//! machine, and the per-pass planner.

pub mod implementation;
pub mod pod;
pub mod snapshot;
pub mod status;
pub mod pvc;
