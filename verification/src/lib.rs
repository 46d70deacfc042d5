//! Reconciliation core for a cluster operator that manages a blockchain-node
//! custom resource.
//!
//! The library holds the logic that is worth proving: the structural drift
//! detector, the lifecycle state machine, and the per-pass reconciliation
//! planner that decides which child objects (storage claim, restore job, pod)
//! must be created, patched or replaced.  All cluster I/O lives outside the
//! library; callers observe the cluster, hand the observation in as plain
//! values, and execute the returned plan.

pub mod crd;
pub mod drift;
pub mod k8s_helper;
pub mod reconcilier;
pub mod value;
