//! Per-workload lifecycle engine of a node agent: the manifest model, the
//! environment resolver, the crash-loop backoff policy and the state machine
//! that drives a workload from initialization to its terminal status.

pub mod backoff;
pub mod engine;
pub mod handles;
pub mod json;
pub mod lifecycle;
pub mod pod;
pub mod provider;
pub mod states;
pub mod status;
pub mod strmap;
