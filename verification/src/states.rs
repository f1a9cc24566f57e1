//! The states of a workload's lifecycle.

pub mod error;
pub mod initializing;
pub mod running;
pub mod starting;
pub mod terminated;
