//! The cluster-visible state of a deployment and the stores that hold it.

pub mod backend;
pub mod keys;
pub mod standalone;
pub mod tasks;
