//! What every long-running service of the cluster has in common.

pub mod address;
pub mod config_file;
pub mod stoppable;
