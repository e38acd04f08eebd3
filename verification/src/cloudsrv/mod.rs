//! The scheduler: the coordinator process of a cluster.

pub mod api;
pub mod config;
pub mod scheduler;
pub mod state;
