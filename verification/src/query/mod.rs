//! The executor: the process that runs plan fragments and keeps their shuffle data.

pub mod cleanup;
pub mod config;
pub mod executor;
pub mod protocol;
pub mod utils;
