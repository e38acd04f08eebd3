//! Helpers of the client protocols.

pub mod query_results_writer;
