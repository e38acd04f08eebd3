//! Cluster coordination for a distributed SQL execution service.

pub mod base;
pub mod cloudsrv;
pub mod error;
pub mod meta;
pub mod pb;
pub mod policy;
pub mod query;
pub mod registration;
pub mod text;
