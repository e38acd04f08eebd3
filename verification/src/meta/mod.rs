//! Metadata that the services keep about databases.

pub mod database;
