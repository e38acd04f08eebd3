//! The client protocols that an executor speaks.

pub mod mysql_handler;
