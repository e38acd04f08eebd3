//! The messages that the components of the cluster exchange, and their getters.

use vstd::prelude::*;

pub mod common;
pub mod meta;
pub mod schema;

verus! {

/// Reports that a message holds no usable value in the field of the given name.
#[derive(Clone, PartialEq, Eq, Debug)]
pub struct ProstFieldNotFound(pub &'static str);

} // verus!
