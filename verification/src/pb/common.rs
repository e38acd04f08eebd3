//! Messages used by every service.

use vstd::prelude::*;

verus! {

/// A key with an optional value, as it travels in a message.
#[derive(Clone, PartialEq, Eq, Debug)]
pub struct KeyValue {
    pub key: String,
    pub value: Option<String>,
}

impl KeyValue {
    /// The key of the pair.
    pub fn get_key(&self) -> (key: &str)
        ensures
            key@ == self.key@,
    {
        self.key.as_str()
    }
}

} // verus!
