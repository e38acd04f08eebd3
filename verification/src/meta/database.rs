//! Free-form pairs attached to a database.

use vstd::prelude::*;
use vstd::std_specs::cmp::PartialEqSpecImpl;
use vstd::std_specs::convert::FromSpecImpl;

use crate::pb;

verus! {

/// A key with an optional value.
#[derive(Debug)]
pub struct KeyValue {
    pub key: String,
    pub value: Option<String>,
}

impl View for KeyValue {
    type V = (Seq<char>, Option<Seq<char>>);

    open spec fn view(&self) -> (Seq<char>, Option<Seq<char>>) {
        (
            self.key@,
            match self.value {
                Some(v) => Some(v@),
                None => None,
            },
        )
    }
}

impl PartialEq for KeyValue {
    fn eq(&self, other: &Self) -> (r: bool) {
        let keys_agree = self.key == other.key;
        let values_agree = match &self.value {
            Some(a) => match &other.value {
                Some(b) => *a == *b,
                None => false,
            },
            None => other.value.is_none(),
        };
        keys_agree && values_agree
    }
}

impl PartialEqSpecImpl for KeyValue {
    open spec fn obeys_eq_spec() -> bool {
        true
    }

    open spec fn eq_spec(&self, other: &Self) -> bool {
        self@ == other@
    }
}

impl Clone for KeyValue {
    fn clone(&self) -> (r: Self)
        ensures
            r == *self,
    {
        KeyValue {
            key: self.key.clone(),
            value: match &self.value {
                Some(v) => Some(v.clone()),
                None => None,
            },
        }
    }
}

impl From<&KeyValue> for pb::common::KeyValue {
    fn from(kv: &KeyValue) -> (r: pb::common::KeyValue) {
        pb::common::KeyValue {
            key: kv.key.clone(),
            value: match &kv.value {
                Some(v) => Some(v.clone()),
                None => None,
            },
        }
    }
}

impl FromSpecImpl<&KeyValue> for pb::common::KeyValue {
    open spec fn obeys_from_spec() -> bool {
        true
    }

    open spec fn from_spec(kv: &KeyValue) -> pb::common::KeyValue {
        pb::common::KeyValue { key: kv.key, value: kv.value }
    }
}

impl From<KeyValue> for pb::common::KeyValue {
    fn from(kv: KeyValue) -> (r: pb::common::KeyValue) {
        pb::common::KeyValue { key: kv.key, value: kv.value }
    }
}

impl FromSpecImpl<KeyValue> for pb::common::KeyValue {
    open spec fn obeys_from_spec() -> bool {
        true
    }

    open spec fn from_spec(kv: KeyValue) -> pb::common::KeyValue {
        pb::common::KeyValue { key: kv.key, value: kv.value }
    }
}

} // verus!
