//! Messages of the metadata service.

use vstd::prelude::*;

use crate::pb::common::KeyValue;

verus! {

/// The description of one database of a tenant.
#[derive(Clone, PartialEq, Eq, Debug)]
pub struct DatabaseInfo {
    pub tenant_name: String,
    pub database_name: String,
    pub creation_time: Option<i64>,
    pub modification_time: Option<i64>,
    pub metadata: Vec<KeyValue>,
    pub quota_in_bytes: Option<u64>,
    pub quota_in_table: Option<u64>,
    pub used_namespace_in_bytes: Option<u64>,
    pub object_id: Option<u64>,
    pub update_id: Option<u64>,
}

impl DatabaseInfo {
    /// The name of the tenant that owns the database.
    pub fn get_tenant_name(&self) -> (name: &str)
        ensures
            name@ == self.tenant_name@,
    {
        self.tenant_name.as_str()
    }

    /// The name of the database.
    pub fn get_database_name(&self) -> (name: &str)
        ensures
            name@ == self.database_name@,
    {
        self.database_name.as_str()
    }

    /// The free-form pairs attached to the database.
    pub fn get_metadata(&self) -> (metadata: &Vec<KeyValue>)
        ensures
            *metadata == self.metadata,
    {
        &self.metadata
    }
}

} // verus!
