//! The configuration of the scheduler.

use vstd::prelude::*;

verus! {

/// The settings that a scheduler runs with. Where they come from (a file, the
/// environment, the command line) is the caller's business.
#[derive(Debug, PartialEq)]
pub struct Config {
    /// The file that the settings were read from; empty where there is none.
    pub config_file: String,
    /// The name of the state backend: `Etcd` or `Standalone`.
    pub config_backend: String,
    /// The namespace of the cluster that this scheduler coordinates.
    pub namespace: String,
    /// Where the networked state backend is reached.
    pub etcd_urls: String,
    /// The host name or address to listen on.
    pub bind_host: String,
    /// The port to listen on.
    pub bind_port: u16,
    /// The name of the task scheduling policy: `PullStaged` or `PushStaged`.
    pub scheduler_policy: String,
}

impl Clone for Config {
    fn clone(&self) -> (r: Self)
        ensures
            r == *self,
    {
        Config {
            config_file: self.config_file.clone(),
            config_backend: self.config_backend.clone(),
            namespace: self.namespace.clone(),
            etcd_urls: self.etcd_urls.clone(),
            bind_host: self.bind_host.clone(),
            bind_port: self.bind_port,
            scheduler_policy: self.scheduler_policy.clone(),
        }
    }
}

impl Default for Config {
    /// The configuration in which every text is empty and the port is zero.
    fn default() -> (r: Self)
        ensures
            r.config_file@.len() == 0,
            r.config_backend@.len() == 0,
            r.namespace@.len() == 0,
            r.etcd_urls@.len() == 0,
            r.bind_host@.len() == 0,
            r.bind_port == 0,
            r.scheduler_policy@.len() == 0,
    {
        Config {
            config_file: String::new(),
            config_backend: String::new(),
            namespace: String::new(),
            etcd_urls: String::new(),
            bind_host: String::new(),
            bind_port: 0,
            scheduler_policy: String::new(),
        }
    }
}

} // verus!
