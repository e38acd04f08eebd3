//! The configuration of an executor.

use vstd::prelude::*;

use crate::error::HetuError;
use crate::text::equal;

verus! {

/// The settings that an executor runs with. Where they come from (a file, the environment,
/// the command line) is the caller's business.
#[derive(Debug, PartialEq)]
pub struct Config {
    /// The file that the settings were read from; empty where there is none.
    pub config_file: String,
    /// The host of the scheduler.
    pub scheduler_host: String,
    /// The port of the scheduler.
    pub scheduler_port: u16,
    /// The host name or address to listen on.
    pub bind_host: String,
    /// The port to listen on.
    pub bind_port: u16,
    /// The host under which other executors reach this one.
    pub external_host: String,
    /// The port of the executor's RPC service.
    pub bind_grpc_port: u16,
    /// The directory for shuffle data; empty to ask for a temporary one.
    pub work_dir: String,
    /// The number of tasks that the executor runs at a time.
    pub concurrent_tasks: usize,
    /// The name of the task scheduling policy: `PullStaged` or `PushStaged`.
    pub task_scheduling_policy: String,
    /// Whether stale job directories are collected.
    pub executor_cleanup_enable: bool,
    /// The number of seconds between two sweeps of the work directory.
    pub executor_cleanup_interval: u64,
    /// The number of seconds for which a job directory is kept after its last change.
    pub executor_cleanup_ttl: u64,
    /// The host name or address on which the MySQL handler listens.
    pub mysql_handler_host: String,
    /// The port on which the MySQL handler listens.
    pub mysql_handler_port: i32,
}

impl Clone for Config {
    fn clone(&self) -> (r: Self)
        ensures
            r == *self,
    {
        Config {
            config_file: self.config_file.clone(),
            scheduler_host: self.scheduler_host.clone(),
            scheduler_port: self.scheduler_port,
            bind_host: self.bind_host.clone(),
            bind_port: self.bind_port,
            external_host: self.external_host.clone(),
            bind_grpc_port: self.bind_grpc_port,
            work_dir: self.work_dir.clone(),
            concurrent_tasks: self.concurrent_tasks,
            task_scheduling_policy: self.task_scheduling_policy.clone(),
            executor_cleanup_enable: self.executor_cleanup_enable,
            executor_cleanup_interval: self.executor_cleanup_interval,
            executor_cleanup_ttl: self.executor_cleanup_ttl,
            mysql_handler_host: self.mysql_handler_host.clone(),
            mysql_handler_port: self.mysql_handler_port,
        }
    }
}

impl Default for Config {
    /// The configuration in which every text is empty, every number is zero and the
    /// cleanup is off.
    fn default() -> (r: Self)
        ensures
            r.config_file@.len() == 0,
            r.scheduler_host@.len() == 0,
            r.scheduler_port == 0,
            r.bind_host@.len() == 0,
            r.bind_port == 0,
            r.external_host@.len() == 0,
            r.bind_grpc_port == 0,
            r.work_dir@.len() == 0,
            r.concurrent_tasks == 0,
            r.task_scheduling_policy@.len() == 0,
            !r.executor_cleanup_enable,
            r.executor_cleanup_interval == 0,
            r.executor_cleanup_ttl == 0,
            r.mysql_handler_host@.len() == 0,
            r.mysql_handler_port == 0,
    {
        Config {
            config_file: String::new(),
            scheduler_host: String::new(),
            scheduler_port: 0,
            bind_host: String::new(),
            bind_port: 0,
            external_host: String::new(),
            bind_grpc_port: 0,
            work_dir: String::new(),
            concurrent_tasks: 0,
            task_scheduling_policy: String::new(),
            executor_cleanup_enable: false,
            executor_cleanup_interval: 0,
            executor_cleanup_ttl: 0,
            mysql_handler_host: String::new(),
            mysql_handler_port: 0,
        }
    }
}

/// Reads a switch: `true` for the text `true`, and `false` for every other text. It
/// never fails.
pub fn true_or_false(s: &str) -> (r: Result<bool, HetuError>)
    ensures
        r == Ok::<bool, HetuError>(s@ == "true"@),
{
    if equal(s, "true") {
        Ok(true)
    } else {
        Ok(false)
    }
}

} // verus!
