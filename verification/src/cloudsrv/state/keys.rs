//! The layout of the cluster state: the keys under which executors, jobs and tasks are
//! kept inside a namespace.

use vstd::prelude::*;
use vstd::string::StringExecFns;

use crate::cloudsrv::state::tasks::{TaskId, TaskKey};
use crate::text::{concat, decimal, to_decimal};

verus! {

/// The beginning of the key of every executor.
pub open spec fn executors_prefix() -> Seq<char> {
    "executors/"@
}

/// The key of an executor: `executors/{executor_id}`.
pub open spec fn executor_key(executor_id: Seq<char>) -> Seq<char> {
    executors_prefix() + executor_id
}

/// The key of a job: `jobs/{job_id}`.
pub open spec fn job_key(job_id: Seq<char>) -> Seq<char> {
    "jobs/"@ + job_id
}

/// The beginning of the key of every task of a job: `jobs/{job_id}/tasks/`.
pub open spec fn tasks_prefix(job_id: Seq<char>) -> Seq<char> {
    job_key(job_id) + "/tasks/"@
}

/// The key of a task: `jobs/{job_id}/tasks/{stage}/{partition}`, the two numbers in
/// decimal.
pub open spec fn task_key(task: TaskId) -> Seq<char> {
    tasks_prefix(task.job) + decimal(task.stage as nat) + "/"@ + decimal(task.partition as nat)
}

/// The path of a key of a namespace in a store that keeps all namespaces in one tree:
/// `{namespace}/{key}`.
pub open spec fn path(namespace: Seq<char>, key: Seq<char>) -> Seq<char> {
    namespace + "/"@ + key
}

/// The beginning of the key of every executor.
pub fn to_executors_prefix() -> (prefix: String)
    ensures
        prefix@ == executors_prefix(),
{
    String::from_str("executors/")
}

/// The key of an executor.
pub fn to_executor_key(executor_id: &str) -> (key: String)
    ensures
        key@ == executor_key(executor_id@),
{
    concat("executors/", executor_id)
}

/// The key of a job.
pub fn to_job_key(job_id: &str) -> (key: String)
    ensures
        key@ == job_key(job_id@),
{
    concat("jobs/", job_id)
}

/// The beginning of the key of every task of a job.
pub fn to_tasks_prefix(job_id: &str) -> (prefix: String)
    ensures
        prefix@ == tasks_prefix(job_id@),
{
    let mut prefix = to_job_key(job_id);
    prefix.append("/tasks/");
    prefix
}

/// The key of a task.
pub fn to_task_key(task: &TaskKey) -> (key: String)
    ensures
        key@ == task_key(task@),
{
    let mut key = to_tasks_prefix(task.job_id.as_str());
    let stage = to_decimal(task.stage_id as u64);
    key.append(stage.as_str());
    key.append("/");
    let partition = to_decimal(task.partition_id as u64);
    key.append(partition.as_str());
    key
}

/// The path of a key of a namespace.
pub fn to_path(namespace: &str, key: &str) -> (full: String)
    ensures
        full@ == path(namespace@, key@),
{
    let mut full = String::from_str(namespace);
    full.append("/");
    full.append(key);
    full
}

/// A listing under the executors' prefix reaches every executor: the key of each
/// executor begins with the prefix.
pub proof fn executor_keys_share_their_prefix(executor_id: Seq<char>)
    ensures
        executors_prefix().is_prefix_of(executor_key(executor_id)),
{
    assert(executor_key(executor_id).subrange(0, executors_prefix().len() as int)
        =~= executors_prefix());
}

/// A listing under the tasks' prefix of a job reaches every task of the job, and a
/// listing under the key of a job reaches the job and its tasks.
pub proof fn task_keys_share_their_prefix(task: TaskId)
    ensures
        tasks_prefix(task.job).is_prefix_of(task_key(task)),
        job_key(task.job).is_prefix_of(task_key(task)),
        job_key(task.job).is_prefix_of(job_key(task.job)),
{
    let key = task_key(task);
    assert(key.subrange(0, tasks_prefix(task.job).len() as int) =~= tasks_prefix(task.job));
    assert(key.subrange(0, job_key(task.job).len() as int) =~= job_key(task.job));
    assert(job_key(task.job).subrange(0, job_key(task.job).len() as int) =~= job_key(task.job));
}

} // verus!
