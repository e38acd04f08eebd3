//! What an executor tells the scheduler about itself.

use vstd::prelude::*;

verus! {

/// The registration of one executor process. The `id` is made once in the life of the
/// process and is the executor's key in the cluster state. `task_slots` is the number of
/// tasks that the executor is willing to run at a time: a hint that the scheduler reads when
/// it assigns work, and that nobody enforces.
#[derive(Debug, PartialEq, Eq)]
pub struct ExecutorRegistration {
    pub id: String,
    /// The host under which other executors reach this one. Where it is `None` the
    /// scheduler uses the address from which the executor connected.
    pub host: Option<String>,
    pub port: u32,
    pub grpc_port: u32,
    pub task_slots: u32,
}

impl Clone for ExecutorRegistration {
    fn clone(&self) -> (r: Self)
        ensures
            r == *self,
    {
        ExecutorRegistration {
            id: self.id.clone(),
            host: match &self.host {
                Some(host) => Some(host.clone()),
                None => None,
            },
            port: self.port,
            grpc_port: self.grpc_port,
            task_slots: self.task_slots,
        }
    }
}

} // verus!
