//! How an executor comes up: what it registers and what it runs.

use vstd::prelude::*;
use vstd::string::StringExecFns;

use crate::base::address::{is_socket_address, names_socket_address};
use crate::cloudsrv::scheduler::{socket_address, to_socket_address};
use crate::error::{HetuError, HetuErrorView};
use crate::policy::TaskSchedulingPolicy;
use crate::query::config::Config;
use crate::registration::ExecutorRegistration;
use crate::text::{concat, decimal};

verus! {

/// Where an executor keeps its shuffle data.
#[derive(Debug, PartialEq, Eq)]
pub enum WorkDir {
    /// A fresh temporary directory, to be made by the caller.
    Temporary,
    /// The directory that the configuration names.
    Configured(String),
}

/// When and how the collector of stale shuffle data runs.
#[derive(Clone, Copy, Debug, PartialEq, Eq, Structural)]
pub struct Cleanup {
    /// The number of seconds between two sweeps.
    pub interval_seconds: u64,
    /// The number of seconds for which a job directory is kept after its last change.
    pub ttl_seconds: i64,
}

/// What an executor needs to know to come up, read from its configuration.
#[derive(Debug)]
pub struct Startup {
    /// What the executor registers with the scheduler.
    pub registration: ExecutorRegistration,
    /// The address to listen on, as host, colon and port.
    pub address: String,
    /// The URL of the scheduler.
    pub scheduler_url: String,
    pub work_dir: WorkDir,
    /// Whether the executor asks for its tasks or is handed them.
    pub policy: TaskSchedulingPolicy,
    /// The collector's schedule; `None` where the collector is off.
    pub cleanup: Option<Cleanup>,
}

/// The URL of a scheduler at a host and a port.
pub open spec fn scheduler_url(host: Seq<char>, port: nat) -> Seq<char> {
    "http://"@ + socket_address(host, port)
}

/// The number of task slots that a configured number of concurrent tasks registers as:
/// the number itself where it fits in 32 bits, and the greatest number of 32 bits where it
/// does not.
pub open spec fn task_slots(concurrent_tasks: usize) -> u32 {
    if concurrent_tasks <= u32::MAX {
        concurrent_tasks as u32
    } else {
        u32::MAX
    }
}

/// The time to live that the collector works with, for a configured number of seconds: the
/// number itself where it fits in 63 bits, and the greatest number of 63 bits where it does
/// not. A job directory is never kept for a shorter time than was configured because the
/// configured time is large.
pub open spec fn ttl_seconds(configured: u64) -> i64 {
    if configured <= i64::MAX {
        configured as i64
    } else {
        i64::MAX
    }
}

/// The address that the configuration asks an executor to listen on.
pub open spec fn executor_address(conf: Config) -> Seq<char> {
    socket_address(conf.bind_host@, conf.bind_port as nat)
}

/// The error of a startup whose configured address is not the literal of a socket address.
pub open spec fn address_error(conf: Config) -> HetuErrorView {
    HetuErrorView::Internal("Could not parse address: "@ + executor_address(conf))
}

/// Whether `plan` is what the configuration asks for at the startup of an executor with
/// the given id.
pub open spec fn is_startup(plan: Startup, conf: Config, id: Seq<char>) -> bool {
    &&& plan.registration.id@ == id
    &&& plan.registration.host matches Some(host) && host@ == conf.external_host@
    &&& plan.registration.port == conf.bind_port
    &&& plan.registration.grpc_port == conf.bind_grpc_port
    &&& plan.registration.task_slots == task_slots(conf.concurrent_tasks)
    &&& plan.address@ == executor_address(conf)
    &&& plan.scheduler_url@ == scheduler_url(conf.scheduler_host@, conf.scheduler_port as nat)
    &&& match plan.work_dir {
        WorkDir::Temporary => conf.work_dir@.len() == 0,
        WorkDir::Configured(path) => conf.work_dir@.len() != 0 && path@ == conf.work_dir@,
    }
    &&& plan.policy == TaskSchedulingPolicy::named(conf.task_scheduling_policy@)
    &&& plan.cleanup == if conf.executor_cleanup_enable {
        Some(
            Cleanup {
                interval_seconds: conf.executor_cleanup_interval,
                ttl_seconds: ttl_seconds(conf.executor_cleanup_ttl),
            },
        )
    } else {
        None
    }
}

fn to_task_slots(concurrent_tasks: usize) -> (slots: u32)
    ensures
        slots == task_slots(concurrent_tasks),
{
    if concurrent_tasks <= 0xffff_ffff {
        concurrent_tasks as u32
    } else {
        0xffff_ffff
    }
}

fn to_ttl_seconds(configured: u64) -> (ttl: i64)
    ensures
        ttl == ttl_seconds(configured),
{
    if configured <= 0x7fff_ffff_ffff_ffff {
        configured as i64
    } else {
        0x7fff_ffff_ffff_ffff
    }
}

/// Reads from the configuration what an executor with the given id registers and runs,
/// given whether the configured address is the literal of a socket address. An address
/// that is none is refused with an internal error that names it.
pub fn plan_startup(conf: &Config, id: String, address_is_valid: bool) -> (r: Result<
    Startup,
    HetuError,
>)
    ensures
        match r {
            Ok(plan) => address_is_valid && is_startup(plan, *conf, id@),
            Err(e) => !address_is_valid && e@ == address_error(*conf),
        },
{
    let address = to_socket_address(conf.bind_host.as_str(), conf.bind_port);
    if !address_is_valid {
        return Err(HetuError::Internal(concat("Could not parse address: ", address.as_str())));
    }
    let registration = ExecutorRegistration {
        id,
        host: Some(conf.external_host.clone()),
        port: conf.bind_port as u32,
        grpc_port: conf.bind_grpc_port as u32,
        task_slots: to_task_slots(conf.concurrent_tasks),
    };
    let scheduler_address = to_socket_address(conf.scheduler_host.as_str(), conf.scheduler_port);
    let scheduler_url = concat("http://", scheduler_address.as_str());
    let work_dir = if conf.work_dir.as_str().is_empty() {
        WorkDir::Temporary
    } else {
        WorkDir::Configured(conf.work_dir.clone())
    };
    let cleanup = if conf.executor_cleanup_enable {
        Some(
            Cleanup {
                interval_seconds: conf.executor_cleanup_interval,
                ttl_seconds: to_ttl_seconds(conf.executor_cleanup_ttl),
            },
        )
    } else {
        None
    };
    Ok(
        Startup {
            registration,
            address,
            scheduler_url,
            work_dir,
            policy: TaskSchedulingPolicy::from_name(conf.task_scheduling_policy.as_str()),
            cleanup,
        },
    )
}

/// Makes the id of an executor process.
///
/// Trusted: calls `uuid::Uuid::new_v4` and writes the result with its `Display`, which is
/// the hyphenated form: 36 characters. Which id comes back is left open.
#[verifier::external_body]
fn new_executor_id() -> (id: String)
    ensures
        id@.len() == 36,
{
    uuid::Uuid::new_v4().to_string()
}

/// Reads from the configuration what an executor registers and runs, under an id made for
/// this process. It succeeds exactly where the configured host and port are the literal of
/// a socket address.
pub fn startup(conf: &Config) -> (r: Result<Startup, HetuError>)
    ensures
        r is Ok <==> names_socket_address(executor_address(*conf)),
        match r {
            Ok(plan) => is_startup(plan, *conf, plan.registration.id@)
                && plan.registration.id@.len() == 36,
            Err(e) => e@ == address_error(*conf),
        },
{
    let address = to_socket_address(conf.bind_host.as_str(), conf.bind_port);
    let valid = is_socket_address(address.as_str());
    if valid {
        plan_startup(conf, new_executor_id(), true)
    } else {
        plan_startup(conf, String::new(), false)
    }
}

} // verus!
