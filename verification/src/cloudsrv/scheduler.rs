//! The handler that brings a scheduler up from its configuration, and the order in which
//! the scheduler's server comes up and goes down.

use vstd::prelude::*;
use vstd::string::StringExecFns;

use crate::base::address::{is_socket_address, names_socket_address};
use crate::base::stoppable::{ForceSignal, Lifecycle, ServiceState, Stoppable};
use crate::cloudsrv::config::Config;
use crate::cloudsrv::state::backend::StateBackend;
use crate::error::{HetuError, HetuErrorView};
use crate::policy::TaskSchedulingPolicy;
use crate::text::{concat, decimal, to_decimal};

verus! {

/// What a scheduler needs to know to come up, read from its configuration.
#[derive(Debug)]
pub struct Startup {
    /// The namespace under which the scheduler keeps the cluster state.
    pub namespace: String,
    /// The address to listen on, as host, colon and port.
    pub address: String,
    /// The store to attach to before listening.
    pub backend: StateBackend,
    /// Where the networked store is reached.
    pub etcd_urls: String,
    /// How tasks reach the executors.
    pub policy: TaskSchedulingPolicy,
}

/// A host and a port as the text of a socket address.
pub open spec fn socket_address(host: Seq<char>, port: nat) -> Seq<char> {
    host + seq![':'] + decimal(port)
}

/// Writes a host and a port as the text of a socket address.
pub fn to_socket_address(host: &str, port: u16) -> (address: String)
    ensures
        address@ == socket_address(host@, port as nat),
{
    proof {
        reveal_strlit(":");
        assert(":"@ =~= seq![':']);
    }
    let mut address = String::from_str(host);
    address.append(":");
    let digits = to_decimal(port as u64);
    address.append(digits.as_str());
    address
}

/// A scheduler with its configuration. It is started once and stopped once. A start has
/// two steps: the handler says what to attach to and where to listen, and the caller
/// reports whether the server listens. Only a server that listens makes the scheduler
/// `Started`: a start that failed leaves it `Created`.
pub struct SchedulerHandler {
    conf: Config,
    life: Lifecycle,
}

impl SchedulerHandler {
    /// The configuration that the handler was made with.
    pub closed spec fn config(&self) -> Config {
        self.conf
    }

    /// Where the scheduler stands in its life.
    pub closed spec fn state(&self) -> ServiceState {
        self.life.state()
    }

    /// The address that the configuration asks to listen on.
    pub open spec fn address(&self) -> Seq<char> {
        socket_address(self.config().bind_host@, self.config().bind_port as nat)
    }

    /// What the configuration asks for at startup.
    pub open spec fn startup(&self, plan: Startup) -> bool {
        &&& plan.namespace@ == self.config().namespace@
        &&& plan.address@ == self.address()
        &&& plan.backend == StateBackend::named(self.config().config_backend@)
        &&& plan.etcd_urls@ == self.config().etcd_urls@
        &&& plan.policy == TaskSchedulingPolicy::named(self.config().scheduler_policy@)
    }

    /// The error of a start whose configured address is not the literal of a socket
    /// address.
    pub open spec fn address_error(address: Seq<char>) -> HetuErrorView {
        HetuErrorView::Internal("invalid socket address: "@ + address)
    }

    /// The error of a start that failed in the caller's hands: the state backend could
    /// not be attached, or the address could not be bound.
    pub open spec fn start_error(address: Seq<char>, cause: Seq<char>) -> HetuErrorView {
        HetuErrorView::External("Could not start the scheduler on "@ + address + ": "@ + cause)
    }

    /// A handler for a scheduler with the given configuration.
    pub fn new(conf: Config) -> (handler: SchedulerHandler)
        ensures
            handler.config() == conf,
            handler.state() == ServiceState::Created,
    {
        SchedulerHandler { conf, life: Lifecycle::new() }
    }

    /// Where the scheduler stands in its life.
    pub fn current(&self) -> (state: ServiceState)
        ensures
            state == self.state(),
    {
        self.life.current()
    }

    /// Begins a start, given whether the configured address is the literal of a socket
    /// address. Where the scheduler is `Created` and the address is one, it says what to
    /// attach to and where to listen. A scheduler that was started before refuses with an
    /// internal error that names the misuse; an address that is none is refused with an
    /// internal error that names the address. The scheduler stays in the state it is in.
    pub fn start_with(&mut self, address_is_valid: bool) -> (r: Result<Startup, HetuError>)
        ensures
            final(self).config() == old(self).config(),
            final(self).state() == old(self).state(),
            match r {
                Ok(plan) => {
                    &&& old(self).state() == ServiceState::Created
                    &&& address_is_valid
                    &&& old(self).startup(plan)
                },
                Err(e) => if old(self).state() != ServiceState::Created {
                    e@ == HetuErrorView::Internal(old(self).state().start_refusal())
                } else {
                    !address_is_valid && e@ == Self::address_error(old(self).address())
                },
            },
    {
        match self.life.current() {
            ServiceState::Created => {},
            ServiceState::Started => {
                return Err(HetuError::Internal(String::from_str("service already started")));
            },
            ServiceState::Stopped => {
                return Err(HetuError::Internal(String::from_str("service already stopped")));
            },
        }
        let address = to_socket_address(self.conf.bind_host.as_str(), self.conf.bind_port);
        if !address_is_valid {
            return Err(HetuError::Internal(concat("invalid socket address: ", address.as_str())));
        }
        Ok(
            Startup {
                namespace: self.conf.namespace.clone(),
                address,
                backend: StateBackend::from_name(self.conf.config_backend.as_str()),
                etcd_urls: self.conf.etcd_urls.clone(),
                policy: TaskSchedulingPolicy::from_name(self.conf.scheduler_policy.as_str()),
            },
        )
    }

    /// Begins a start: says what to attach to and where to listen. It succeeds exactly
    /// where the scheduler is `Created` and the configured host and port are the literal
    /// of a socket address; nothing is attached and nothing listens where it fails. The
    /// scheduler stays in the state it is in: the caller attaches, binds and serves, and
    /// reports a server that listens with [`SchedulerHandler::serving`] or a failure with
    /// [`SchedulerHandler::start_failed`].
    pub fn start(&mut self) -> (r: Result<Startup, HetuError>)
        ensures
            final(self).config() == old(self).config(),
            final(self).state() == old(self).state(),
            old(self).state() == ServiceState::Created ==> (r is Ok <==> names_socket_address(
                old(self).address(),
            )),
            match r {
                Ok(plan) => old(self).state() == ServiceState::Created && old(self).startup(plan),
                Err(e) => if old(self).state() != ServiceState::Created {
                    e@ == HetuErrorView::Internal(old(self).state().start_refusal())
                } else {
                    e@ == Self::address_error(old(self).address())
                },
            },
    {
        let address = to_socket_address(self.conf.bind_host.as_str(), self.conf.bind_port);
        let valid = is_socket_address(address.as_str());
        self.start_with(valid)
    }

    /// Ends a start that succeeded: the state backend is attached and the server listens.
    /// It makes a `Created` scheduler `Started`. In any other state it is refused as a
    /// start is, and the scheduler stays as it is.
    pub fn serving(&mut self) -> (r: Result<(), HetuError>)
        ensures
            final(self).config() == old(self).config(),
            match r {
                Ok(()) => old(self).state() == ServiceState::Created && final(self).state()
                    == ServiceState::Started,
                Err(e) => old(self).state() != ServiceState::Created && final(self).state()
                    == old(self).state() && e@ == HetuErrorView::Internal(
                    old(self).state().start_refusal(),
                ),
            },
    {
        self.life.start()
    }

    /// Ends a start that failed: gives the error of the start, an external error that
    /// holds the address and the cause. The scheduler is not changed by it, so a scheduler
    /// whose start failed is still `Created` and can be started again.
    pub fn start_failed(&self, cause: &str) -> (e: HetuError)
        ensures
            e@ == Self::start_error(self.address(), cause@),
    {
        let address = to_socket_address(self.conf.bind_host.as_str(), self.conf.bind_port);
        let mut text = concat("Could not start the scheduler on ", address.as_str());
        text.append(": ");
        text.append(cause);
        HetuError::External(text)
    }

    /// Stops the scheduler, once its server has released the socket. It succeeds exactly
    /// where the scheduler is `Started`; a scheduler that was never started, or has
    /// stopped, refuses with an internal error and stays as it is.
    pub fn stop(&mut self, force: Option<ForceSignal>) -> (r: Result<(), HetuError>)
        ensures
            final(self).config() == old(self).config(),
            match r {
                Ok(()) => old(self).state() == ServiceState::Started && final(self).state()
                    == ServiceState::Stopped,
                Err(e) => old(self).state() != ServiceState::Started && final(self).state()
                    == old(self).state() && e@ == HetuErrorView::Internal(
                    old(self).state().stop_refusal(),
                ),
            },
    {
        self.life.stop(force)
    }
}

/// Where the scheduler's server stands between the start of the process and its end.
#[derive(Clone, Copy, Debug, PartialEq, Eq, Structural)]
pub enum ServerPhase {
    /// Nothing has been done yet.
    Created,
    /// Waiting for the state backend to answer.
    Attaching,
    /// Attached to the state backend; waiting for the socket.
    Binding,
    /// Listening and accepting connections.
    Serving,
    /// A termination signal came: no new connection is accepted, and the requests in
    /// flight run to their end.
    Draining,
    /// The socket is released; the process ends with success.
    Stopped,
    /// Startup failed; the process ends with a failure status.
    Failed,
}

/// What the process around the server reports to it.
#[derive(Clone, Copy, Debug, PartialEq, Eq, Structural)]
pub enum ServerEvent {
    /// The process asks the server to come up.
    Start,
    /// The state backend is attached.
    BackendReady,
    /// The state backend cannot be reached.
    BackendUnreachable,
    /// The listening socket is bound.
    Bound,
    /// The listening socket cannot be bound.
    BindFailed,
    /// The process was told to terminate.
    TerminationSignal,
    /// The last request in flight has completed.
    RequestsCompleted,
}

/// What the server asks the process around it to do next.
#[derive(Clone, Copy, Debug, PartialEq, Eq, Structural)]
pub enum ServerAction {
    /// Attach to the state backend.
    AttachBackend,
    /// Bind the listening socket.
    Bind,
    /// Accept connections and serve their requests.
    Accept,
    /// Accept no more connections; let the requests in flight complete.
    StopAccepting,
    /// Release the listening socket and end with success.
    ReleaseSocket,
    /// Log the error and end the process with a failure status.
    Abort,
    /// The event asks for nothing in this phase.
    Nothing,
}

impl ServerPhase {
    /// The phase that follows when an event arrives. An event that the phase does not
    /// wait for leaves the phase as it is.
    pub open spec fn next(self, event: ServerEvent) -> ServerPhase {
        match (self, event) {
            (ServerPhase::Created, ServerEvent::Start) => ServerPhase::Attaching,
            (ServerPhase::Attaching, ServerEvent::BackendReady) => ServerPhase::Binding,
            (ServerPhase::Attaching, ServerEvent::BackendUnreachable) => ServerPhase::Failed,
            (ServerPhase::Binding, ServerEvent::Bound) => ServerPhase::Serving,
            (ServerPhase::Binding, ServerEvent::BindFailed) => ServerPhase::Failed,
            (ServerPhase::Serving, ServerEvent::TerminationSignal) => ServerPhase::Draining,
            (ServerPhase::Draining, ServerEvent::RequestsCompleted) => ServerPhase::Stopped,
            _ => self,
        }
    }

    /// What the process is asked to do when an event arrives.
    pub open spec fn action(self, event: ServerEvent) -> ServerAction {
        match (self, event) {
            (ServerPhase::Created, ServerEvent::Start) => ServerAction::AttachBackend,
            (ServerPhase::Attaching, ServerEvent::BackendReady) => ServerAction::Bind,
            (ServerPhase::Attaching, ServerEvent::BackendUnreachable) => ServerAction::Abort,
            (ServerPhase::Binding, ServerEvent::Bound) => ServerAction::Accept,
            (ServerPhase::Binding, ServerEvent::BindFailed) => ServerAction::Abort,
            (ServerPhase::Serving, ServerEvent::TerminationSignal) => ServerAction::StopAccepting,
            (ServerPhase::Draining, ServerEvent::RequestsCompleted) => ServerAction::ReleaseSocket,
            _ => ServerAction::Nothing,
        }
    }

    /// The phase that a server reaches from `self` through a sequence of events.
    pub open spec fn run(self, events: Seq<ServerEvent>) -> ServerPhase
        decreases events.len(),
    {
        if events.len() == 0 {
            self
        } else {
            self.run(events.drop_last()).next(events.last())
        }
    }

    /// Whether the server holds, or has held, the listening socket.
    pub open spec fn has_listened(self) -> bool {
        self == ServerPhase::Serving || self == ServerPhase::Draining || self
            == ServerPhase::Stopped
    }
}

/// Moves the scheduler's server one step: takes the phase it is in and the event that
/// arrived, and gives the phase that follows and what to do next.
pub fn start_server(phase: ServerPhase, event: ServerEvent) -> (step: (ServerPhase, ServerAction))
    ensures
        step.0 == phase.next(event),
        step.1 == phase.action(event),
{
    match phase {
        ServerPhase::Created => match event {
            ServerEvent::Start => (ServerPhase::Attaching, ServerAction::AttachBackend),
            _ => (phase, ServerAction::Nothing),
        },
        ServerPhase::Attaching => match event {
            ServerEvent::BackendReady => (ServerPhase::Binding, ServerAction::Bind),
            ServerEvent::BackendUnreachable => (ServerPhase::Failed, ServerAction::Abort),
            _ => (phase, ServerAction::Nothing),
        },
        ServerPhase::Binding => match event {
            ServerEvent::Bound => (ServerPhase::Serving, ServerAction::Accept),
            ServerEvent::BindFailed => (ServerPhase::Failed, ServerAction::Abort),
            _ => (phase, ServerAction::Nothing),
        },
        ServerPhase::Serving => match event {
            ServerEvent::TerminationSignal => (ServerPhase::Draining, ServerAction::StopAccepting),
            _ => (phase, ServerAction::Nothing),
        },
        ServerPhase::Draining => match event {
            ServerEvent::RequestsCompleted => (ServerPhase::Stopped, ServerAction::ReleaseSocket),
            _ => (phase, ServerAction::Nothing),
        },
        ServerPhase::Stopped => (phase, ServerAction::Nothing),
        ServerPhase::Failed => (phase, ServerAction::Nothing),
    }
}

/// The server listens only after the state backend is attached: in every run from
/// `Created` that has reached the listening socket, `BackendReady` arrived, and `Bound`
/// arrived after it.
pub proof fn listens_after_backend_is_attached(events: Seq<ServerEvent>)
    requires
        ServerPhase::Created.run(events).has_listened(),
    ensures
        exists|i: int, j: int|
            0 <= i < j < events.len() && events[i] == ServerEvent::BackendReady && events[j]
                == ServerEvent::Bound,
    decreases events.len(),
{
    let before = events.drop_last();
    if ServerPhase::Created.run(before).has_listened() {
        listens_after_backend_is_attached(before);
        let (i, j) = choose|i: int, j: int|
            0 <= i < j < before.len() && before[i] == ServerEvent::BackendReady && before[j]
                == ServerEvent::Bound;
        assert(events[i] == ServerEvent::BackendReady && events[j] == ServerEvent::Bound);
    } else {
        assert(ServerPhase::Created.run(before) == ServerPhase::Binding);
        assert(events.last() == ServerEvent::Bound);
        reached_binding_after_backend_ready(before);
        let i = choose|i: int| 0 <= i < before.len() && before[i] == ServerEvent::BackendReady;
        assert(events[i] == ServerEvent::BackendReady);
        assert(events[events.len() - 1] == ServerEvent::Bound);
    }
}

proof fn reached_binding_after_backend_ready(events: Seq<ServerEvent>)
    requires
        ServerPhase::Created.run(events) == ServerPhase::Binding,
    ensures
        exists|i: int| 0 <= i < events.len() && events[i] == ServerEvent::BackendReady,
    decreases events.len(),
{
    let before = events.drop_last();
    if ServerPhase::Created.run(before) == ServerPhase::Binding {
        reached_binding_after_backend_ready(before);
        let i = choose|i: int| 0 <= i < before.len() && before[i] == ServerEvent::BackendReady;
        assert(events[i] == ServerEvent::BackendReady);
    } else {
        assert(events[events.len() - 1] == ServerEvent::BackendReady);
    }
}

/// The socket is released only after a graceful shutdown: in every run from `Created`
/// that ends in `Stopped`, a termination signal arrived, and the requests in flight
/// completed after it.
pub proof fn releases_socket_after_draining(events: Seq<ServerEvent>)
    requires
        ServerPhase::Created.run(events) == ServerPhase::Stopped,
    ensures
        exists|i: int, j: int|
            0 <= i < j < events.len() && events[i] == ServerEvent::TerminationSignal
                && events[j] == ServerEvent::RequestsCompleted,
    decreases events.len(),
{
    let before = events.drop_last();
    if ServerPhase::Created.run(before) == ServerPhase::Stopped {
        releases_socket_after_draining(before);
        let (i, j) = choose|i: int, j: int|
            0 <= i < j < before.len() && before[i] == ServerEvent::TerminationSignal
                && before[j] == ServerEvent::RequestsCompleted;
        assert(events[i] == ServerEvent::TerminationSignal && events[j]
            == ServerEvent::RequestsCompleted);
    } else {
        assert(ServerPhase::Created.run(before) == ServerPhase::Draining);
        reached_draining_after_signal(before);
        let i = choose|i: int|
            0 <= i < before.len() && before[i] == ServerEvent::TerminationSignal;
        assert(events[i] == ServerEvent::TerminationSignal);
        assert(events[events.len() - 1] == ServerEvent::RequestsCompleted);
    }
}

proof fn reached_draining_after_signal(events: Seq<ServerEvent>)
    requires
        ServerPhase::Created.run(events) == ServerPhase::Draining,
    ensures
        exists|i: int| 0 <= i < events.len() && events[i] == ServerEvent::TerminationSignal,
    decreases events.len(),
{
    let before = events.drop_last();
    if ServerPhase::Created.run(before) == ServerPhase::Draining {
        reached_draining_after_signal(before);
        let i = choose|i: int|
            0 <= i < before.len() && before[i] == ServerEvent::TerminationSignal;
        assert(events[i] == ServerEvent::TerminationSignal);
    } else {
        assert(events[events.len() - 1] == ServerEvent::TerminationSignal);
    }
}

/// A server that has failed or stopped stays so, whatever arrives.
pub proof fn end_phases_are_final(event: ServerEvent)
    ensures
        ServerPhase::Failed.next(event) == ServerPhase::Failed,
        ServerPhase::Stopped.next(event) == ServerPhase::Stopped,
        ServerPhase::Failed.action(event) == ServerAction::Nothing,
        ServerPhase::Stopped.action(event) == ServerAction::Nothing,
{
}

} // verus!
