//! The life of a service: created, started once, stopped once.

use vstd::prelude::*;
use vstd::string::StringExecFns;

use crate::error::{HetuError, HetuErrorView};

verus! {

/// Where a service stands in its life. A service moves from `Created` to `Started` and
/// from `Started` to `Stopped`, and in no other way.
#[derive(Clone, Copy, Debug, PartialEq, Eq, Structural)]
pub enum ServiceState {
    /// Made, and not started yet.
    Created,
    /// Accepting work.
    Started,
    /// Stopped for good; every resource is released.
    Stopped,
}

impl ServiceState {
    /// The state after a start, or `None` where a start is a misuse.
    pub open spec fn after_start(self) -> Option<ServiceState> {
        match self {
            ServiceState::Created => Some(ServiceState::Started),
            _ => None,
        }
    }

    /// The state after a stop, or `None` where a stop is a misuse.
    pub open spec fn after_stop(self) -> Option<ServiceState> {
        match self {
            ServiceState::Started => Some(ServiceState::Stopped),
            _ => None,
        }
    }

    /// What a refused start reports, by the state it was asked in.
    pub open spec fn start_refusal(self) -> Seq<char> {
        match self {
            ServiceState::Stopped => "service already stopped"@,
            _ => "service already started"@,
        }
    }

    /// What a refused stop reports, by the state it was asked in.
    pub open spec fn stop_refusal(self) -> Seq<char> {
        match self {
            ServiceState::Created => "service not started"@,
            _ => "service already stopped"@,
        }
    }

    /// A second start is refused: once a start has succeeded, the next one is a misuse.
    pub proof fn start_twice_is_refused(state: ServiceState)
        requires
            state.after_start() is Some,
        ensures
            state.after_start().unwrap().after_start() is None,
    {
    }

    /// A second stop is refused: once a stop has succeeded, the next one is a misuse.
    pub proof fn stop_twice_is_refused(state: ServiceState)
        requires
            state.after_stop() is Some,
        ensures
            state.after_stop().unwrap().after_stop() is None,
    {
    }

    /// A stopped service cannot be started again, and a service that was never started
    /// cannot be stopped.
    pub proof fn life_is_linear()
        ensures
            ServiceState::Stopped.after_start() is None,
            ServiceState::Created.after_stop() is None,
            ServiceState::Created.after_start() == Some(ServiceState::Started),
            ServiceState::Started.after_stop() == Some(ServiceState::Stopped),
    {
    }
}

/// The request to give up a graceful stop and release everything at once. There is one
/// signal for all the services that listen to it.
#[derive(Clone, Copy, Debug, PartialEq, Eq, Structural)]
pub struct ForceSignal {
    sent: bool,
}

impl ForceSignal {
    /// Whether the signal has been sent.
    pub closed spec fn is_sent(self) -> bool {
        self.sent
    }

    /// A signal that has not been sent.
    pub fn new() -> (signal: ForceSignal)
        ensures
            !signal.is_sent(),
    {
        ForceSignal { sent: false }
    }

    /// Sends the signal. Sending it again changes nothing and does not fail.
    pub fn send(&mut self)
        ensures
            final(self).is_sent(),
            old(self).is_sent() ==> *final(self) == *old(self),
    {
        self.sent = true;
    }

    /// Whether the signal has been sent.
    pub fn sent(&self) -> (sent: bool)
        ensures
            sent == self.is_sent(),
    {
        self.sent
    }
}

/// How a stop deals with the work that is still in flight.
#[derive(Clone, Copy, Debug, PartialEq, Eq, Structural)]
pub enum StopMode {
    /// Let the work in flight finish.
    Drain,
    /// Give up the work in flight.
    Abandon,
}

/// The way a stop proceeds for a service that supports a forced stop: it drains, unless
/// it was handed a signal and that signal has been sent.
pub open spec fn stop_mode_for(force: Option<ForceSignal>) -> StopMode {
    match force {
        Some(signal) => if signal.is_sent() {
            StopMode::Abandon
        } else {
            StopMode::Drain
        },
        None => StopMode::Drain,
    }
}

/// Decides how a stop proceeds, from the signal that the caller of `stop` handed over.
pub fn stop_mode(force: Option<ForceSignal>) -> (mode: StopMode)
    ensures
        mode == stop_mode_for(force),
{
    match force {
        Some(signal) => if signal.sent() {
            StopMode::Abandon
        } else {
            StopMode::Drain
        },
        None => StopMode::Drain,
    }
}

/// A service that can be started and stopped.
pub trait Stoppable {
    /// Where the service stands in its life.
    spec fn state(&self) -> ServiceState;

    /// Starts the service without blocking the caller. After `Ok` the service accepts
    /// work. A start of a service that is not in `Created` is refused, and a refused or
    /// failed start leaves the service in the state it was in.
    fn start(&mut self) -> (r: Result<(), HetuError>)
        ensures
            r is Ok ==> old(self).state().after_start() == Some(final(self).state()),
            r is Err ==> final(self).state() == old(self).state(),
            old(self).state().after_start() is None ==> r is Err,
    ;

    /// Stops the service and returns when everything is released. A service that supports
    /// it may give up its work in flight once `force` has been sent; one that does not
    /// ignores `force`. A stop of a service that is not in `Started` is refused, and a
    /// refused or failed stop leaves the service in the state it was in.
    fn stop(&mut self, force: Option<ForceSignal>) -> (r: Result<(), HetuError>)
        ensures
            r is Ok ==> old(self).state().after_stop() == Some(final(self).state()),
            r is Err ==> final(self).state() == old(self).state(),
            old(self).state().after_stop() is None ==> r is Err,
    ;
}

/// The record of a service's life. A service keeps one and asks it before it acts, so that
/// a misuse is refused before anything is bound or released.
#[derive(Debug)]
pub struct Lifecycle {
    state: ServiceState,
}

impl Lifecycle {
    /// The record of a service that was just made.
    pub fn new() -> (life: Lifecycle)
        ensures
            life.state() == ServiceState::Created,
    {
        Lifecycle { state: ServiceState::Created }
    }

    /// Where the service stands in its life.
    pub fn current(&self) -> (state: ServiceState)
        ensures
            state == self.state(),
    {
        self.state
    }
}

impl Stoppable for Lifecycle {
    closed spec fn state(&self) -> ServiceState {
        self.state
    }

    /// Succeeds exactly in `Created`. A refusal is an internal error that names the
    /// misuse.
    fn start(&mut self) -> (r: Result<(), HetuError>)
        ensures
            r is Ok <==> old(self).state() == ServiceState::Created,
            r matches Err(e) ==> e@ == HetuErrorView::Internal(old(self).state().start_refusal()),
    {
        match self.state {
            ServiceState::Created => {
                self.state = ServiceState::Started;
                Ok(())
            },
            ServiceState::Started => Err(
                HetuError::Internal(String::from_str("service already started")),
            ),
            ServiceState::Stopped => Err(
                HetuError::Internal(String::from_str("service already stopped")),
            ),
        }
    }

    /// Succeeds exactly in `Started`, whatever `force` holds. A refusal is an internal
    /// error that names the misuse.
    fn stop(&mut self, force: Option<ForceSignal>) -> (r: Result<(), HetuError>)
        ensures
            r is Ok <==> old(self).state() == ServiceState::Started,
            r matches Err(e) ==> e@ == HetuErrorView::Internal(old(self).state().stop_refusal()),
    {
        match self.state {
            ServiceState::Started => {
                self.state = ServiceState::Stopped;
                Ok(())
            },
            ServiceState::Created => Err(
                HetuError::Internal(String::from_str("service not started")),
            ),
            ServiceState::Stopped => Err(
                HetuError::Internal(String::from_str("service already stopped")),
            ),
        }
    }
}

} // verus!
