//! Background services: framing, discovery, client connection, server sessions.
//!
//! [`ServiceControl`] is the lifecycle supervisor every long-running service
//! is built on. It owns the handle of the running task and the sender of its
//! shutdown signal, and decides what has to be stopped when; signalling and
//! joining are left to the caller that owns the runtime.

use vstd::prelude::*;
use vstd::string::StringExecFns;

pub mod client;
pub mod codec;
pub mod protocols;
pub mod server;
pub mod txt;

verus! {

/// A live task together with the sender of its shutdown signal.
#[derive(Debug, PartialEq, Eq)]
pub struct RunningService<T, S> {
    /// Handle of the task, to be joined.
    pub task: T,
    /// Sender of the shutdown signal.
    pub shutdown_tx: S,
}

/// Why stopping a service failed. The supervisor is not running either way.
#[derive(Debug, Clone, Copy, PartialEq, Eq, Structural)]
pub enum ServiceError {
    /// The shutdown signal could not be delivered.
    SendShutdown,
    /// The task could not be joined.
    Join,
}

impl ServiceError {
    /// What the error says to a reader, for the service `service_name`.
    pub fn message(&self, service_name: &str) -> (r: String)
        ensures
            r@ == service_name@ + match self {
                ServiceError::SendShutdown => " Failed to send shutdown signal"@,
                ServiceError::Join => " Task join error"@,
            },
    {
        let mut text = String::from_str(service_name);
        match self {
            ServiceError::SendShutdown => text.append(" Failed to send shutdown signal"),
            ServiceError::Join => text.append(" Task join error"),
        }
        text
    }
}

/// Start, stop and liveness of one named background service.
///
/// `T` is the handle of the running task, `S` the sender of its shutdown
/// signal. The two are held together or not at all.
pub struct ServiceControl<T, S> {
    service_name: String,
    running: Option<RunningService<T, S>>,
}

/// A start: what is installed afterwards, and what was installed before and
/// is handed out to be stopped.
pub open spec fn spec_start<T, S, E>(
    before: Option<RunningService<T, S>>,
    shutdown_tx: S,
    launched: Result<T, E>,
) -> (Option<RunningService<T, S>>, Option<RunningService<T, S>>) {
    (
        match launched {
            Ok(task) => Some(RunningService { task, shutdown_tx }),
            Err(_) => None,
        },
        before,
    )
}

/// A stop: nothing is installed afterwards, and what was installed before is
/// handed out to be signalled and joined.
pub open spec fn spec_stop<T, S>(before: Option<RunningService<T, S>>) -> (
    Option<RunningService<T, S>>,
    Option<RunningService<T, S>>,
) {
    (None, before)
}

/// The error, if any, that a stop reports once the signal was sent and the
/// task awaited.
pub open spec fn spec_stop_outcome(signal_delivered: bool, task_joined: bool) -> Result<
    (),
    ServiceError,
> {
    if !signal_delivered {
        Err(ServiceError::SendShutdown)
    } else if !task_joined {
        Err(ServiceError::Join)
    } else {
        Ok(())
    }
}

impl<T, S> ServiceControl<T, S> {
    /// The running task and its shutdown sender, if the service runs.
    pub closed spec fn spec_running(&self) -> Option<RunningService<T, S>> {
        self.running
    }

    /// The name the service was created with.
    pub closed spec fn spec_service_name(&self) -> Seq<char> {
        self.service_name@
    }

    /// A supervisor for the service `service_name`, not running.
    pub fn new(service_name: String) -> (r: Self)
        ensures
            r.spec_running().is_none(),
            r.spec_service_name() == service_name@,
    {
        ServiceControl { service_name, running: None }
    }

    /// The name of the supervised service.
    pub fn service_name(&self) -> (r: &String)
        ensures
            r@ == self.spec_service_name(),
    {
        &self.service_name
    }

    /// Whether a task is installed.
    pub fn is_running(&self) -> (r: bool)
        ensures
            r == self.spec_running().is_some(),
    {
        self.running.is_some()
    }

    /// Installs the outcome of a launch.
    ///
    /// `launched` is what the service's start function returned when given the
    /// receiver that belongs to `shutdown_tx`. On `Ok` the task becomes the
    /// running one; on `Err` the supervisor is left not running, the sender is
    /// dropped and the error is handed back. Whatever was installed before
    /// comes back as the second component, for the caller to signal and join:
    /// at most one task is ever installed.
    pub fn start<E>(&mut self, shutdown_tx: S, launched: Result<T, E>) -> (r: (
        Result<(), E>,
        Option<RunningService<T, S>>,
    ))
        ensures
            final(self).spec_service_name() == old(self).spec_service_name(),
            (final(self).spec_running(), r.1) == spec_start(
                old(self).spec_running(),
                shutdown_tx,
                launched,
            ),
            match launched {
                Ok(_) => r.0.is_ok(),
                Err(e) => r.0 == Err::<(), E>(e),
            },
    {
        let previous = self.stop();
        match launched {
            Ok(task) => {
                self.running = Some(RunningService { task, shutdown_tx });
                (Ok(()), previous)
            },
            Err(e) => (Err(e), previous),
        }
    }

    /// Takes the running task out, leaving the supervisor not running.
    ///
    /// `None` means nothing was running and nothing is to be done. Otherwise
    /// the caller sends the shutdown signal, awaits the task and reports with
    /// [`stop_outcome`].
    pub fn stop(&mut self) -> (r: Option<RunningService<T, S>>)
        ensures
            final(self).spec_service_name() == old(self).spec_service_name(),
            (final(self).spec_running(), r) == spec_stop(old(self).spec_running()),
    {
        self.running.take()
    }
}

/// The result of a stop whose signal was or was not delivered and whose task
/// did or did not join. A signal that cannot be delivered is reported first.
pub fn stop_outcome(signal_delivered: bool, task_joined: bool) -> (r: Result<(), ServiceError>)
    ensures
        r == spec_stop_outcome(signal_delivered, task_joined),
{
    if !signal_delivered {
        Err(ServiceError::SendShutdown)
    } else if !task_joined {
        Err(ServiceError::Join)
    } else {
        Ok(())
    }
}

/// Starting twice in a row leaves exactly one task installed, the second,
/// and hands the first out to be stopped.
pub proof fn lemma_start_twice<T, S, E>(
    before: Option<RunningService<T, S>>,
    tx1: S,
    task1: T,
    tx2: S,
    task2: T,
)
    ensures
        ({
            let first = spec_start(before, tx1, Ok::<T, E>(task1));
            let second = spec_start(first.0, tx2, Ok::<T, E>(task2));
            &&& second.0 == Some(RunningService { task: task2, shutdown_tx: tx2 })
            &&& second.1 == Some(RunningService { task: task1, shutdown_tx: tx1 })
        }),
{
}

/// A start whose launch fails leaves nothing installed.
pub proof fn lemma_failed_start_not_running<T, S, E>(
    before: Option<RunningService<T, S>>,
    tx: S,
    error: E,
)
    ensures
        spec_start(before, tx, Err::<T, E>(error)).0.is_none(),
{
}

/// Stopping twice in a row: the second stop finds nothing installed, hands
/// nothing out and so has nothing that could fail.
pub proof fn lemma_stop_twice<T, S>(before: Option<RunningService<T, S>>)
    ensures
        ({
            let first = spec_stop(before);
            let second = spec_stop(first.0);
            &&& first.0.is_none()
            &&& second.0.is_none()
            &&& second.1.is_none()
        }),
{
}

} // verus!
