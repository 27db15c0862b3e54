//! A component owning the Tokio runtime, and the decisions taken while a
//! root future runs on it.
//!
//! While the root future runs, the shutdown signal is always checked first,
//! so a busy node cannot starve it. Once either finishes, the runtime is shut
//! down with a timeout, and the node exits gracefully unless the root future
//! failed, in which case the application is shut down by force.

use abscissa_core::FrameworkError;
use tokio::runtime::Runtime;
use vstd::prelude::*;

verus! {

/// Tokio's runtime, carried through as an opaque value.
#[verifier::external_type_specification]
#[verifier::external_body]
pub struct ExRuntime(Runtime);

/// Abscissa's framework error, carried through as an opaque value.
#[verifier::external_type_specification]
#[verifier::external_body]
pub struct ExFrameworkError(FrameworkError);

/// An I/O error, carried through as an opaque value.
#[verifier::external_type_specification]
#[verifier::external_body]
pub struct ExIoError(std::io::Error);

/// When the node is shutting down, wait this long (in seconds) for tokio
/// tasks to finish.
pub const TOKIO_SHUTDOWN_TIMEOUT_SECS: u64 = 20;

/// A component which owns a Tokio runtime.
///
/// The runtime is stored as an `Option` so that when it's time to enter an
/// async context by calling `block_on` with a "root future", the runtime can
/// be taken independently of the application's component locking system.
#[derive(Debug)]
pub struct TokioComponent {
    pub rt: Option<Runtime>,
}

/// Builds a multi-threaded runtime with all drivers enabled, with
/// `tokio::runtime::Builder::new_multi_thread().enable_all().build()`.
///
/// Nothing is claimed of the outcome: building depends on the machine.
#[verifier::external_body]
fn build_multi_thread_runtime() -> Result<Runtime, std::io::Error> {
    tokio::runtime::Builder::new_multi_thread().enable_all().build()
}

/// Turns an I/O error into a framework error with
/// `<FrameworkError as From<std::io::Error>>::from`.
///
/// Nothing is claimed of the error value, which is opaque here.
#[verifier::external_body]
fn framework_error_from_io(error: std::io::Error) -> FrameworkError {
    FrameworkError::from(error)
}

impl TokioComponent {
    /// Creates the component with a new multi-threaded runtime.
    ///
    /// Building the runtime is not expected to fail; if it does, the I/O error
    /// is returned as a framework error.
    pub fn new() -> (component: Result<Self, FrameworkError>)
        ensures
            component matches Ok(c) ==> c.rt is Some,
    {
        Self::from_runtime(build_multi_thread_runtime())
    }

    /// Creates the component from the outcome of building a runtime: the
    /// component owns the runtime if it was built, else the build error is
    /// returned as a framework error.
    pub fn from_runtime(built: Result<Runtime, std::io::Error>) -> (component: Result<
        Self,
        FrameworkError,
    >)
        ensures
            component is Ok <==> built is Ok,
            component matches Ok(c) ==> c.rt == Some(built->Ok_0),
    {
        match built {
            Ok(rt) => Ok(Self { rt: Some(rt) }),
            Err(error) => Err(framework_error_from_io(error)),
        }
    }
}

/// How the node leaves once its root future has stopped.
#[derive(Clone, Copy, Debug, PartialEq, Eq, Structural)]
pub enum ExitKind {
    /// The node shuts down normally.
    Graceful,
    /// The root future failed: the application is shut down by force.
    Forced,
}

/// What the runner observed.
#[derive(Debug)]
pub enum RunEvent<E> {
    /// The shutdown future and (when the shutdown future was not ready) the
    /// root future were polled: whether shutdown is ready, and the root
    /// future's output if it finished.
    Polled { shutdown_ready: bool, output: Option<Result<(), E>> },
    /// The runtime has shut down, waiting at most the shutdown timeout.
    RuntimeStopped,
}

/// Where a run of a root future stands.
#[derive(Debug)]
pub enum RunState<E> {
    /// Waiting for the shutdown signal or the root future.
    Running,
    /// The root future or the shutdown signal finished with this result; the
    /// runtime is being shut down.
    Stopping(Result<(), E>),
    /// The run is over.
    Exited(ExitKind),
}

/// What the runner does next.
#[derive(Clone, Copy, Debug, PartialEq, Eq, Structural)]
pub enum RunAction {
    /// Keep polling the shutdown future, then the root future.
    Poll,
    /// Shut the runtime down, waiting at most `timeout_secs` for its tasks.
    ShutdownRuntime { timeout_secs: u64 },
    /// Leave the run.
    Exit(ExitKind),
}

/// How a run that stopped with `result` exits.
pub open spec fn spec_exit_kind<E>(result: Result<(), E>) -> ExitKind {
    match result {
        Ok(()) => ExitKind::Graceful,
        Err(_) => ExitKind::Forced,
    }
}

/// What the runner does in `state`.
pub open spec fn spec_action_of<E>(state: RunState<E>) -> RunAction {
    match state {
        RunState::Running => RunAction::Poll,
        RunState::Stopping(_) => RunAction::ShutdownRuntime {
            timeout_secs: TOKIO_SHUTDOWN_TIMEOUT_SECS,
        },
        RunState::Exited(kind) => RunAction::Exit(kind),
    }
}

/// The state after `event` in `state`. The shutdown signal takes precedence
/// over the root future's output; events that cannot happen in a state leave
/// it unchanged.
pub open spec fn spec_next_state<E>(state: RunState<E>, event: RunEvent<E>) -> RunState<E> {
    match state {
        RunState::Running => match event {
            RunEvent::Polled { shutdown_ready, output } => if shutdown_ready {
                RunState::Stopping(Ok(()))
            } else {
                match output {
                    Some(result) => RunState::Stopping(result),
                    None => RunState::Running,
                }
            },
            RunEvent::RuntimeStopped => RunState::Running,
        },
        RunState::Stopping(result) => match event {
            RunEvent::RuntimeStopped => RunState::Exited(spec_exit_kind(result)),
            RunEvent::Polled { .. } => RunState::Stopping(result),
        },
        RunState::Exited(kind) => RunState::Exited(kind),
    }
}

/// Returns how a run that stopped with `result` exits: gracefully after a
/// shutdown signal or a successful root future, by force after an error.
pub fn exit_kind<E>(result: &Result<(), E>) -> (kind: ExitKind)
    ensures
        kind == spec_exit_kind(*result),
{
    match result {
        Ok(()) => ExitKind::Graceful,
        Err(_) => ExitKind::Forced,
    }
}

/// Takes one step of a run: the next state, and the action for it.
pub fn run_step<E>(state: RunState<E>, event: RunEvent<E>) -> (next: (RunState<E>, RunAction))
    ensures
        next.0 == spec_next_state(state, event),
        next.1 == spec_action_of(next.0),
{
    let next_state = match state {
        RunState::Running => match event {
            RunEvent::Polled { shutdown_ready, output } => {
                if shutdown_ready {
                    // Always poll the shutdown future first.
                    RunState::Stopping(Ok(()))
                } else {
                    match output {
                        Some(result) => RunState::Stopping(result),
                        None => RunState::Running,
                    }
                }
            },
            RunEvent::RuntimeStopped => RunState::Running,
        },
        RunState::Stopping(result) => match event {
            RunEvent::RuntimeStopped => {
                let kind = exit_kind(&result);
                RunState::Exited(kind)
            },
            RunEvent::Polled { .. } => RunState::Stopping(result),
        },
        RunState::Exited(kind) => RunState::Exited(kind),
    };
    let action = match &next_state {
        RunState::Running => RunAction::Poll,
        RunState::Stopping(_) => RunAction::ShutdownRuntime {
            timeout_secs: TOKIO_SHUTDOWN_TIMEOUT_SECS,
        },
        RunState::Exited(kind) => RunAction::Exit(*kind),
    };
    (next_state, action)
}

/// The shutdown signal always wins: once it is ready, the run stops with
/// success whatever the root future returned, and then exits gracefully.
pub proof fn lemma_shutdown_signal_takes_precedence<E>(output: Option<Result<(), E>>)
    ensures
        spec_next_state(
            RunState::<E>::Running,
            RunEvent::Polled { shutdown_ready: true, output },
        ) == RunState::<E>::Stopping(Ok(())),
        spec_next_state(
            spec_next_state(RunState::<E>::Running, RunEvent::Polled { shutdown_ready: true, output }),
            RunEvent::RuntimeStopped,
        ) == RunState::<E>::Exited(ExitKind::Graceful),
{
}

/// A run only exits after shutting the runtime down: the exited state is
/// entered only from the stopping state, on the runtime having stopped, and
/// every stopping state asks for the runtime to be shut down with the
/// shutdown timeout.
pub proof fn lemma_exit_follows_runtime_shutdown<E>(state: RunState<E>, event: RunEvent<E>)
    ensures
        !(state is Exited) && spec_next_state(state, event) is Exited ==> state is Stopping
            && event is RuntimeStopped,
        spec_next_state(state, event) is Stopping ==> spec_action_of(spec_next_state(state, event))
            == (RunAction::ShutdownRuntime { timeout_secs: TOKIO_SHUTDOWN_TIMEOUT_SECS }),
{
}

/// A run is forced to exit exactly when the root future failed before any
/// shutdown signal; it exits gracefully when the root future succeeded.
pub proof fn lemma_forced_exit_iff_failure<E>(shutdown_ready: bool, result: Result<(), E>)
    ensures
        spec_next_state(
            spec_next_state(
                RunState::<E>::Running,
                RunEvent::Polled { shutdown_ready, output: Some(result) },
            ),
            RunEvent::RuntimeStopped,
        ) == RunState::<E>::Exited(
            if !shutdown_ready && result is Err {
                ExitKind::Forced
            } else {
                ExitKind::Graceful
            },
        ),
{
}

/// Once exited, a run stays exited with the same exit kind.
pub proof fn lemma_exited_is_final<E>(kind: ExitKind, event: RunEvent<E>)
    ensures
        spec_next_state(RunState::<E>::Exited(kind), event) == RunState::<E>::Exited(kind),
        spec_action_of(spec_next_state(RunState::<E>::Exited(kind), event)) == RunAction::Exit(
            kind,
        ),
{
}

/// While neither the shutdown signal nor the root future is ready, the run
/// keeps polling.
pub proof fn lemma_pending_keeps_polling<E>()
    ensures
        spec_next_state(
            RunState::<E>::Running,
            RunEvent::Polled { shutdown_ready: false, output: None },
        ) == RunState::<E>::Running,
        spec_action_of(RunState::<E>::Running) == RunAction::Poll,
{
}

} // verus!
