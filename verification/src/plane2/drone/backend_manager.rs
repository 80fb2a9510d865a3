//! The state machine that drives one backend through its lifecycle.
//!
//! Each time a backend enters a state, the manager does one of a few things:
//! nothing (it waits for an outside event), jump to a new state at once, or
//! start a task (pulling the image, spawning the container, waiting for the
//! backend, terminating the container) whose result decides the next state.
use crate::plane2::types::{
    status_position, BackendAddr, BackendState, BackendStatus, PullPolicy, TerminationKind,
};
use vstd::prelude::*;

verus! {

/// What the manager does on entering a state.
#[derive(Clone, Copy, Debug, PartialEq, Eq, Structural)]
pub enum StepStatusResult {
    /// Wait for an outside event.
    DoNothing,
    /// Move to the given state at once.
    SetState(BackendState),
    /// Move to the given state from a task started now.
    FutureSetState(BackendState),
    /// Pull the image (`force`: even if it is present); `after_pull` gives the next state.
    PullImage { force: bool },
    /// Create and start the container; `after_spawn` gives the next state.
    SpawnContainer,
    /// Wait until the backend answers at the address; `after_wait` gives the next state.
    WaitForBackend(BackendAddr),
    /// Ask Docker to stop the container (`hard`: kill it), retrying until it
    /// succeeds; only the container's exit moves the backend on.
    TerminateContainer { hard: bool },
}

/// What the manager does on entering `state` with the given pull policy.
pub open spec fn step_for(state: BackendState, pull_policy: PullPolicy) -> StepStatusResult {
    match state.status {
        BackendStatus::Scheduled => StepStatusResult::SetState(
            BackendState { status: BackendStatus::Loading, ..state },
        ),
        BackendStatus::Loading => match pull_policy {
            PullPolicy::IfNotPresent => StepStatusResult::PullImage { force: false },
            PullPolicy::Always => StepStatusResult::PullImage { force: true },
            PullPolicy::Never => StepStatusResult::SetState(
                BackendState { status: BackendStatus::Starting, ..state },
            ),
        },
        BackendStatus::Starting => StepStatusResult::SpawnContainer,
        BackendStatus::Waiting => match state.address {
            Some(address) => StepStatusResult::WaitForBackend(address),
            None => StepStatusResult::FutureSetState(
                BackendState {
                    status: BackendStatus::Terminated,
                    exit_code: None,
                    address: None,
                    termination: None,
                },
            ),
        },
        BackendStatus::Ready => StepStatusResult::DoNothing,
        BackendStatus::Terminating => StepStatusResult::TerminateContainer {
            hard: state.termination == Some(TerminationKind::Hard),
        },
        BackendStatus::Terminated => StepStatusResult::DoNothing,
    }
}

/// Decides what to do on entering `state`.
pub fn step_state(state: &BackendState, pull_policy: PullPolicy) -> (r: StepStatusResult)
    ensures
        r == step_for(*state, pull_policy),
{
    match state.status {
        BackendStatus::Scheduled => StepStatusResult::SetState(state.to_loading()),
        BackendStatus::Loading => match pull_policy {
            PullPolicy::IfNotPresent => StepStatusResult::PullImage { force: false },
            PullPolicy::Always => StepStatusResult::PullImage { force: true },
            PullPolicy::Never => StepStatusResult::SetState(state.to_starting()),
        },
        BackendStatus::Starting => StepStatusResult::SpawnContainer,
        BackendStatus::Waiting => match state.address {
            Some(address) => StepStatusResult::WaitForBackend(address),
            None => StepStatusResult::FutureSetState(BackendState::terminated(None)),
        },
        BackendStatus::Ready => StepStatusResult::DoNothing,
        BackendStatus::Terminating => StepStatusResult::TerminateContainer {
            hard: match state.termination {
                Some(TerminationKind::Hard) => true,
                _ => false,
            },
        },
        BackendStatus::Terminated => StepStatusResult::DoNothing,
    }
}

/// The state after pulling the image: starting if the pull succeeded, else
/// terminated without an exit code.
pub fn after_pull(state: &BackendState, pulled: bool) -> (r: BackendState)
    ensures
        r == (if pulled {
            BackendState { status: BackendStatus::Starting, ..*state }
        } else {
            BackendState { status: BackendStatus::Terminated, exit_code: None, address: None, termination: None }
        }),
{
    if pulled {
        state.to_starting()
    } else {
        BackendState::terminated(None)
    }
}

/// The state after spawning the container: waiting on the backend's address if
/// the spawn succeeded, else terminated without an exit code.
pub fn after_spawn(state: &BackendState, address: Option<BackendAddr>) -> (r: BackendState)
    ensures
        r == (match address {
            Some(a) => BackendState { status: BackendStatus::Waiting, address: Some(a), ..*state },
            None => BackendState {
                status: BackendStatus::Terminated,
                exit_code: None,
                address: None,
                termination: None,
            },
        }),
{
    match address {
        Some(a) => state.to_waiting(a),
        None => BackendState::terminated(None),
    }
}

/// The state once the backend answers: ready.
pub fn after_wait(state: &BackendState) -> (r: BackendState)
    ensures
        r == (BackendState { status: BackendStatus::Ready, ..*state }),
{
    state.to_ready()
}

/// The states that a step can lead to without an outside event.
pub open spec fn step_successor(
    state: BackendState,
    pull_policy: PullPolicy,
    pulled: bool,
    spawned: Option<BackendAddr>,
) -> Option<BackendState> {
    match step_for(state, pull_policy) {
        StepStatusResult::SetState(s) => Some(s),
        StepStatusResult::FutureSetState(s) => Some(s),
        StepStatusResult::PullImage { .. } => Some(
            if pulled {
                BackendState { status: BackendStatus::Starting, ..state }
            } else {
                BackendState {
                    status: BackendStatus::Terminated,
                    exit_code: None,
                    address: None,
                    termination: None,
                }
            },
        ),
        StepStatusResult::SpawnContainer => Some(
            match spawned {
                Some(a) => BackendState { status: BackendStatus::Waiting, address: Some(a), ..state },
                None => BackendState {
                    status: BackendStatus::Terminated,
                    exit_code: None,
                    address: None,
                    termination: None,
                },
            },
        ),
        StepStatusResult::WaitForBackend(_) => Some(BackendState { status: BackendStatus::Ready, ..state }),
        _ => None,
    }
}

/// The manager only ever moves a backend forward in its lifecycle, and leaves
/// ready, terminating and terminated backends to outside events.
pub proof fn law_steps_move_forward(
    state: BackendState,
    pull_policy: PullPolicy,
    pulled: bool,
    spawned: Option<BackendAddr>,
)
    ensures
        step_successor(state, pull_policy, pulled, spawned) matches Some(next) ==> status_position(
            next.status,
        ) > status_position(state.status),
        (state.status == BackendStatus::Ready || state.status == BackendStatus::Terminating
            || state.status == BackendStatus::Terminated) ==> step_successor(
            state,
            pull_policy,
            pulled,
            spawned,
        ) is None,
        state.status == BackendStatus::Ready ==> step_for(state, pull_policy) == StepStatusResult::DoNothing,
{
}

/// A backend that is terminating is stopped by Docker, and killed outright
/// exactly when a hard termination was asked for: a soft termination asks for
/// a graceful stop.
pub proof fn law_termination_kind_decides_the_kill(state: BackendState, pull_policy: PullPolicy)
    requires
        state.status == BackendStatus::Terminating,
    ensures
        step_for(state, pull_policy) is TerminateContainer,
        step_for(state, pull_policy) matches StepStatusResult::TerminateContainer { hard } ==> (hard
            <==> state.termination == Some(TerminationKind::Hard)),
        state.termination == Some(TerminationKind::Soft) ==> step_for(state, pull_policy) == (
        StepStatusResult::TerminateContainer { hard: false }),
{
}

} // verus!
