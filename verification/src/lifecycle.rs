//! What the states of a workload's lifecycle have in common.
//!
//! A state never touches the outside world.  Its `next` takes the event that
//! the supervisor observed and returns a transition: the state to hold next,
//! with the action that the supervisor is to perform before it comes back
//! with the next event, or the end of the lifecycle.  A state that is
//! entered gets the event `Entered`.

use crate::backoff::{BackoffStrategy, BackoffView};
use crate::handles::{HandleId, UnitHandleSet};
use crate::pod::{opt_text, ContainerKey, UnitKey};
use crate::states::error::{Error, ErrorView};
use crate::states::initializing::{Initializing, InitializingView};
use crate::states::running::{Running, RunningView};
use crate::states::starting::{Starting, StartingView};
use crate::states::terminated::{Terminated, TerminatedView};
use crate::status::{ContainerStatus, StatusDocument, StatusView, UnitStatus};
use crate::strmap::StringMap;
use vstd::prelude::*;

verus! {

/// What the supervisor observed.
pub enum EventView {
    Entered,
    Spawned { handle: HandleId },
    SpawnFailed { message: Seq<char> },
    Status { name: Seq<char>, status: UnitStatus },
    ChannelClosed,
    Patched { error: Option<Seq<char>> },
    Published,
    Released,
    WaitElapsed,
    Deleted,
}

/// What the supervisor observed: the outcome of the action it performed
/// last, or the deletion of the workload.
#[derive(Debug)]
pub enum Event {
    /// The state was entered; nothing was performed yet.
    Entered,
    /// The runtime spawned the unit and knows its worker by `handle`.
    Spawned { handle: HandleId },
    /// The runtime could not spawn the unit.
    SpawnFailed { message: String },
    /// A worker reported the status of the unit `name`.
    Status { name: String, status: ContainerStatus },
    /// No worker is left that could report.
    ChannelClosed,
    /// The control plane answered a patch: with an error, or without.
    Patched { error: Option<String> },
    /// The handles were entered in the table of the node agent.
    Published,
    /// The workers were cancelled.
    Released,
    /// The backoff delay has passed.
    WaitElapsed,
    /// The workload was deleted.
    Deleted,
}

impl View for Event {
    type V = EventView;

    open spec fn view(&self) -> EventView {
        match self {
            Event::Entered => EventView::Entered,
            Event::Spawned { handle } => EventView::Spawned { handle: *handle },
            Event::SpawnFailed { message } => EventView::SpawnFailed { message: message@ },
            Event::Status { name, status } => EventView::Status { name: name@, status: status@ },
            Event::ChannelClosed => EventView::ChannelClosed,
            Event::Patched { error } => EventView::Patched { error: opt_text(*error) },
            Event::Published => EventView::Published,
            Event::Released => EventView::Released,
            Event::WaitElapsed => EventView::WaitElapsed,
            Event::Deleted => EventView::Deleted,
        }
    }
}

/// What the supervisor is to do next.
pub enum ActionView {
    Spawn { key: UnitKey },
    Receive,
    PatchContainerStatus { name: Seq<char>, status: UnitStatus, init: bool },
    PublishHandles,
    PatchStatus { patch: Seq<u8> },
    ReportStatus { document: StatusView },
    Wait { delay_ms: nat },
    ReleaseHandles,
    Stop { outcome: Result<(), Seq<char>> },
    Idle,
}

/// What the supervisor is to do next.  Each action but the last two is
/// answered by an event.
#[derive(Debug)]
pub enum Action {
    /// Spawn the unit; answer `Spawned` or `SpawnFailed`.
    Spawn { key: ContainerKey },
    /// Await the next status report; answer `Status` or `ChannelClosed`.
    Receive,
    /// Patch the status of one unit at the control plane; answer `Patched`.
    PatchContainerStatus { name: String, status: ContainerStatus, init: bool },
    /// Enter the workload's handles in the table of the node agent; answer
    /// `Published`.
    PublishHandles,
    /// Send this status patch to the control plane; answer `Patched`.
    PatchStatus { patch: Vec<u8> },
    /// Report this status to the control plane; answer `Patched`.
    ReportStatus { document: StatusDocument },
    /// Wait for the delay, or until the workload is deleted; answer
    /// `WaitElapsed` or `Deleted`.
    Wait { delay_ms: u64 },
    /// Cancel every worker of the workload; answer `Released`.
    ReleaseHandles,
    /// The lifecycle is complete: cancel every worker that is left, report
    /// the outcome and stop.
    Stop { outcome: Result<(), String> },
    /// The lifecycle was complete before: there is nothing to do.
    Idle,
}

/// The outcome of a lifecycle, with the cause of a failure as text.
pub open spec fn outcome_view(outcome: Result<(), String>) -> Result<(), Seq<char>> {
    match outcome {
        Ok(_) => Ok(()),
        Err(message) => Err(message@),
    }
}

impl View for Action {
    type V = ActionView;

    open spec fn view(&self) -> ActionView {
        match self {
            Action::Spawn { key } => ActionView::Spawn { key: key@ },
            Action::Receive => ActionView::Receive,
            Action::PatchContainerStatus { name, status, init } => ActionView::PatchContainerStatus {
                name: name@,
                status: status@,
                init: *init,
            },
            Action::PublishHandles => ActionView::PublishHandles,
            Action::PatchStatus { patch } => ActionView::PatchStatus { patch: patch@ },
            Action::ReportStatus { document } => ActionView::ReportStatus { document: document@ },
            Action::Wait { delay_ms } => ActionView::Wait { delay_ms: *delay_ms as nat },
            Action::ReleaseHandles => ActionView::ReleaseHandles,
            Action::Stop { outcome } => ActionView::Stop { outcome: outcome_view(*outcome) },
            Action::Idle => ActionView::Idle,
        }
    }
}

/// The view of an optional action.
pub open spec fn opt_action(action: Option<Action>) -> Option<ActionView> {
    match action {
        Some(a) => Some(a@),
        None => None,
    }
}

/// The data of one workload that every state may read and change.
pub struct PodStateView {
    pub backoff: BackoffView,
    pub handles: Map<UnitKey, HandleId>,
    pub completed: Set<Seq<char>>,
}

/// The data of one workload that every state may read and change: the
/// crash-loop backoff, the handles of the units that were spawned, and the
/// names of the application units that ran to completion.
pub struct PodState {
    pub backoff: BackoffStrategy,
    pub handles: UnitHandleSet,
    pub completed: StringMap<bool>,
}

impl View for PodState {
    type V = PodStateView;

    open spec fn view(&self) -> PodStateView {
        PodStateView {
            backoff: self.backoff@,
            handles: self.handles@,
            completed: self.completed@.dom(),
        }
    }
}

impl PodState {
    /// The data of a workload that was just admitted: no handle, no unit
    /// completed.
    pub fn new(backoff: BackoffStrategy) -> (state: PodState)
        ensures
            state@ == (PodStateView {
                backoff: backoff@,
                handles: Map::empty(),
                completed: Set::empty(),
            }),
    {
        let state = PodState { backoff, handles: UnitHandleSet::new(), completed: StringMap::new() };
        assert(state.completed@.dom() =~= Set::<Seq<char>>::empty());
        state
    }
}

/// One of the states of a lifecycle.
pub enum StateView {
    Initializing(InitializingView),
    Starting(StartingView),
    Running(RunningView),
    Error(ErrorView),
    Terminated(TerminatedView),
}

impl StateView {
    /// How far the state is from the end of the lifecycle: a state that is
    /// entered without an action lies nearer to it than the state before.
    pub open spec fn rank(self) -> nat {
        match self {
            StateView::Initializing(_) => 4,
            StateView::Starting(_) => 3,
            StateView::Running(_) => 2,
            StateView::Error(_) => 1,
            StateView::Terminated(_) => 1,
        }
    }
}

/// One of the states of a lifecycle.
pub enum LifecycleState {
    Initializing(Initializing),
    Starting(Starting),
    Running(Running),
    Error(Error),
    Terminated(Terminated),
}

impl View for LifecycleState {
    type V = StateView;

    open spec fn view(&self) -> StateView {
        match self {
            LifecycleState::Initializing(s) => StateView::Initializing(s@),
            LifecycleState::Starting(s) => StateView::Starting(s@),
            LifecycleState::Running(s) => StateView::Running(s@),
            LifecycleState::Error(s) => StateView::Error(s@),
            LifecycleState::Terminated(s) => StateView::Terminated(s@),
        }
    }
}

/// What a state decides.
pub enum TransitionView {
    Next(StateView, Option<ActionView>),
    Complete(Result<(), Seq<char>>),
}

/// What a state decides: the state to hold next, with the action to
/// perform before it is asked again, or the end of the lifecycle with its
/// outcome.  A next state that comes without an action is entered at once.
pub enum Transition {
    Next(LifecycleState, Option<Action>),
    Complete(Result<(), String>),
}

impl View for Transition {
    type V = TransitionView;

    open spec fn view(&self) -> TransitionView {
        match self {
            Transition::Next(state, action) => TransitionView::Next(state@, opt_action(*action)),
            Transition::Complete(outcome) => TransitionView::Complete(outcome_view(*outcome)),
        }
    }
}

/// The transition of a fatal error: into the error state, with the cause.
pub open spec fn fatal_spec(message: Seq<char>) -> TransitionView {
    TransitionView::Next(StateView::Error(ErrorView::entered(message)), None)
}

/// The transition of a fatal error: into the error state, with the cause.
pub fn fatal(message: String) -> (transition: Transition)
    ensures
        transition@ == fatal_spec(message@),
{
    Transition::Next(LifecycleState::Error(Error::new(message)), None)
}

/// The cause given where a state gets an event that it does not await.
pub open spec fn unexpected_event_message() -> Seq<char> {
    "unexpected event"@
}

/// The transition where a state gets an event that it does not await.
pub fn unexpected_event() -> (transition: Transition)
    ensures
        transition@ == fatal_spec(unexpected_event_message()),
{
    fatal(String::from_str("unexpected event"))
}

/// The position after `cursor` in a list of `len` units, and `len` where
/// there is none.
pub open spec fn position_after(cursor: nat, len: nat) -> nat {
    if cursor < len {
        cursor + 1
    } else {
        len
    }
}

/// The position after `cursor` in a list of `len` units.
pub fn next_position(cursor: usize, len: usize) -> (next: usize)
    ensures
        next == position_after(cursor as nat, len as nat),
{
    if cursor < len {
        cursor + 1
    } else {
        len
    }
}

} // verus!
