//! The state that spawns the application units of a workload.

use crate::lifecycle::{
    fatal, fatal_spec, unexpected_event, unexpected_event_message, Action, ActionView, Event,
    EventView, LifecycleState, PodState, PodStateView, StateView, Transition, TransitionView,
};
use crate::pod::{ContainerKey, Pod, PodView, UnitKey};
use crate::states::running::{Running, RunningView};
use crate::status::{Phase, StatusDocument, StatusView};
use vstd::prelude::*;

verus! {

/// What the state is waiting for.
#[derive(Debug, Clone, Copy, PartialEq, Eq, Structural)]
pub enum StartingStage {
    /// Nothing yet.
    Entering,
    /// The unit at the cursor is being spawned.
    Spawning,
    /// The handles are being entered in the table of the node agent.
    Publishing,
}

/// The state that spawns the application units.
pub struct StartingView {
    pub cursor: nat,
    pub stage: StartingStage,
}

impl StartingView {
    /// The state as it is entered.
    pub open spec fn entered() -> StartingView {
        StartingView { cursor: 0, stage: StartingStage::Entering }
    }

    /// What the control plane is shown.
    pub open spec fn status(self) -> StatusView {
        StatusView { phase: Phase::Starting, reason: "Starting"@ }
    }

    /// Spawns the application unit at `cursor`; after the last one the
    /// handles are published.
    pub open spec fn spawn_from(cursor: nat, pod_state: PodStateView, pod: PodView) -> (
        TransitionView,
        PodStateView,
    ) {
        if cursor < pod.containers.len() {
            (
                TransitionView::Next(
                    StateView::Starting(StartingView { cursor, stage: StartingStage::Spawning }),
                    Some(ActionView::Spawn { key: UnitKey::App(pod.containers[cursor as int]) }),
                ),
                pod_state,
            )
        } else {
            (
                TransitionView::Next(
                    StateView::Starting(StartingView { cursor, stage: StartingStage::Publishing }),
                    Some(ActionView::PublishHandles),
                ),
                pod_state,
            )
        }
    }

    /// The application units are spawned in the order of the manifest, the
    /// handle of each is recorded, and the backoff is left as it is.  A unit
    /// that cannot be spawned is fatal.  When all are spawned the handles
    /// are published and the workload runs.
    pub open spec fn next(self, pod_state: PodStateView, pod: PodView, event: EventView) -> (
        TransitionView,
        PodStateView,
    ) {
        match (self.stage, event) {
            (StartingStage::Entering, EventView::Entered) => Self::spawn_from(0, pod_state, pod),
            (StartingStage::Spawning, EventView::Spawned { handle }) => if self.cursor
                < pod.containers.len() {
                Self::spawn_from(
                    self.cursor + 1,
                    PodStateView {
                        handles: pod_state.handles.insert(
                            UnitKey::App(pod.containers[self.cursor as int]),
                            handle,
                        ),
                        ..pod_state
                    },
                    pod,
                )
            } else {
                (fatal_spec(unexpected_event_message()), pod_state)
            },
            (StartingStage::Spawning, EventView::SpawnFailed { message }) => (
                fatal_spec(message),
                pod_state,
            ),
            (StartingStage::Publishing, EventView::Published) => (
                TransitionView::Next(StateView::Running(RunningView::entered()), None),
                pod_state,
            ),
            _ => (fatal_spec(unexpected_event_message()), pod_state),
        }
    }
}

/// The state that spawns the application units of a workload.
#[derive(Debug)]
pub struct Starting {
    cursor: usize,
    stage: StartingStage,
}

impl View for Starting {
    type V = StartingView;

    closed spec fn view(&self) -> StartingView {
        StartingView { cursor: self.cursor as nat, stage: self.stage }
    }
}

impl Starting {
    /// The state as it is entered.
    pub fn new() -> (state: Starting)
        ensures
            state@ == StartingView::entered(),
    {
        Starting { cursor: 0, stage: StartingStage::Entering }
    }

    /// What the control plane is shown.
    pub fn status(&self) -> (document: StatusDocument)
        ensures
            document@ == self@.status(),
    {
        StatusDocument { phase: Phase::Starting, reason: String::from_str("Starting") }
    }

    fn spawn_from(cursor: usize, pod: &Pod) -> (transition: Transition)
        ensures
            forall|pod_state: PodStateView|
                (transition@, pod_state) == #[trigger] StartingView::spawn_from(
                    cursor as nat,
                    pod_state,
                    pod@,
                ),
    {
        if cursor < pod.containers.len() {
            let name = pod.container_name(cursor);
            Transition::Next(
                LifecycleState::Starting(Starting { cursor, stage: StartingStage::Spawning }),
                Some(Action::Spawn { key: ContainerKey::App(name) }),
            )
        } else {
            Transition::Next(
                LifecycleState::Starting(Starting { cursor, stage: StartingStage::Publishing }),
                Some(Action::PublishHandles),
            )
        }
    }

    /// The state's answer to an event.
    pub fn next(self, pod_state: &mut PodState, pod: &Pod, event: Event) -> (transition: Transition)
        ensures
            (transition@, final(pod_state)@) == self@.next(old(pod_state)@, pod@, event@),
    {
        match self.stage {
            StartingStage::Entering => match event {
                Event::Entered => Self::spawn_from(0, pod),
                _ => unexpected_event(),
            },
            StartingStage::Spawning => match event {
                Event::Spawned { handle } => {
                    if self.cursor < pod.containers.len() {
                        let name = pod.container_name(self.cursor);
                        pod_state.handles.insert(ContainerKey::App(name), handle);
                        Self::spawn_from(self.cursor + 1, pod)
                    } else {
                        unexpected_event()
                    }
                },
                Event::SpawnFailed { message } => fatal(message),
                _ => unexpected_event(),
            },
            StartingStage::Publishing => match event {
                Event::Published => Transition::Next(
                    LifecycleState::Running(Running::new()),
                    None,
                ),
                _ => unexpected_event(),
            },
        }
    }
}

} // verus!
