//! The state of a workload whose application units run.

use crate::lifecycle::{
    fatal, fatal_spec, unexpected_event, unexpected_event_message, Action, ActionView, Event,
    EventView, LifecycleState, PodState, PodStateView, StateView, Transition, TransitionView,
};
use crate::pod::{ContainerKey, Pod, PodView, UnitKey};
use crate::states::terminated::{Terminated, TerminatedView};
use crate::status::{ContainerStatus, Phase, StatusDocument, StatusView, UnitStatus};
use crate::strmap::StringMap;
use vstd::prelude::*;

verus! {

/// What the state is waiting for.
pub enum RunningStageView {
    Entering,
    Draining,
    Patching { name: Seq<char>, status: UnitStatus },
    BackingOff { name: Seq<char> },
    Respawning { name: Seq<char> },
}

/// What the state is waiting for.
#[derive(Debug)]
pub enum RunningStage {
    /// Nothing yet.
    Entering,
    /// The next status report.
    Draining,
    /// The answer to the patch of the status that `name` reported.
    Patching { name: String, status: ContainerStatus },
    /// The end of the backoff delay before `name` is spawned again.
    BackingOff { name: String },
    /// The runtime's answer on spawning `name` again.
    Respawning { name: String },
}

impl View for RunningStage {
    type V = RunningStageView;

    open spec fn view(&self) -> RunningStageView {
        match self {
            RunningStage::Entering => RunningStageView::Entering,
            RunningStage::Draining => RunningStageView::Draining,
            RunningStage::Patching { name, status } => RunningStageView::Patching {
                name: name@,
                status: status@,
            },
            RunningStage::BackingOff { name } => RunningStageView::BackingOff { name: name@ },
            RunningStage::Respawning { name } => RunningStageView::Respawning { name: name@ },
        }
    }
}

/// Every unit of the list has run to completion.
pub open spec fn all_completed(units: Seq<Seq<char>>, completed: Set<Seq<char>>) -> bool {
    forall|i: int| 0 <= i < units.len() ==> completed.contains(#[trigger] units[i])
}

/// The cause given where a unit fails that the manifest does not declare.
pub open spec fn unknown_unit_message() -> Seq<char> {
    "status of an undeclared unit"@
}

/// The state of a workload whose application units run.
pub struct RunningView {
    pub stage: RunningStageView,
}

impl RunningView {
    /// The state as it is entered.
    pub open spec fn entered() -> RunningView {
        RunningView { stage: RunningStageView::Entering }
    }

    /// The transition to the state that waits for the next status report.
    pub open spec fn draining() -> TransitionView {
        TransitionView::Next(
            StateView::Running(RunningView { stage: RunningStageView::Draining }),
            Some(ActionView::Receive),
        )
    }

    /// What the control plane is shown.
    pub open spec fn status(self) -> StatusView {
        StatusView { phase: Phase::Running, reason: "Running"@ }
    }

    /// What the state does with a status once its patch is answered.  A
    /// declared unit that failed is spawned again after the backoff delay,
    /// and the backoff escalates.  A unit that ran to completion is noted;
    /// when every declared unit has, the workload stops.  Any other status
    /// is passed over.
    pub open spec fn on_status(
        name: Seq<char>,
        status: UnitStatus,
        pod_state: PodStateView,
        pod: PodView,
    ) -> (TransitionView, PodStateView) {
        if status.is_failure() {
            if pod.containers.contains(name) {
                (
                    TransitionView::Next(
                        StateView::Running(
                            RunningView { stage: RunningStageView::BackingOff { name } },
                        ),
                        Some(ActionView::Wait { delay_ms: pod_state.backoff.current }),
                    ),
                    PodStateView { backoff: pod_state.backoff.escalate(), ..pod_state },
                )
            } else {
                (fatal_spec(unknown_unit_message()), pod_state)
            }
        } else if status.is_success() {
            let completed = pod_state.completed.insert(name);
            if all_completed(pod.containers, completed) {
                (
                    TransitionView::Next(StateView::Terminated(TerminatedView::entered()), None),
                    PodStateView { completed, ..pod_state },
                )
            } else {
                (Self::draining(), PodStateView { completed, ..pod_state })
            }
        } else {
            (Self::draining(), pod_state)
        }
    }

    /// The state reads status reports for as long as the workload lives.
    /// Each report is first patched to the control plane, whose answer is
    /// not looked at, and then acted on.  A unit that cannot be spawned
    /// again is fatal.  When no worker is left that could report, the
    /// workload stops.
    pub open spec fn next(self, pod_state: PodStateView, pod: PodView, event: EventView) -> (
        TransitionView,
        PodStateView,
    ) {
        match (self.stage, event) {
            (RunningStageView::Entering, EventView::Entered) => (Self::draining(), pod_state),
            (RunningStageView::Draining, EventView::Status { name, status }) => (
                TransitionView::Next(
                    StateView::Running(
                        RunningView { stage: RunningStageView::Patching { name, status } },
                    ),
                    Some(ActionView::PatchContainerStatus { name, status, init: false }),
                ),
                pod_state,
            ),
            (RunningStageView::Draining, EventView::ChannelClosed) => (
                TransitionView::Next(StateView::Terminated(TerminatedView::entered()), None),
                pod_state,
            ),
            (RunningStageView::Patching { name, status }, EventView::Patched { error }) => {
                Self::on_status(name, status, pod_state, pod)
            },
            (RunningStageView::BackingOff { name }, EventView::WaitElapsed) => (
                TransitionView::Next(
                    StateView::Running(RunningView { stage: RunningStageView::Respawning { name } }),
                    Some(ActionView::Spawn { key: UnitKey::App(name) }),
                ),
                pod_state,
            ),
            (RunningStageView::Respawning { name }, EventView::Spawned { handle }) => (
                Self::draining(),
                PodStateView {
                    handles: pod_state.handles.insert(UnitKey::App(name), handle),
                    ..pod_state
                },
            ),
            (RunningStageView::Respawning { name }, EventView::SpawnFailed { message }) => (
                fatal_spec(message),
                pod_state,
            ),
            _ => (fatal_spec(unexpected_event_message()), pod_state),
        }
    }
}

/// The state of a workload whose application units run.
#[derive(Debug)]
pub struct Running {
    stage: RunningStage,
}

impl View for Running {
    type V = RunningView;

    closed spec fn view(&self) -> RunningView {
        RunningView { stage: self.stage@ }
    }
}

/// Whether every declared application unit has run to completion.
pub fn every_unit_completed(pod: &Pod, completed: &StringMap<bool>) -> (all: bool)
    ensures
        all == all_completed(pod@.containers, completed@.dom()),
{
    let mut i: usize = 0;
    while i < pod.containers.len()
        invariant
            i <= pod.containers@.len(),
            forall|j: int| 0 <= j < i ==> completed@.dom().contains(#[trigger] pod@.containers[j]),
        decreases pod.containers@.len() - i,
    {
        if !completed.contains_key(&pod.containers[i].name) {
            assert(!completed@.dom().contains(pod@.containers[i as int]));
            return false;
        }
        i += 1;
    }
    true
}

impl Running {
    /// The state as it is entered.
    pub fn new() -> (state: Running)
        ensures
            state@ == RunningView::entered(),
    {
        Running { stage: RunningStage::Entering }
    }

    /// What the control plane is shown.
    pub fn status(&self) -> (document: StatusDocument)
        ensures
            document@ == self@.status(),
    {
        StatusDocument { phase: Phase::Running, reason: String::from_str("Running") }
    }

    fn draining() -> (transition: Transition)
        ensures
            transition@ == RunningView::draining(),
    {
        Transition::Next(
            LifecycleState::Running(Running { stage: RunningStage::Draining }),
            Some(Action::Receive),
        )
    }

    /// What the state does with a status once its patch is answered.
    pub fn on_status(name: String, status: ContainerStatus, pod_state: &mut PodState, pod: &Pod) -> (transition: Transition)
        ensures
            (transition@, final(pod_state)@) == RunningView::on_status(
                name@,
                status@,
                old(pod_state)@,
                pod@,
            ),
    {
        if status.is_failure() {
            if pod.has_container(&name) {
                let delay_ms = pod_state.backoff.next_delay();
                Transition::Next(
                    LifecycleState::Running(Running { stage: RunningStage::BackingOff { name } }),
                    Some(Action::Wait { delay_ms }),
                )
            } else {
                fatal(String::from_str("status of an undeclared unit"))
            }
        } else if status.is_success() {
            pod_state.completed.insert(name, true);
            assert(pod_state.completed@.dom() =~= old(pod_state).completed@.dom().insert(name@));
            if every_unit_completed(pod, &pod_state.completed) {
                Transition::Next(LifecycleState::Terminated(Terminated::new()), None)
            } else {
                Self::draining()
            }
        } else {
            Self::draining()
        }
    }

    /// The state's answer to an event.
    pub fn next(self, pod_state: &mut PodState, pod: &Pod, event: Event) -> (transition: Transition)
        ensures
            (transition@, final(pod_state)@) == self@.next(old(pod_state)@, pod@, event@),
    {
        match self.stage {
            RunningStage::Entering => match event {
                Event::Entered => Self::draining(),
                _ => unexpected_event(),
            },
            RunningStage::Draining => match event {
                Event::Status { name, status } => {
                    let reported = status.clone_status();
                    let unit = name.clone();
                    Transition::Next(
                        LifecycleState::Running(
                            Running { stage: RunningStage::Patching { name, status } },
                        ),
                        Some(
                            Action::PatchContainerStatus {
                                name: unit,
                                status: reported,
                                init: false,
                            },
                        ),
                    )
                },
                Event::ChannelClosed => Transition::Next(
                    LifecycleState::Terminated(Terminated::new()),
                    None,
                ),
                _ => unexpected_event(),
            },
            RunningStage::Patching { name, status } => match event {
                Event::Patched { error } => Self::on_status(name, status, pod_state, pod),
                _ => unexpected_event(),
            },
            RunningStage::BackingOff { name } => match event {
                Event::WaitElapsed => {
                    let unit = name.clone();
                    Transition::Next(
                        LifecycleState::Running(
                            Running { stage: RunningStage::Respawning { name } },
                        ),
                        Some(Action::Spawn { key: ContainerKey::App(unit) }),
                    )
                },
                _ => unexpected_event(),
            },
            RunningStage::Respawning { name } => match event {
                Event::Spawned { handle } => {
                    pod_state.handles.insert(ContainerKey::App(name), handle);
                    Self::draining()
                },
                Event::SpawnFailed { message } => fatal(message),
                _ => unexpected_event(),
            },
        }
    }
}

} // verus!
