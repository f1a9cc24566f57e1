//! The state of a workload that is to stop.

use crate::lifecycle::{
    Action, ActionView, Event, EventView, LifecycleState, PodState, PodStateView, StateView,
    Transition, TransitionView,
};
use crate::pod::{Pod, PodView};
use crate::status::{Phase, StatusDocument, StatusView};
use vstd::prelude::*;

verus! {

/// What the state has done so far.
#[derive(Debug, Clone, Copy, PartialEq, Eq, Structural)]
pub enum TerminatedStage {
    /// Nothing yet.
    Entering,
    /// The workers are being cancelled.
    Releasing,
    /// The final report was asked for.
    Reporting,
}

/// The state of a workload that is to stop.
pub struct TerminatedView {
    pub stage: TerminatedStage,
}

impl TerminatedView {
    /// The state as it is entered.
    pub open spec fn entered() -> TerminatedView {
        TerminatedView { stage: TerminatedStage::Entering }
    }

    /// What the control plane is shown.
    pub open spec fn status(self) -> StatusView {
        StatusView { phase: Phase::Terminated, reason: "Terminated"@ }
    }

    /// First the state asks for the workers to be cancelled, whatever the
    /// event; then for the report of its status; then, whatever the
    /// answer, the lifecycle ends without failure.
    pub open spec fn next(self, pod_state: PodStateView, pod: PodView, event: EventView) -> (
        TransitionView,
        PodStateView,
    ) {
        match self.stage {
            TerminatedStage::Entering => (
                TransitionView::Next(
                    StateView::Terminated(TerminatedView { stage: TerminatedStage::Releasing }),
                    Some(ActionView::ReleaseHandles),
                ),
                pod_state,
            ),
            TerminatedStage::Releasing => (
                TransitionView::Next(
                    StateView::Terminated(TerminatedView { stage: TerminatedStage::Reporting }),
                    Some(ActionView::ReportStatus { document: self.status() }),
                ),
                pod_state,
            ),
            TerminatedStage::Reporting => (TransitionView::Complete(Ok(())), pod_state),
        }
    }
}

/// The state of a workload that is to stop: it has every worker cancelled,
/// reports once and ends the lifecycle.
#[derive(Debug, Default)]
pub struct Terminated {
    stage: TerminatedStage,
}

impl Default for TerminatedStage {
    fn default() -> (stage: TerminatedStage)
        ensures
            stage == TerminatedStage::Entering,
    {
        TerminatedStage::Entering
    }
}

impl View for Terminated {
    type V = TerminatedView;

    closed spec fn view(&self) -> TerminatedView {
        TerminatedView { stage: self.stage }
    }
}

impl Terminated {
    /// The state as it is entered.
    pub fn new() -> (state: Terminated)
        ensures
            state@ == TerminatedView::entered(),
    {
        Terminated { stage: TerminatedStage::Entering }
    }

    /// What the control plane is shown.
    pub fn status(&self) -> (document: StatusDocument)
        ensures
            document@ == self@.status(),
    {
        StatusDocument { phase: Phase::Terminated, reason: String::from_str("Terminated") }
    }

    /// The state's answer to an event.
    pub fn next(self, pod_state: &mut PodState, pod: &Pod, event: Event) -> (transition: Transition)
        ensures
            (transition@, final(pod_state)@) == self@.next(old(pod_state)@, pod@, event@),
    {
        match self.stage {
            TerminatedStage::Entering => Transition::Next(
                LifecycleState::Terminated(Terminated { stage: TerminatedStage::Releasing }),
                Some(Action::ReleaseHandles),
            ),
            TerminatedStage::Releasing => {
                let document = self.status();
                Transition::Next(
                    LifecycleState::Terminated(Terminated { stage: TerminatedStage::Reporting }),
                    Some(Action::ReportStatus { document }),
                )
            },
            TerminatedStage::Reporting => Transition::Complete(Ok(())),
        }
    }
}

} // verus!
