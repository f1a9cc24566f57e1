//! The state of a workload that failed.

use crate::lifecycle::{
    Action, ActionView, Event, EventView, PodState, PodStateView, StateView, Transition,
    TransitionView, LifecycleState,
};
use crate::pod::{Pod, PodView};
use crate::status::{Phase, StatusDocument, StatusView};
use vstd::prelude::*;

verus! {

/// What the state has done so far.
#[derive(Debug, Clone, Copy, PartialEq, Eq, Structural)]
pub enum ErrorStage {
    /// Nothing yet.
    Entering,
    /// The final report was asked for.
    Reporting,
}

/// The state of a workload that failed.
pub struct ErrorView {
    pub message: Seq<char>,
    pub stage: ErrorStage,
}

impl ErrorView {
    /// The state as it is entered.
    pub open spec fn entered(message: Seq<char>) -> ErrorView {
        ErrorView { message, stage: ErrorStage::Entering }
    }

    /// What the control plane is shown.
    pub open spec fn status(self) -> StatusView {
        StatusView { phase: Phase::Error, reason: self.message }
    }

    /// First the state asks for the report of its status, whatever the
    /// event; then, whatever the answer, the lifecycle ends in failure,
    /// with the cause.
    pub open spec fn next(self, pod_state: PodStateView, pod: PodView, event: EventView) -> (
        TransitionView,
        PodStateView,
    ) {
        match self.stage {
            ErrorStage::Entering => (
                TransitionView::Next(
                    StateView::Error(ErrorView { stage: ErrorStage::Reporting, ..self }),
                    Some(ActionView::ReportStatus { document: self.status() }),
                ),
                pod_state,
            ),
            ErrorStage::Reporting => (TransitionView::Complete(Err(self.message)), pod_state),
        }
    }
}

/// The state of a workload that failed: it holds the cause, reports it once
/// and ends the lifecycle.
#[derive(Debug)]
pub struct Error {
    message: String,
    stage: ErrorStage,
}

impl View for Error {
    type V = ErrorView;

    closed spec fn view(&self) -> ErrorView {
        ErrorView { message: self.message@, stage: self.stage }
    }
}

impl Error {
    /// The state as it is entered, with the cause of the failure.
    pub fn new(message: String) -> (state: Error)
        ensures
            state@ == ErrorView::entered(message@),
    {
        Error { message, stage: ErrorStage::Entering }
    }

    /// What the control plane is shown: the phase and the cause.
    pub fn status(&self) -> (document: StatusDocument)
        ensures
            document@ == self@.status(),
    {
        StatusDocument { phase: Phase::Error, reason: self.message.clone() }
    }

    /// The state's answer to an event.
    pub fn next(self, pod_state: &mut PodState, pod: &Pod, event: Event) -> (transition: Transition)
        ensures
            (transition@, final(pod_state)@) == self@.next(old(pod_state)@, pod@, event@),
    {
        match self.stage {
            ErrorStage::Entering => {
                let document = self.status();
                Transition::Next(
                    LifecycleState::Error(
                        Error { message: self.message, stage: ErrorStage::Reporting },
                    ),
                    Some(Action::ReportStatus { document }),
                )
            },
            ErrorStage::Reporting => Transition::Complete(Err(self.message)),
        }
    }
}

} // verus!
