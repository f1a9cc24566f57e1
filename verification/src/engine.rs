//! The engine that drives one workload through its lifecycle.
//!
//! The engine holds the state that is live and the workload's data.  The
//! supervisor hands it every event; the engine asks the live state, follows
//! transitions for as long as they come without an action, and hands back
//! the action to perform.  It knows the states only by what they have in
//! common.  Once the lifecycle is complete the engine asks no state again.

use crate::backoff::BackoffStrategy;
use crate::lifecycle::{
    outcome_view, position_after, Action, ActionView, Event, EventView, LifecycleState, PodState,
    PodStateView, StateView, Transition, TransitionView,
};
use crate::pod::{Pod, PodView, UnitKey};
use crate::states::running::RunningStageView;
use crate::states::starting::StartingView;
use crate::states::initializing::{Initializing, InitializingView};
use crate::states::terminated::{Terminated, TerminatedView};
use crate::json::{json_written, written_view};
use crate::status::{status_patch_text, Phase, StatusDocument, StatusView};
use vstd::prelude::*;

verus! {

/// How far a lifecycle has come.
pub enum ProgressView {
    Live(StateView),
    Complete(Result<(), Seq<char>>),
}

/// How far a lifecycle has come: a state is live, or the lifecycle is
/// complete, with its outcome.
pub enum Progress {
    Live(LifecycleState),
    Complete(Result<(), String>),
}

impl View for Progress {
    type V = ProgressView;

    open spec fn view(&self) -> ProgressView {
        match self {
            Progress::Live(state) => ProgressView::Live(state@),
            Progress::Complete(outcome) => ProgressView::Complete(outcome_view(*outcome)),
        }
    }
}

/// The state's answer to an event, whichever state it is.
pub open spec fn dispatch_spec(
    state: StateView,
    pod_state: PodStateView,
    pod: PodView,
    event: EventView,
) -> (TransitionView, PodStateView) {
    match state {
        StateView::Initializing(s) => s.next(pod_state, pod, event),
        StateView::Starting(s) => s.next(pod_state, pod, event),
        StateView::Running(s) => s.next(pod_state, pod, event),
        StateView::Error(s) => s.next(pod_state, pod, event),
        StateView::Terminated(s) => s.next(pod_state, pod, event),
    }
}

/// What a state shows the control plane, whichever state it is.
pub open spec fn state_status(state: StateView) -> StatusView {
    match state {
        StateView::Initializing(s) => s.status(),
        StateView::Starting(s) => s.status(),
        StateView::Running(s) => s.status(),
        StateView::Error(s) => s.status(),
        StateView::Terminated(s) => s.status(),
    }
}

/// The state is one of the two that only lead to the end of the lifecycle.
pub open spec fn winding_down(state: StateView) -> bool {
    state is Error || state is Terminated
}

/// The engine of one workload.
pub struct EngineView {
    pub progress: ProgressView,
    pub pod_state: PodStateView,
}

impl EngineView {
    /// The lifecycle is complete.
    pub open spec fn is_complete(self) -> bool {
        self.progress is Complete
    }

    /// Asks `state` for its answer to `event` and follows the transitions
    /// that come without an action, entering each next state at once, until
    /// one comes with an action or the lifecycle is complete.  Such a
    /// transition always leads nearer to the end of the lifecycle, so there
    /// is always a next state to enter at once.
    pub open spec fn settle(
        state: StateView,
        pod_state: PodStateView,
        pod: PodView,
        event: EventView,
    ) -> (EngineView, ActionView)
        decreases state.rank(),
    {
        let (transition, changed) = dispatch_spec(state, pod_state, pod, event);
        match transition {
            TransitionView::Next(next, Some(action)) => (
                EngineView { progress: ProgressView::Live(next), pod_state: changed },
                action,
            ),
            TransitionView::Next(next, None) => if next.rank() < state.rank() {
                Self::settle(next, changed, pod, EventView::Entered)
            } else {
                (
                    EngineView { progress: ProgressView::Live(next), pod_state: changed },
                    ActionView::Idle,
                )
            },
            TransitionView::Complete(outcome) => (
                EngineView { progress: ProgressView::Complete(outcome), pod_state: changed },
                ActionView::Stop { outcome },
            ),
        }
    }

    /// The engine's answer to an event.  A complete lifecycle stays as it
    /// is.  The deletion of the workload takes the lifecycle to the
    /// terminated state, unless it has failed or is terminating already;
    /// every other event goes to the live state.
    pub open spec fn advance(self, pod: PodView, event: EventView) -> (EngineView, ActionView) {
        match self.progress {
            ProgressView::Complete(_) => (self, ActionView::Idle),
            ProgressView::Live(state) => if event is Deleted && !winding_down(state) {
                Self::settle(
                    StateView::Terminated(TerminatedView::entered()),
                    self.pod_state,
                    pod,
                    EventView::Entered,
                )
            } else {
                Self::settle(state, self.pod_state, pod, event)
            },
        }
    }

    /// The engine after a series of events.
    pub open spec fn run(self, pod: PodView, events: Seq<EventView>) -> EngineView
        decreases events.len(),
    {
        if events.len() == 0 {
            self
        } else {
            self.run(pod, events.drop_last()).advance(pod, events.last()).0
        }
    }

    /// The action that answers the event number `n` of a series.
    pub open spec fn nth_action(self, pod: PodView, events: Seq<EventView>, n: int) -> ActionView
        recommends
            0 <= n < events.len(),
    {
        self.run(pod, events.take(n)).advance(pod, events[n]).1
    }

    /// What the control plane is shown.
    pub open spec fn status(self) -> StatusView {
        match self.progress {
            ProgressView::Live(state) => state_status(state),
            ProgressView::Complete(Ok(_)) => StatusView {
                phase: Phase::Terminated,
                reason: "Terminated"@,
            },
            ProgressView::Complete(Err(message)) => StatusView {
                phase: Phase::Error,
                reason: message,
            },
        }
    }
}

/// A transition that comes without an action leads nearer to the end of
/// the lifecycle.
pub proof fn lemma_silent_transition_descends(
    state: StateView,
    pod_state: PodStateView,
    pod: PodView,
    event: EventView,
)
    ensures
        dispatch_spec(state, pod_state, pod, event).0 matches TransitionView::Next(next, None)
            ==> next.rank() < state.rank(),
{
}

/// A copy of an outcome.
pub fn copy_outcome(outcome: &Result<(), String>) -> (copy: Result<(), String>)
    ensures
        outcome_view(copy) == outcome_view(*outcome),
{
    match outcome {
        Ok(_) => Ok(()),
        Err(message) => Err(message.clone()),
    }
}

/// The state's answer to an event, whichever state it is.
pub fn dispatch(state: LifecycleState, pod_state: &mut PodState, pod: &Pod, event: Event) -> (transition:
    Transition)
    ensures
        (transition@, final(pod_state)@) == dispatch_spec(state@, old(pod_state)@, pod@, event@),
{
    match state {
        LifecycleState::Initializing(s) => s.next(pod_state, pod, event),
        LifecycleState::Starting(s) => s.next(pod_state, pod, event),
        LifecycleState::Running(s) => s.next(pod_state, pod, event),
        LifecycleState::Error(s) => s.next(pod_state, pod, event),
        LifecycleState::Terminated(s) => s.next(pod_state, pod, event),
    }
}

/// The engine of one workload.
pub struct Engine {
    progress: Progress,
    pod_state: PodState,
}

impl View for Engine {
    type V = EngineView;

    closed spec fn view(&self) -> EngineView {
        EngineView { progress: self.progress@, pod_state: self.pod_state@ }
    }
}

impl Engine {
    /// The engine of a workload that was just admitted: the initializing
    /// state is live and was not entered yet.
    pub fn new(backoff: BackoffStrategy) -> (engine: Engine)
        ensures
            engine@.progress == ProgressView::Live(
                StateView::Initializing(InitializingView::entered()),
            ),
            engine@.pod_state == (PodStateView {
                backoff: backoff@,
                handles: Map::empty(),
                completed: Set::empty(),
            }),
    {
        Engine {
            progress: Progress::Live(LifecycleState::Initializing(Initializing::new())),
            pod_state: PodState::new(backoff),
        }
    }

    /// Whether the lifecycle is complete.
    pub fn is_complete(&self) -> (complete: bool)
        ensures
            complete == self@.is_complete(),
    {
        match &self.progress {
            Progress::Live(_) => false,
            Progress::Complete(_) => true,
        }
    }

    /// The workload's data.
    pub fn pod_state(&self) -> (pod_state: &PodState)
        ensures
            pod_state@ == self@.pod_state,
    {
        &self.pod_state
    }

    /// What the control plane is shown of the workload.  The engine is left
    /// as it is.
    pub fn project_status(&self, pod: &Pod) -> (document: StatusDocument)
        ensures
            document@ == self@.status(),
    {
        match &self.progress {
            Progress::Live(LifecycleState::Initializing(s)) => s.status(),
            Progress::Live(LifecycleState::Starting(s)) => s.status(),
            Progress::Live(LifecycleState::Running(s)) => s.status(),
            Progress::Live(LifecycleState::Error(s)) => s.status(),
            Progress::Live(LifecycleState::Terminated(s)) => s.status(),
            Progress::Complete(Ok(_)) => StatusDocument {
                phase: Phase::Terminated,
                reason: String::from_str("Terminated"),
            },
            Progress::Complete(Err(message)) => StatusDocument {
                phase: Phase::Error,
                reason: message.clone(),
            },
        }
    }

    /// The status patch that shows the workload to the control plane,
    /// written out: the bytes, or the text of the error where it cannot be
    /// written.  The engine is left as it is.
    pub fn json_status(&self, pod: &Pod) -> (written: Result<Vec<u8>, String>)
        ensures
            written_view(written) == json_written(status_patch_text(self@.status())),
            written matches Ok(bytes) ==> bytes@ == status_patch_text(self@.status()),
    {
        self.project_status(pod).json_patch()
    }

    fn settle(state: LifecycleState, pod_state: &mut PodState, pod: &Pod, event: Event) -> (settled:
        (Progress, Action))
        ensures
            (EngineView { progress: settled.0@, pod_state: final(pod_state)@ }, settled.1@)
                == EngineView::settle(state@, old(pod_state)@, pod@, event@),
        decreases state@.rank(),
    {
        proof {
            lemma_silent_transition_descends(state@, pod_state@, pod@, event@);
        }
        match dispatch(state, pod_state, pod, event) {
            Transition::Next(next, Some(action)) => (Progress::Live(next), action),
            Transition::Next(next, None) => Self::settle(next, pod_state, pod, Event::Entered),
            Transition::Complete(outcome) => {
                let copy = copy_outcome(&outcome);
                (Progress::Complete(outcome), Action::Stop { outcome: copy })
            },
        }
    }

    /// Enters the first state.
    pub fn start(&mut self, pod: &Pod) -> (action: Action)
        ensures
            (final(self)@, action@) == old(self)@.advance(pod@, EventView::Entered),
    {
        self.advance(pod, Event::Entered)
    }

    /// The engine's answer to an event: the action to perform next.
    pub fn advance(&mut self, pod: &Pod, event: Event) -> (action: Action)
        ensures
            (final(self)@, action@) == old(self)@.advance(pod@, event@),
    {
        let mut progress = Progress::Complete(Ok(()));
        core::mem::swap(&mut self.progress, &mut progress);
        match progress {
            Progress::Complete(outcome) => {
                self.progress = Progress::Complete(outcome);
                Action::Idle
            },
            Progress::Live(state) => {
                let deleted = match event {
                    Event::Deleted => true,
                    _ => false,
                };
                let winding_down = match state {
                    LifecycleState::Error(_) => true,
                    LifecycleState::Terminated(_) => true,
                    _ => false,
                };
                let (settled, action) = if deleted && !winding_down {
                    Self::settle(
                        LifecycleState::Terminated(Terminated::new()),
                        &mut self.pod_state,
                        pod,
                        Event::Entered,
                    )
                } else {
                    Self::settle(state, &mut self.pod_state, pod, event)
                };
                self.progress = settled;
                action
            },
        }
    }
}

/// A complete lifecycle is final: the engine's answer to any event is to
/// do nothing, and the engine stays as it is.
pub proof fn law_complete_is_final(engine: EngineView, pod: PodView, event: EventView)
    requires
        engine.is_complete(),
    ensures
        engine.advance(pod, event) == (engine, ActionView::Idle),
{
}

/// Once a series of events has completed the lifecycle, no later event of
/// the series changes the engine or is answered by an action.
pub proof fn law_nothing_follows_completion(
    engine: EngineView,
    pod: PodView,
    events: Seq<EventView>,
    k: int,
    n: int,
)
    requires
        0 <= k <= n < events.len(),
        engine.run(pod, events.take(k)).is_complete(),
    ensures
        engine.run(pod, events.take(n)) == engine.run(pod, events.take(k)),
        engine.run(pod, events.take(n + 1)) == engine.run(pod, events.take(k)),
        engine.nth_action(pod, events, n) == ActionView::Idle,
    decreases n - k,
{
    if k < n {
        law_nothing_follows_completion(engine, pod, events, k, n - 1);
    }
    let upto = events.take(n + 1);
    assert(upto.drop_last() =~= events.take(n));
    assert(upto.last() == events[n]);
}

/// The deletion of the workload while a unit's restart waits for the
/// backoff delay takes the lifecycle to the terminated state: the workers
/// are cancelled, and the unit is not spawned again.
pub proof fn law_deletion_during_backoff(engine: EngineView, pod: PodView)
    requires
        engine.progress matches ProgressView::Live(StateView::Running(running))
            && running.stage is BackingOff,
    ensures
        engine.advance(pod, EventView::Deleted).1 == ActionView::ReleaseHandles,
        engine.advance(pod, EventView::Deleted).0.progress matches ProgressView::Live(
            StateView::Terminated(_),
        ),
        engine.advance(pod, EventView::Deleted).0.pod_state == engine.pod_state,
{
    reveal_with_fuel(EngineView::settle, 2);
}

/// The lifecycle has failed, is terminating, or is complete.
pub open spec fn stopping(engine: EngineView) -> bool {
    match engine.progress {
        ProgressView::Live(state) => winding_down(state),
        ProgressView::Complete(_) => true,
    }
}

/// From the error state and from the terminated state the lifecycle only
/// goes on to its end: no event makes the engine ask for a unit to be
/// spawned, or for a wait, and the workload's data stay as they are.
pub proof fn law_stopping_never_restarts(engine: EngineView, pod: PodView, event: EventView)
    requires
        stopping(engine),
    ensures
        stopping(engine.advance(pod, event).0),
        !(engine.advance(pod, event).1 is Spawn),
        !(engine.advance(pod, event).1 is Wait),
        engine.advance(pod, event).0.pod_state == engine.pod_state,
{
    reveal_with_fuel(EngineView::settle, 2);
}

/// After the deletion of the workload no event of a series, whatever the
/// state before, is answered by the spawning of a unit.
pub proof fn law_no_restart_after_deletion(
    engine: EngineView,
    pod: PodView,
    events: Seq<EventView>,
    k: int,
    n: int,
)
    requires
        0 <= k <= n < events.len(),
        events[k] is Deleted,
    ensures
        stopping(engine.run(pod, events.take(n + 1))),
        !(engine.nth_action(pod, events, n) is Spawn),
    decreases n - k,
{
    let before = engine.run(pod, events.take(n));
    let upto = events.take(n + 1);
    assert(upto.drop_last() =~= events.take(n));
    assert(upto.last() == events[n]);
    if k < n {
        law_no_restart_after_deletion(engine, pod, events, k, n - 1);
        law_stopping_never_restarts(before, pod, events[n]);
    } else {
        lemma_deletion_stops(before, pod);
    }
}

/// After the deletion of the workload the lifecycle is on its way to the
/// end, and the deletion is not answered by a spawn.
pub proof fn lemma_deletion_stops(engine: EngineView, pod: PodView)
    ensures
        stopping(engine.advance(pod, EventView::Deleted).0),
        !(engine.advance(pod, EventView::Deleted).1 is Spawn),
{
    reveal_with_fuel(EngineView::settle, 2);
}

/// A state may hand over to itself, and besides: the initializing state to
/// the starting state, the starting state to the running state, the running
/// state to the terminated state, and each of the three to the error state.
pub open spec fn transition_allowed(from: Phase, to: Phase) -> bool {
    from == to || match from {
        Phase::Initializing => to == Phase::Starting || to == Phase::Error,
        Phase::Starting => to == Phase::Running || to == Phase::Error,
        Phase::Running => to == Phase::Terminated || to == Phase::Error,
        Phase::Error => false,
        Phase::Terminated => false,
    }
}

/// Every transition that a state decides on is an allowed one, and none
/// leads back to a state that the lifecycle has left.
pub proof fn law_transitions_are_allowed(
    state: StateView,
    pod_state: PodStateView,
    pod: PodView,
    event: EventView,
)
    ensures
        dispatch_spec(state, pod_state, pod, event).0 matches TransitionView::Next(next, _)
            ==> transition_allowed(state_status(state).phase, state_status(next).phase)
            && next.rank() <= state.rank(),
{
}

/// No state removes a handle: whatever the event, the units with a handle
/// on record before have one after.
pub proof fn law_handles_are_kept(
    state: StateView,
    pod_state: PodStateView,
    pod: PodView,
    event: EventView,
)
    ensures
        pod_state.handles.dom().subset_of(
            dispatch_spec(state, pod_state, pod, event).1.handles.dom(),
        ),
{
}

/// The manifest declares the unit.
pub open spec fn declared(pod: PodView, key: UnitKey) -> bool {
    match key {
        UnitKey::Init(name) => pod.init_containers.contains(name),
        UnitKey::App(name) => pod.containers.contains(name),
    }
}

/// The unit that the state is about to spawn again, if it is.
pub open spec fn unit_in_restart(state: StateView) -> Option<Seq<char>> {
    match state {
        StateView::Running(running) => match running.stage {
            RunningStageView::BackingOff { name } => Some(name),
            RunningStageView::Respawning { name } => Some(name),
            _ => None,
        },
        _ => None,
    }
}

/// Every handle on record is that of a declared unit, and so is the unit
/// that the state is about to spawn again.
pub open spec fn handles_are_declared(state: StateView, pod_state: PodStateView, pod: PodView) -> bool {
    &&& forall|key: UnitKey| pod_state.handles.contains_key(key) ==> declared(pod, key)
    &&& unit_in_restart(state) matches Some(name) ==> pod.containers.contains(name)
}

/// No state records a handle for a unit that the manifest does not
/// declare, and none asks for such a unit to be spawned.
pub proof fn law_only_declared_units_are_spawned(
    state: StateView,
    pod_state: PodStateView,
    pod: PodView,
    event: EventView,
)
    requires
        handles_are_declared(state, pod_state, pod),
    ensures
        match dispatch_spec(state, pod_state, pod, event) {
            (TransitionView::Next(next, action), after) => {
                &&& handles_are_declared(next, after, pod)
                &&& action matches Some(ActionView::Spawn { key }) ==> declared(pod, key)
            },
            (TransitionView::Complete(_), after) => after == pod_state,
        },
{
    match state {
        StateView::Initializing(s) => {
            if s.cursor < pod.init_containers.len() {
                assert(pod.init_containers.contains(pod.init_containers[s.cursor as int]));
            }
            let after = position_after(s.cursor, pod.init_containers.len());
            if after < pod.init_containers.len() {
                assert(pod.init_containers.contains(pod.init_containers[after as int]));
            }
            if 0 < pod.init_containers.len() {
                assert(pod.init_containers.contains(pod.init_containers[0]));
            }
        },
        StateView::Starting(s) => {
            if s.cursor < pod.containers.len() {
                assert(pod.containers.contains(pod.containers[s.cursor as int]));
            }
            if s.cursor + 1 < pod.containers.len() {
                assert(pod.containers.contains(pod.containers[s.cursor as int + 1]));
            }
            if 0 < pod.containers.len() {
                assert(pod.containers.contains(pod.containers[0]));
            }
        },
        _ => {},
    }
}

/// Every handle that the engine has on record is that of a declared unit.
pub open spec fn coherent(engine: EngineView, pod: PodView) -> bool {
    match engine.progress {
        ProgressView::Live(state) => handles_are_declared(state, engine.pod_state, pod),
        ProgressView::Complete(_) => forall|key: UnitKey|
            engine.pod_state.handles.contains_key(key) ==> declared(pod, key),
    }
}

/// Following silent transitions keeps the handles on record those of
/// declared units.
pub proof fn lemma_settle_keeps_coherent(
    state: StateView,
    pod_state: PodStateView,
    pod: PodView,
    event: EventView,
)
    requires
        handles_are_declared(state, pod_state, pod),
    ensures
        coherent(EngineView::settle(state, pod_state, pod, event).0, pod),
        EngineView::settle(state, pod_state, pod, event).1 matches ActionView::Spawn { key }
            ==> declared(pod, key),
    decreases state.rank(),
{
    law_only_declared_units_are_spawned(state, pod_state, pod, event);
    let (transition, changed) = dispatch_spec(state, pod_state, pod, event);
    match transition {
        TransitionView::Next(next, None) => {
            if next.rank() < state.rank() {
                lemma_settle_keeps_coherent(next, changed, pod, EventView::Entered);
            }
        },
        _ => {},
    }
}

/// Whatever the events, the engine of a workload never records a handle
/// for a unit that the manifest does not declare, and never asks for such
/// a unit to be spawned.
pub proof fn law_every_run_spawns_declared_units(
    engine: EngineView,
    pod: PodView,
    events: Seq<EventView>,
    n: int,
)
    requires
        coherent(engine, pod),
        0 <= n < events.len(),
    ensures
        coherent(engine.run(pod, events.take(n)), pod),
        coherent(engine.run(pod, events.take(n + 1)), pod),
        engine.nth_action(pod, events, n) matches ActionView::Spawn { key } ==> declared(pod, key),
    decreases n,
{
    if n > 0 {
        law_every_run_spawns_declared_units(engine, pod, events, n - 1);
    }
    let before = engine.run(pod, events.take(n));
    let upto = events.take(n + 1);
    assert(upto.drop_last() =~= events.take(n));
    assert(upto.last() == events[n]);
    match before.progress {
        ProgressView::Complete(_) => {},
        ProgressView::Live(state) => {
            if events[n] is Deleted && !winding_down(state) {
                lemma_settle_keeps_coherent(
                    StateView::Terminated(TerminatedView::entered()),
                    before.pod_state,
                    pod,
                    EventView::Entered,
                );
            } else {
                lemma_settle_keeps_coherent(state, before.pod_state, pod, events[n]);
            }
        },
    }
}

/// A lifecycle ends from the error state or from the terminated state
/// alone: with the cause of the failure from the one, without failure from
/// the other.
pub proof fn law_lifecycles_end_in_error_or_terminated(
    state: StateView,
    pod_state: PodStateView,
    pod: PodView,
    event: EventView,
)
    ensures
        match dispatch_spec(state, pod_state, pod, event).0 {
            TransitionView::Complete(Err(cause)) => state matches StateView::Error(failed)
                && failed.message == cause,
            TransitionView::Complete(Ok(_)) => state is Terminated,
            TransitionView::Next(_, _) => true,
        },
{
}

/// Whenever an init unit is taken up, and when the init units hand over to
/// the application units, the backoff is at its base delay.
pub proof fn law_init_units_reset_the_backoff(
    state: InitializingView,
    pod_state: PodStateView,
    pod: PodView,
    event: EventView,
)
    ensures
        match state.next(pod_state, pod, event) {
            (TransitionView::Next(_, Some(ActionView::Spawn { key })), after) => after.backoff
                == pod_state.backoff.reset(),
            (TransitionView::Next(StateView::Starting(_), _), after) => after.backoff
                == pod_state.backoff.reset(),
            _ => true,
        },
{
}

/// While the application units are spawned the backoff is left as it is.
pub proof fn law_starting_keeps_backoff(
    state: StartingView,
    pod_state: PodStateView,
    pod: PodView,
    event: EventView,
)
    ensures
        state.next(pod_state, pod, event).1.backoff == pod_state.backoff,
{
}

/// While the workload runs the backoff is never reset: whatever the event,
/// it is left as it is or it escalates.
pub proof fn law_running_keeps_backoff(
    state: StateView,
    pod_state: PodStateView,
    pod: PodView,
    event: EventView,
)
    requires
        state is Running,
    ensures
        ({
            let after = dispatch_spec(state, pod_state, pod, event).1.backoff;
            after == pod_state.backoff || after == pod_state.backoff.escalate()
        }),
{
}

} // verus!
