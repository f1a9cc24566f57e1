//! The state that runs the init units of a workload, one after the other.

use crate::json::{json_written, written_view};
use crate::lifecycle::{
    fatal, fatal_spec, next_position, position_after, unexpected_event,
    unexpected_event_message, Action, ActionView, Event, EventView, LifecycleState, PodState,
    PodStateView, StateView, Transition, TransitionView,
};
use crate::pod::{ContainerKey, Pod, PodView, UnitKey};
use crate::states::starting::{Starting, StartingView};
use crate::status::{
    failure_patch, failure_patch_written, init_failure_message, make_init_failure_message,
    status_patch_text, ContainerStatus, Phase, StatusDocument, StatusView, UnitStatus,
};
use vstd::prelude::*;

verus! {

/// What the state is waiting for.
pub enum InitializingStageView {
    Entering,
    Spawning,
    Draining,
    Patching { name: Seq<char>, status: UnitStatus },
    Publishing { name: Seq<char> },
    Reporting { message: Seq<char> },
}

/// What the state is waiting for.
#[derive(Debug)]
pub enum InitializingStage {
    /// Nothing yet.
    Entering,
    /// The runtime's answer on spawning the unit at the cursor.
    Spawning,
    /// The next status report.
    Draining,
    /// The answer to the patch of the status that `name` reported.
    Patching { name: String, status: ContainerStatus },
    /// The handles of the units that ran are being published, after the
    /// init unit `name` failed.
    Publishing { name: String },
    /// The answer to the status patch that carries `message`.
    Reporting { message: String },
}

impl View for InitializingStage {
    type V = InitializingStageView;

    open spec fn view(&self) -> InitializingStageView {
        match self {
            InitializingStage::Entering => InitializingStageView::Entering,
            InitializingStage::Spawning => InitializingStageView::Spawning,
            InitializingStage::Draining => InitializingStageView::Draining,
            InitializingStage::Patching { name, status } => InitializingStageView::Patching {
                name: name@,
                status: status@,
            },
            InitializingStage::Publishing { name } => InitializingStageView::Publishing {
                name: name@,
            },
            InitializingStage::Reporting { message } => InitializingStageView::Reporting {
                message: message@,
            },
        }
    }
}

/// The state that runs the init units.
pub struct InitializingView {
    pub cursor: nat,
    pub stage: InitializingStageView,
}

impl InitializingView {
    /// The state as it is entered.
    pub open spec fn entered() -> InitializingView {
        InitializingView { cursor: 0, stage: InitializingStageView::Entering }
    }

    /// What the control plane is shown.
    pub open spec fn status(self) -> StatusView {
        StatusView { phase: Phase::Initializing, reason: "Initializing"@ }
    }

    /// Takes up the init unit at `cursor`.  The backoff is reset at the
    /// boundary of every init unit, and once more after the last one, when
    /// the application units are taken up.
    pub open spec fn begin_unit(cursor: nat, pod_state: PodStateView, pod: PodView) -> (
        TransitionView,
        PodStateView,
    ) {
        let reset = PodStateView { backoff: pod_state.backoff.reset(), ..pod_state };
        if cursor < pod.init_containers.len() {
            (
                TransitionView::Next(
                    StateView::Initializing(
                        InitializingView { cursor, stage: InitializingStageView::Spawning },
                    ),
                    Some(
                        ActionView::Spawn { key: UnitKey::Init(pod.init_containers[cursor as int]) },
                    ),
                ),
                reset,
            )
        } else {
            (TransitionView::Next(StateView::Starting(StartingView::entered()), None), reset)
        }
    }

    /// The transition to the state that waits, at `cursor`, for the next
    /// status report.
    pub open spec fn draining(cursor: nat) -> TransitionView {
        TransitionView::Next(
            StateView::Initializing(
                InitializingView { cursor, stage: InitializingStageView::Draining },
            ),
            Some(ActionView::Receive),
        )
    }

    /// What follows the attempt to write out the status patch of a failed
    /// init unit: the patch is sent, or the attempt's error is fatal.
    pub open spec fn failure_transition(
        cursor: nat,
        message: Seq<char>,
        written: Result<Seq<u8>, Seq<char>>,
    ) -> TransitionView {
        match written {
            Ok(patch) => TransitionView::Next(
                StateView::Initializing(
                    InitializingView { cursor, stage: InitializingStageView::Reporting { message } },
                ),
                Some(ActionView::PatchStatus { patch }),
            ),
            Err(cause) => fatal_spec(cause),
        }
    }

    /// The init units are run in the order of the manifest: each is spawned
    /// and its handle recorded, then status reports are read until one says
    /// that the unit has terminated.  Each report is first patched to the
    /// control plane, whose answer is not looked at.  Where the unit has
    /// failed, the handles are published, a status patch that names the
    /// unit is sent, and the workload fails with that message; the patch
    /// must arrive, else its error is the cause.  A unit that cannot be
    /// spawned is fatal.  Where the reports end, the next unit is taken up.
    pub open spec fn next(self, pod_state: PodStateView, pod: PodView, event: EventView) -> (
        TransitionView,
        PodStateView,
    ) {
        let len = pod.init_containers.len();
        match (self.stage, event) {
            (InitializingStageView::Entering, EventView::Entered) => Self::begin_unit(
                0,
                pod_state,
                pod,
            ),
            (InitializingStageView::Spawning, EventView::Spawned { handle }) => if self.cursor
                < len {
                (
                    Self::draining(self.cursor),
                    PodStateView {
                        handles: pod_state.handles.insert(
                            UnitKey::Init(pod.init_containers[self.cursor as int]),
                            handle,
                        ),
                        ..pod_state
                    },
                )
            } else {
                (fatal_spec(unexpected_event_message()), pod_state)
            },
            (InitializingStageView::Spawning, EventView::SpawnFailed { message }) => (
                fatal_spec(message),
                pod_state,
            ),
            (InitializingStageView::Draining, EventView::Status { name, status }) => (
                TransitionView::Next(
                    StateView::Initializing(
                        InitializingView {
                            cursor: self.cursor,
                            stage: InitializingStageView::Patching { name, status },
                        },
                    ),
                    Some(ActionView::PatchContainerStatus { name, status, init: true }),
                ),
                pod_state,
            ),
            (InitializingStageView::Draining, EventView::ChannelClosed) => Self::begin_unit(
                position_after(self.cursor, len),
                pod_state,
                pod,
            ),
            (InitializingStageView::Patching { name, status }, EventView::Patched { error }) => {
                if status.is_failure() {
                    (
                        TransitionView::Next(
                            StateView::Initializing(
                                InitializingView {
                                    cursor: self.cursor,
                                    stage: InitializingStageView::Publishing { name },
                                },
                            ),
                            Some(ActionView::PublishHandles),
                        ),
                        pod_state,
                    )
                } else if status.is_success() {
                    Self::begin_unit(position_after(self.cursor, len), pod_state, pod)
                } else {
                    (Self::draining(self.cursor), pod_state)
                }
            },
            (InitializingStageView::Publishing { name }, EventView::Published) => (
                Self::failure_transition(
                    self.cursor,
                    init_failure_message(name),
                    failure_patch_written(init_failure_message(name)),
                ),
                pod_state,
            ),
            (InitializingStageView::Reporting { message }, EventView::Patched { error }) => (
                match error {
                    None => fatal_spec(message),
                    Some(cause) => fatal_spec(cause),
                },
                pod_state,
            ),
            _ => (fatal_spec(unexpected_event_message()), pod_state),
        }
    }
}

/// `name` is the name of one of the first `n` units of the list.
pub open spec fn among_first(units: Seq<Seq<char>>, n: nat, name: Seq<char>) -> bool {
    exists|j: int| 0 <= j < n && j < units.len() && #[trigger] units[j] == name
}

impl InitializingView {
    /// How many init units were spawned so far.
    pub open spec fn spawned_units(self) -> nat {
        match self.stage {
            InitializingStageView::Entering => 0,
            InitializingStageView::Spawning => self.cursor,
            _ => self.cursor + 1,
        }
    }

    /// The handles on record are those of the init units that were spawned
    /// so far, and of no other unit; and where a unit is being spawned, it
    /// is one that the manifest declares.
    pub open spec fn records_match(self, pod_state: PodStateView, pod: PodView) -> bool {
        &&& self.spawned_units() <= pod.init_containers.len()
        &&& self.stage is Spawning ==> self.cursor < pod.init_containers.len()
        &&& forall|key: UnitKey|
            pod_state.handles.contains_key(key) <==> (key matches UnitKey::Init(name)
                && among_first(pod.init_containers, self.spawned_units(), name))
    }
}

/// While the init units run, the handles on record are exactly those of
/// the init units that were spawned so far; the state that follows the
/// last init unit, or a failure, finds them so.  The answer to a unit
/// that was spawned is never taken for an event that was not awaited.
pub proof fn law_initializing_records_what_it_spawned(
    state: InitializingView,
    pod_state: PodStateView,
    pod: PodView,
    event: EventView,
)
    requires
        state.records_match(pod_state, pod),
    ensures
        match state.next(pod_state, pod, event) {
            (TransitionView::Next(StateView::Initializing(next), _), after) => next.records_match(
                after,
                pod,
            ),
            (_, after) => after.handles == pod_state.handles,
        },
        state.stage is Spawning && event is Spawned ==> state.next(pod_state, pod, event).0
            == InitializingView::draining(state.cursor),
{
    let len = pod.init_containers.len();
    let (transition, after) = state.next(pod_state, pod, event);
    match (state.stage, event) {
        (InitializingStageView::Spawning, EventView::Spawned { handle }) => {
            if state.cursor < len {
                let unit = pod.init_containers[state.cursor as int];
                assert forall|key: UnitKey|
                    after.handles.contains_key(key) <==> (key matches UnitKey::Init(name)
                        && among_first(pod.init_containers, state.cursor + 1, name)) by {
                    if after.handles.contains_key(key) {
                        if key == UnitKey::Init(unit) {
                            assert(pod.init_containers[state.cursor as int] == unit);
                        } else {
                            assert(pod_state.handles.contains_key(key));
                            let name = key->Init_0;
                            let j = choose|j: int|
                                0 <= j < state.cursor && j < len && #[trigger] pod.init_containers[j]
                                    == name;
                            assert(pod.init_containers[j] == name);
                        }
                    }
                    if key is Init && among_first(
                        pod.init_containers,
                        state.cursor + 1,
                        key->Init_0,
                    ) {
                        let name = key->Init_0;
                        let j = choose|j: int|
                            0 <= j < state.cursor + 1 && j < len && #[trigger] pod.init_containers[j]
                                == name;
                        if j < state.cursor {
                            assert(among_first(pod.init_containers, state.cursor, name));
                        }
                    }
                }
            }
        },
        _ => {},
    }
}

/// The state that runs the init units of a workload.
#[derive(Debug)]
pub struct Initializing {
    cursor: usize,
    stage: InitializingStage,
}

impl View for Initializing {
    type V = InitializingView;

    closed spec fn view(&self) -> InitializingView {
        InitializingView { cursor: self.cursor as nat, stage: self.stage@ }
    }
}

impl Default for Initializing {
    fn default() -> (state: Initializing)
        ensures
            state@ == InitializingView::entered(),
    {
        Initializing::new()
    }
}

impl Initializing {
    /// The state as it is entered.
    pub fn new() -> (state: Initializing)
        ensures
            state@ == InitializingView::entered(),
    {
        Initializing { cursor: 0, stage: InitializingStage::Entering }
    }

    /// What the control plane is shown.
    pub fn status(&self) -> (document: StatusDocument)
        ensures
            document@ == self@.status(),
    {
        StatusDocument { phase: Phase::Initializing, reason: String::from_str("Initializing") }
    }

    /// The status patch that shows the state to the control plane, written
    /// out: the bytes, or the text of the error where it cannot be written.
    /// Neither the workload's data nor the manifest bear on it.
    pub fn json_status(&self, pod_state: &PodState, pod: &Pod) -> (written: Result<Vec<u8>, String>)
        ensures
            written_view(written) == json_written(status_patch_text(self@.status())),
            written matches Ok(bytes) ==> bytes@ == status_patch_text(self@.status()),
    {
        self.status().json_patch()
    }

    fn begin_unit(cursor: usize, pod_state: &mut PodState, pod: &Pod) -> (transition: Transition)
        ensures
            (transition@, final(pod_state)@) == InitializingView::begin_unit(
                cursor as nat,
                old(pod_state)@,
                pod@,
            ),
    {
        pod_state.backoff.reset();
        if cursor < pod.init_containers.len() {
            let name = pod.init_container_name(cursor);
            Transition::Next(
                LifecycleState::Initializing(
                    Initializing { cursor, stage: InitializingStage::Spawning },
                ),
                Some(Action::Spawn { key: ContainerKey::Init(name) }),
            )
        } else {
            Transition::Next(LifecycleState::Starting(Starting::new()), None)
        }
    }

    fn draining(cursor: usize) -> (transition: Transition)
        ensures
            transition@ == InitializingView::draining(cursor as nat),
    {
        Transition::Next(
            LifecycleState::Initializing(
                Initializing { cursor, stage: InitializingStage::Draining },
            ),
            Some(Action::Receive),
        )
    }

    /// What follows the attempt to write out the status patch of a failed
    /// init unit, the state standing at the unit number `cursor`.
    pub fn failure_transition(cursor: usize, message: String, written: Result<Vec<u8>, String>) -> (transition: Transition)
        ensures
            transition@ == InitializingView::failure_transition(
                cursor as nat,
                message@,
                written_view(written),
            ),
    {
        match written {
            Ok(patch) => Transition::Next(
                LifecycleState::Initializing(
                    Initializing { cursor, stage: InitializingStage::Reporting { message } },
                ),
                Some(Action::PatchStatus { patch }),
            ),
            Err(cause) => fatal(cause),
        }
    }

    /// The state's answer to an event.
    pub fn next(self, pod_state: &mut PodState, pod: &Pod, event: Event) -> (transition: Transition)
        ensures
            (transition@, final(pod_state)@) == self@.next(old(pod_state)@, pod@, event@),
    {
        let len = pod.init_containers.len();
        match self.stage {
            InitializingStage::Entering => match event {
                Event::Entered => Self::begin_unit(0, pod_state, pod),
                _ => unexpected_event(),
            },
            InitializingStage::Spawning => match event {
                Event::Spawned { handle } => {
                    if self.cursor < len {
                        let name = pod.init_container_name(self.cursor);
                        pod_state.handles.insert(ContainerKey::Init(name), handle);
                        Self::draining(self.cursor)
                    } else {
                        unexpected_event()
                    }
                },
                Event::SpawnFailed { message } => fatal(message),
                _ => unexpected_event(),
            },
            InitializingStage::Draining => match event {
                Event::Status { name, status } => {
                    let reported = status.clone_status();
                    let unit = name.clone();
                    Transition::Next(
                        LifecycleState::Initializing(
                            Initializing {
                                cursor: self.cursor,
                                stage: InitializingStage::Patching { name, status },
                            },
                        ),
                        Some(
                            Action::PatchContainerStatus {
                                name: unit,
                                status: reported,
                                init: true,
                            },
                        ),
                    )
                },
                Event::ChannelClosed => Self::begin_unit(
                    next_position(self.cursor, len),
                    pod_state,
                    pod,
                ),
                _ => unexpected_event(),
            },
            InitializingStage::Patching { name, status } => match event {
                Event::Patched { error } => {
                    if status.is_failure() {
                        Transition::Next(
                            LifecycleState::Initializing(
                                Initializing {
                                    cursor: self.cursor,
                                    stage: InitializingStage::Publishing { name },
                                },
                            ),
                            Some(Action::PublishHandles),
                        )
                    } else if status.is_success() {
                        Self::begin_unit(next_position(self.cursor, len), pod_state, pod)
                    } else {
                        Self::draining(self.cursor)
                    }
                },
                _ => unexpected_event(),
            },
            InitializingStage::Publishing { name } => match event {
                Event::Published => {
                    let message = make_init_failure_message(name.as_str());
                    let written = failure_patch(message.as_str());
                    Self::failure_transition(self.cursor, message, written)
                },
                _ => unexpected_event(),
            },
            InitializingStage::Reporting { message } => match event {
                Event::Patched { error } => match error {
                    None => fatal(message),
                    Some(cause) => fatal(cause),
                },
                _ => unexpected_event(),
            },
        }
    }
}

} // verus!
