//! What a unit reports of itself, and what the agent reports of a workload.

use crate::json::{
    field_object, field_object_text, json_to_vec, json_written, section_pair, section_pair_text,
    text_pair, text_pair_text, written_view,
};
use vstd::prelude::*;

verus! {

/// What a running unit reports of itself.
pub enum UnitStatus {
    Waiting,
    Running { started_at: int },
    Terminated { finished_at: int, message: Seq<char>, failed: bool },
}

impl UnitStatus {
    /// The unit has terminated and failed.
    pub open spec fn is_failure(self) -> bool {
        self matches UnitStatus::Terminated { failed, .. } && failed
    }

    /// The unit has terminated without failing.
    pub open spec fn is_success(self) -> bool {
        self matches UnitStatus::Terminated { failed, .. } && !failed
    }
}

/// What a running unit reports of itself: it waits, it runs since a time,
/// or it has terminated at a time, with a message, and failed or not.
/// Times are seconds since the epoch.
#[derive(Debug, Clone)]
pub enum ContainerStatus {
    Waiting,
    Running { started_at: i64 },
    Terminated { finished_at: i64, message: String, failed: bool },
}

impl View for ContainerStatus {
    type V = UnitStatus;

    open spec fn view(&self) -> UnitStatus {
        match self {
            ContainerStatus::Waiting => UnitStatus::Waiting,
            ContainerStatus::Running { started_at } => UnitStatus::Running {
                started_at: *started_at as int,
            },
            ContainerStatus::Terminated { finished_at, message, failed } => UnitStatus::Terminated {
                finished_at: *finished_at as int,
                message: message@,
                failed: *failed,
            },
        }
    }
}

impl ContainerStatus {
    /// A copy of the status.
    pub fn clone_status(&self) -> (copy: ContainerStatus)
        ensures
            copy@ == self@,
    {
        match self {
            ContainerStatus::Waiting => ContainerStatus::Waiting,
            ContainerStatus::Running { started_at } => ContainerStatus::Running {
                started_at: *started_at,
            },
            ContainerStatus::Terminated { finished_at, message, failed } => {
                ContainerStatus::Terminated {
                    finished_at: *finished_at,
                    message: message.clone(),
                    failed: *failed,
                }
            },
        }
    }

    /// Whether the unit has terminated and failed.
    pub fn is_failure(&self) -> (failure: bool)
        ensures
            failure == self@.is_failure(),
    {
        match self {
            ContainerStatus::Terminated { failed, .. } => *failed,
            _ => false,
        }
    }

    /// Whether the unit has terminated without failing.
    pub fn is_success(&self) -> (success: bool)
        ensures
            success == self@.is_success(),
    {
        match self {
            ContainerStatus::Terminated { failed, .. } => !*failed,
            _ => false,
        }
    }
}

/// The phase of a workload's lifecycle.
#[derive(Debug, Clone, Copy, PartialEq, Eq, Structural)]
pub enum Phase {
    Initializing,
    Starting,
    Running,
    Error,
    Terminated,
}

impl Phase {
    /// The label of the phase.
    pub open spec fn label_spec(self) -> Seq<char> {
        match self {
            Phase::Initializing => "Initializing"@,
            Phase::Starting => "Starting"@,
            Phase::Running => "Running"@,
            Phase::Error => "Error"@,
            Phase::Terminated => "Terminated"@,
        }
    }

    /// The label of the phase.
    pub fn label(&self) -> (label: String)
        ensures
            label@ == self.label_spec(),
    {
        match self {
            Phase::Initializing => String::from_str("Initializing"),
            Phase::Starting => String::from_str("Starting"),
            Phase::Running => String::from_str("Running"),
            Phase::Error => String::from_str("Error"),
            Phase::Terminated => String::from_str("Terminated"),
        }
    }
}

/// What the control plane is shown of a workload.
pub struct StatusView {
    pub phase: Phase,
    pub reason: Seq<char>,
}

/// What the control plane is shown of a workload: the phase and a reason
/// in words.
#[derive(Debug, Clone)]
pub struct StatusDocument {
    pub phase: Phase,
    pub reason: String,
}

impl View for StatusDocument {
    type V = StatusView;

    open spec fn view(&self) -> StatusView {
        StatusView { phase: self.phase, reason: self.reason@ }
    }
}

/// The JSON text of the status patch that shows a status: an object with
/// an empty resource version under `metadata`, and under `status` the label
/// of the phase as `phase` and the reason as `reason`.
pub open spec fn status_patch_text(status: StatusView) -> Seq<u8> {
    section_pair_text(
        ("metadata"@, field_object_text("resourceVersion"@, ""@)),
        ("status"@, text_pair_text(("phase"@, status.phase.label_spec()), ("reason"@, status.reason))),
    )
}

impl StatusDocument {
    /// Writes out the status patch that shows the status: the bytes, or the
    /// text of the error where the patch cannot be written.
    pub fn json_patch(&self) -> (written: Result<Vec<u8>, String>)
        ensures
            written_view(written) == json_written(status_patch_text(self@)),
            written matches Ok(bytes) ==> bytes@ == status_patch_text(self@),
    {
        let metadata = field_object("resourceVersion", "");
        let label = self.phase.label();
        let status = text_pair("phase", label.as_str(), "reason", self.reason.as_str());
        let patch = section_pair("metadata", metadata, "status", status);
        json_to_vec(&patch)
    }
}

/// The message that reports the failure of the init unit `name`.
pub open spec fn init_failure_message(name: Seq<char>) -> Seq<char> {
    "Init container "@ + name + " failed"@
}

/// The message that reports the failure of the init unit `name`.
pub fn make_init_failure_message(name: &str) -> (message: String)
    ensures
        message@ == init_failure_message(name@),
{
    String::from_str("Init container ").concat(name).concat(" failed")
}

/// The JSON text of the status patch that carries `message`: an object with
/// an empty resource version under `metadata` and the message under
/// `status`.
pub open spec fn failure_patch_text(message: Seq<char>) -> Seq<u8> {
    section_pair_text(
        ("metadata"@, field_object_text("resourceVersion"@, ""@)),
        ("status"@, field_object_text("message"@, message)),
    )
}

/// What comes of writing out the status patch that carries `message`.
pub open spec fn failure_patch_written(message: Seq<char>) -> Result<Seq<u8>, Seq<char>> {
    json_written(failure_patch_text(message))
}

/// Writes out the status patch that carries `message`: the bytes, or the
/// text of the error where the patch cannot be written.
pub fn failure_patch(message: &str) -> (written: Result<Vec<u8>, String>)
    ensures
        written_view(written) == failure_patch_written(message@),
        written matches Ok(bytes) ==> bytes@ == failure_patch_text(message@),
{
    let metadata = field_object("resourceVersion", "");
    let status = field_object("message", message);
    let patch = section_pair("metadata", metadata, "status", status);
    json_to_vec(&patch)
}

} // verus!
