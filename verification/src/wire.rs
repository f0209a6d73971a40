//! What travels between the agent and its backend: work orders, the answer
//! to a heartbeat, acknowledgments, and the addresses and headers of the
//! requests that carry them.

use vstd::prelude::*;
use crate::text::{optional_text, push_text, same_text};

verus! {

/// The settings that the agent runs with.
pub struct AgentConfig {
    /// The base URL of the backend.
    pub backend_url: String,
    /// The pause between two heartbeats, in seconds.
    pub heartbeat_interval: u64,
    /// The token that every request carries.
    pub auth_token: String,
}

/// What a work order asks for.
#[derive(Clone, Copy, Debug, PartialEq, Eq, Structural)]
pub enum TaskKind {
    Install,
    Uninstall,
}

/// A work order, as the backend sends it.
pub struct Task {
    pub id: i32,
    /// `"uninstall"` for an uninstall; anything else asks for an install.
    pub task_type: String,
    /// The product's name, as free text.
    pub software_name: String,
    /// Where the artifact is fetched from.
    pub download_url: String,
    /// The flags that make the installer run without prompts, as one string.
    pub silent_args: String,
}

/// A `Task` as plain values.
pub struct TaskView {
    pub id: i32,
    pub task_type: Seq<char>,
    pub software_name: Seq<char>,
    pub download_url: Seq<char>,
    pub silent_args: Seq<char>,
}

impl View for Task {
    type V = TaskView;

    open spec fn view(&self) -> TaskView {
        TaskView {
            id: self.id,
            task_type: self.task_type@,
            software_name: self.software_name@,
            download_url: self.download_url@,
            silent_args: self.silent_args@,
        }
    }
}

/// The views of a sequence of work orders, item by item.
pub open spec fn tasks_of(tasks: Seq<Task>) -> Seq<TaskView> {
    Seq::new(tasks.len(), |i: int| tasks[i]@)
}

/// What a work order of the given type asks for.
pub open spec fn task_kind_of(task_type: Seq<char>) -> TaskKind {
    if task_type == "uninstall"@ {
        TaskKind::Uninstall
    } else {
        TaskKind::Install
    }
}

impl Task {
    /// What the work order asks for.
    pub fn kind(&self) -> (kind: TaskKind)
        ensures
            kind == task_kind_of(self@.task_type),
    {
        if same_text(self.task_type.as_str(), "uninstall") {
            TaskKind::Uninstall
        } else {
            TaskKind::Install
        }
    }
}

/// The backend's answer to a heartbeat.
pub struct HeartbeatResponse {
    pub status: String,
    /// The work orders to carry out, in this order.
    pub tasks: Vec<Task>,
    /// A new machine token, where the backend issued one.
    pub machine_token: Option<String>,
}

/// A `HeartbeatResponse` as plain values.
pub struct HeartbeatResponseView {
    pub status: Seq<char>,
    pub tasks: Seq<TaskView>,
    pub machine_token: Option<Seq<char>>,
}

impl View for HeartbeatResponse {
    type V = HeartbeatResponseView;

    open spec fn view(&self) -> HeartbeatResponseView {
        HeartbeatResponseView {
            status: self.status@,
            tasks: tasks_of(self.tasks@),
            machine_token: optional_text(self.machine_token),
        }
    }
}

/// The report on a work order that was carried out.
pub struct AckRequest {
    pub task_id: i32,
    /// `"success"` or `"failed"`.
    pub status: String,
    pub message: String,
    pub mac_address: String,
}

/// An `AckRequest` as plain values.
pub struct AckRequestView {
    pub task_id: i32,
    pub status: Seq<char>,
    pub message: Seq<char>,
    pub mac_address: Seq<char>,
}

impl View for AckRequest {
    type V = AckRequestView;

    open spec fn view(&self) -> AckRequestView {
        AckRequestView {
            task_id: self.task_id,
            status: self.status@,
            message: self.message@,
            mac_address: self.mac_address@,
        }
    }
}

/// Whether an HTTP status tells of success: 200 up to 299.
pub open spec fn is_success(status: u16) -> bool {
    200 <= status < 300
}

/// Whether an HTTP status tells of success.
pub fn is_success_status(status: u16) -> (success: bool)
    ensures
        success == is_success(status),
{
    200 <= status && status < 300
}

/// The address of the heartbeat endpoint under a base URL.
pub open spec fn heartbeat_url_of(backend_url: Seq<char>) -> Seq<char> {
    backend_url + "/heartbeat"@
}

/// The address of the acknowledgment endpoint under a base URL.
pub open spec fn ack_url_of(backend_url: Seq<char>) -> Seq<char> {
    backend_url + "/ack"@
}

/// The address to which heartbeats are posted.
pub fn heartbeat_url(backend_url: &str) -> (url: String)
    ensures
        url@ == heartbeat_url_of(backend_url@),
{
    let mut url = String::new();
    push_text(&mut url, backend_url);
    push_text(&mut url, "/heartbeat");
    url
}

/// The address to which acknowledgments are posted.
pub fn ack_url(backend_url: &str) -> (url: String)
    ensures
        url@ == ack_url_of(backend_url@),
{
    let mut url = String::new();
    push_text(&mut url, backend_url);
    push_text(&mut url, "/ack");
    url
}

} // verus!
