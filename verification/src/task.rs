//! The pipeline that carries out one work order: fetch the artifact, store
//! it, work out the command, run it, and report. The pipeline decides; the
//! caller performs each step and tells what came of it.

use vstd::prelude::*;
use crate::artifact::{
    artifact_file_name, artifact_name_of, has_extension, is_bare_file_name, is_package_file,
    is_package_name, lemma_artifact_name_is_bare,
};
use crate::command::{parse_command_string, split_args, split_args_of, split_command};
use crate::identity::{get_system_info, is_mac_text};
use crate::resolver::{
    find_uninstall_command, uninstall_command_of, RegistryLookup, RegistryLookupView,
};
use crate::text::{decimal_of, ends_with, lowercase_of, push_decimal, push_text, texts_of};
use crate::wire::{
    is_success, is_success_status, task_kind_of, AckRequest, AckRequestView, Task, TaskKind,
    TaskView,
};

verus! {

/// The kind of system that the agent runs on.
#[derive(Clone, Copy, Debug, PartialEq, Eq, Structural)]
pub enum Platform {
    Windows,
    Linux,
    Other,
}

/// Why a work order was given up without a report.
#[derive(Clone, Copy, Debug, PartialEq, Eq, Structural)]
pub enum TaskError {
    /// The artifact's server answered with a status that tells of no success.
    DownloadRejected { status: u16 },
    /// The artifact could not be fetched or stored.
    TransferFailed,
    /// No entry of the uninstall registry qualifies for the product.
    ResolutionFailed,
    /// The platform has no uninstall registry.
    RegistryUnsupported,
    /// The command could not be started.
    SpawnFailed,
    /// The caller told of something that the pipeline was not waiting for.
    OutOfOrder,
}

/// A command that is ready to run.
pub struct ResolvedCommand {
    pub executable: String,
    pub arguments: Vec<String>,
}

/// A `ResolvedCommand` as plain values.
pub struct ResolvedCommandView {
    pub executable: Seq<char>,
    pub arguments: Seq<Seq<char>>,
}

impl View for ResolvedCommand {
    type V = ResolvedCommandView;

    open spec fn view(&self) -> ResolvedCommandView {
        ResolvedCommandView { executable: self.executable@, arguments: texts_of(self.arguments@) }
    }
}

/// The view of an optional command.
pub open spec fn optional_command(command: Option<ResolvedCommand>) -> Option<
    ResolvedCommandView,
> {
    match command {
        Some(c) => Some(c@),
        None => None,
    }
}

/// The name of the platform's package-installer service.
pub open spec fn package_service() -> Seq<char> {
    "msiexec"@
}

/// The command that handles an artifact of the package format: the
/// package-installer service, told to remove the package quietly, or to add
/// it with the caller's arguments.
pub open spec fn package_command_of(
    kind: TaskKind,
    file_path: Seq<char>,
    silent_args: Seq<char>,
) -> ResolvedCommandView {
    match kind {
        TaskKind::Uninstall => ResolvedCommandView {
            executable: package_service(),
            arguments: seq!["/x"@, file_path, "/qn"@],
        },
        TaskKind::Install => ResolvedCommandView {
            executable: package_service(),
            arguments: seq!["/i"@, file_path] + split_args_of(silent_args),
        },
    }
}

/// The command that runs a downloaded installer itself, with the caller's
/// arguments.
pub open spec fn direct_command_of(file_path: Seq<char>, silent_args: Seq<char>)
    -> ResolvedCommandView {
    ResolvedCommandView { executable: file_path, arguments: split_args_of(silent_args) }
}

/// The command made of an uninstall string of the registry: its executable,
/// its own arguments, and behind them the caller's.
pub open spec fn registry_command_of(raw_command: Seq<char>, silent_args: Seq<char>)
    -> ResolvedCommandView {
    ResolvedCommandView {
        executable: split_command(raw_command).0,
        arguments: split_args_of(split_command(raw_command).1) + split_args_of(silent_args),
    }
}

/// The command for a work order whose artifact is stored, where it can be
/// told without the registry: for an artifact of the package format, and
/// for any install. An uninstall of another artifact gives nothing here; it
/// has to go through the registry.
pub open spec fn planned_command_of(task: TaskView, file_name: Seq<char>, file_path: Seq<char>)
    -> Option<ResolvedCommandView> {
    if is_package_name(file_name) {
        Some(package_command_of(task_kind_of(task.task_type), file_path, task.silent_args))
    } else if task_kind_of(task.task_type) == TaskKind::Install {
        Some(direct_command_of(file_path, task.silent_args))
    } else {
        None
    }
}

/// The command for an uninstall that goes through the registry, or the
/// reason why there is none.
pub open spec fn registry_plan_of(task: TaskView, lookup: RegistryLookupView) -> Result<
    ResolvedCommandView,
    TaskError,
> {
    match lookup {
        RegistryLookupView::Unsupported => Err(TaskError::RegistryUnsupported),
        RegistryLookupView::Listed { entries } => match uninstall_command_of(
            task.software_name,
            entries,
        ) {
            Some(raw_command) => Ok(registry_command_of(raw_command, task.silent_args)),
            None => Err(TaskError::ResolutionFailed),
        },
    }
}

/// Works out the command for a work order whose artifact is stored, where
/// the registry is not needed for it.
pub fn plan_command(task: &Task, file_name: &str, file_path: &str) -> (command: Option<
    ResolvedCommand,
>)
    ensures
        optional_command(command) == planned_command_of(task@, file_name@, file_path@),
{
    let kind = task.kind();
    if is_package_file(file_name) {
        let mut arguments: Vec<String> = Vec::new();
        match kind {
            TaskKind::Uninstall => {
                arguments.push("/x".to_owned());
                arguments.push(file_path.to_owned());
                arguments.push("/qn".to_owned());
                assert(texts_of(arguments@) =~= seq!["/x"@, file_path@, "/qn"@]);
            },
            TaskKind::Install => {
                arguments.push("/i".to_owned());
                arguments.push(file_path.to_owned());
                let ghost head = arguments@;
                let mut more = split_args(task.silent_args.as_str());
                let ghost tail = more@;
                arguments.append(&mut more);
                assert(texts_of(arguments@) =~= seq!["/i"@, file_path@] + texts_of(tail));
            },
        }
        Some(ResolvedCommand { executable: "msiexec".to_owned(), arguments })
    } else {
        match kind {
            TaskKind::Install => Some(
                ResolvedCommand {
                    executable: file_path.to_owned(),
                    arguments: split_args(task.silent_args.as_str()),
                },
            ),
            TaskKind::Uninstall => None,
        }
    }
}

/// Makes the command out of an uninstall string of the registry and the
/// caller's arguments.
pub fn registry_command(raw_command: &str, silent_args: &str) -> (command: ResolvedCommand)
    ensures
        command@ == registry_command_of(raw_command@, silent_args@),
{
    let (executable, tail) = parse_command_string(raw_command);
    let mut arguments = split_args(tail.as_str());
    let ghost own = arguments@;
    let mut more = split_args(silent_args);
    let ghost added = more@;
    arguments.append(&mut more);
    assert(texts_of(arguments@) =~= texts_of(own) + texts_of(added));
    ResolvedCommand { executable, arguments }
}

/// Works out the command for an uninstall that goes through the registry.
pub fn plan_registry_uninstall(task: &Task, lookup: &RegistryLookup) -> (plan: Result<
    ResolvedCommand,
    TaskError,
>)
    ensures
        match plan {
            Ok(command) => Ok(command@),
            Err(error) => Err(error),
        } == registry_plan_of(task@, lookup@),
{
    match lookup {
        RegistryLookup::Unsupported => Err(TaskError::RegistryUnsupported),
        RegistryLookup::Listed { entries } => {
            match find_uninstall_command(task.software_name.as_str(), entries) {
                Some(raw_command) => Ok(
                    registry_command(raw_command.as_str(), task.silent_args.as_str()),
                ),
                None => Err(TaskError::ResolutionFailed),
            }
        },
    }
}

/// The message that tells of an exit code.
pub open spec fn exit_message_of(code: Option<i32>) -> Seq<char> {
    match code {
        Some(n) => "Exit Code: Some("@ + decimal_of(n as int) + ")"@,
        None => "Exit Code: None"@,
    }
}

/// The report on a command that ran to its end: a success where it left
/// with the code zero, else a failure that names the code.
pub open spec fn exit_report_of(task_id: i32, code: Option<i32>, mac: Seq<char>)
    -> AckRequestView {
    if code == Some(0i32) {
        AckRequestView {
            task_id,
            status: "success"@,
            message: "Installed successfully"@,
            mac_address: mac,
        }
    } else {
        AckRequestView {
            task_id,
            status: "failed"@,
            message: exit_message_of(code),
            mac_address: mac,
        }
    }
}

/// Whether an artifact is an executable of another platform than the one
/// that the agent runs on, so that it cannot be started here.
pub open spec fn is_foreign_executable(platform: Platform, file_name: Seq<char>) -> bool {
    platform == Platform::Linux && ends_with(lowercase_of(file_name), ".exe"@)
}

/// The report on a command that could not be started: a simulated success
/// for an executable of another platform, else no report at all.
pub open spec fn spawn_failure_report_of(
    task_id: i32,
    platform: Platform,
    file_name: Seq<char>,
    mac: Seq<char>,
) -> Result<AckRequestView, TaskError> {
    if is_foreign_executable(platform, file_name) {
        Ok(
            AckRequestView {
                task_id,
                status: "success"@,
                message: "Simulated success on Linux"@,
                mac_address: mac,
            },
        )
    } else {
        Err(TaskError::SpawnFailed)
    }
}

/// Writes the message that tells of an exit code.
pub fn exit_message(code: Option<i32>) -> (message: String)
    ensures
        message@ == exit_message_of(code),
{
    match code {
        Some(n) => {
            let mut message = String::new();
            push_text(&mut message, "Exit Code: Some(");
            push_decimal(&mut message, n);
            push_text(&mut message, ")");
            assert(message@ =~= exit_message_of(code));
            message
        },
        None => "Exit Code: None".to_owned(),
    }
}

/// Reports on a command that ran to its end.
pub fn report_exit(task_id: i32, code: Option<i32>, mac_address: &str) -> (report: AckRequest)
    ensures
        report@ == exit_report_of(task_id, code, mac_address@),
{
    let succeeded = match code {
        Some(n) => n == 0,
        None => false,
    };
    if succeeded {
        AckRequest {
            task_id,
            status: "success".to_owned(),
            message: "Installed successfully".to_owned(),
            mac_address: mac_address.to_owned(),
        }
    } else {
        AckRequest {
            task_id,
            status: "failed".to_owned(),
            message: exit_message(code),
            mac_address: mac_address.to_owned(),
        }
    }
}

/// Reports on a command that could not be started, where that calls for a
/// report.
pub fn report_spawn_failure(
    task_id: i32,
    platform: Platform,
    file_name: &str,
    mac_address: &str,
) -> (report: Result<AckRequest, TaskError>)
    ensures
        match report {
            Ok(ack) => Ok(ack@),
            Err(error) => Err(error),
        } == spawn_failure_report_of(task_id, platform, file_name@, mac_address@),
{
    let on_linux = match platform {
        Platform::Linux => true,
        _ => false,
    };
    if on_linux && has_extension(file_name, ".exe") {
        Ok(
            AckRequest {
                task_id,
                status: "success".to_owned(),
                message: "Simulated success on Linux".to_owned(),
                mac_address: mac_address.to_owned(),
            },
        )
    } else {
        Err(TaskError::SpawnFailed)
    }
}

/// How far the pipeline has come with a work order.
pub enum TaskPhase {
    /// Nothing was done yet.
    Fresh,
    /// The artifact was asked for; its server has not answered yet.
    Fetching,
    /// The artifact is being stored under this name.
    Storing { file_name: String },
    /// The uninstall registry is being read, for an artifact of this name.
    Resolving { file_name: String },
    /// The command is running, for an artifact of this name.
    Running { file_name: String },
    /// The work order was reported or given up.
    Finished,
}

/// A `TaskPhase` as plain values.
pub enum TaskPhaseView {
    Fresh,
    Fetching,
    Storing { file_name: Seq<char> },
    Resolving { file_name: Seq<char> },
    Running { file_name: Seq<char> },
    Finished,
}

impl View for TaskPhase {
    type V = TaskPhaseView;

    open spec fn view(&self) -> TaskPhaseView {
        match self {
            TaskPhase::Fresh => TaskPhaseView::Fresh,
            TaskPhase::Fetching => TaskPhaseView::Fetching,
            TaskPhase::Storing { file_name } => TaskPhaseView::Storing { file_name: file_name@ },
            TaskPhase::Resolving { file_name } => TaskPhaseView::Resolving {
                file_name: file_name@,
            },
            TaskPhase::Running { file_name } => TaskPhaseView::Running { file_name: file_name@ },
            TaskPhase::Finished => TaskPhaseView::Finished,
        }
    }
}

/// What the caller tells the pipeline.
pub enum TaskEvent {
    /// The work order is taken up.
    Begin,
    /// The artifact's server answered with this status.
    Responded { status: u16 },
    /// The artifact is stored at this path.
    Stored { file_path: String },
    /// The artifact could not be fetched or stored.
    TransferFailed,
    /// The uninstall registry was read.
    Registry { lookup: RegistryLookup },
    /// The command ran and left with this code; none where a signal ended
    /// it.
    Exited { code: Option<i32> },
    /// The command could not be started.
    SpawnFailed,
}

/// A `TaskEvent` as plain values.
pub enum TaskEventView {
    Begin,
    Responded { status: u16 },
    Stored { file_path: Seq<char> },
    TransferFailed,
    Registry { lookup: RegistryLookupView },
    Exited { code: Option<i32> },
    SpawnFailed,
}

impl View for TaskEvent {
    type V = TaskEventView;

    open spec fn view(&self) -> TaskEventView {
        match self {
            TaskEvent::Begin => TaskEventView::Begin,
            TaskEvent::Responded { status } => TaskEventView::Responded { status: *status },
            TaskEvent::Stored { file_path } => TaskEventView::Stored { file_path: file_path@ },
            TaskEvent::TransferFailed => TaskEventView::TransferFailed,
            TaskEvent::Registry { lookup } => TaskEventView::Registry { lookup: lookup@ },
            TaskEvent::Exited { code } => TaskEventView::Exited { code: *code },
            TaskEvent::SpawnFailed => TaskEventView::SpawnFailed,
        }
    }
}

/// What the pipeline asks the caller to do next.
pub enum TaskAction {
    /// Make a fresh scratch directory and ask for the artifact at this URL.
    Fetch { url: String },
    /// Write the artifact into the scratch directory under this name, and
    /// give the file these permission bits where some are named.
    Store { file_name: String, unix_mode: Option<u32> },
    /// Read the uninstall registry.
    ListRegistry,
    /// Run this command and wait for its end.
    Run { command: ResolvedCommand },
    /// Send this report; whether it arrives is of no concern.
    Acknowledge { report: AckRequest },
    /// Give the work order up, without a report.
    Abort { error: TaskError },
    /// Nothing is left to do.
    Idle,
}

/// A `TaskAction` as plain values.
pub enum TaskActionView {
    Fetch { url: Seq<char> },
    Store { file_name: Seq<char>, unix_mode: Option<u32> },
    ListRegistry,
    Run { command: ResolvedCommandView },
    Acknowledge { report: AckRequestView },
    Abort { error: TaskError },
    Idle,
}

impl View for TaskAction {
    type V = TaskActionView;

    open spec fn view(&self) -> TaskActionView {
        match self {
            TaskAction::Fetch { url } => TaskActionView::Fetch { url: url@ },
            TaskAction::Store { file_name, unix_mode } => TaskActionView::Store {
                file_name: file_name@,
                unix_mode: *unix_mode,
            },
            TaskAction::ListRegistry => TaskActionView::ListRegistry,
            TaskAction::Run { command } => TaskActionView::Run { command: command@ },
            TaskAction::Acknowledge { report } => TaskActionView::Acknowledge { report: report@ },
            TaskAction::Abort { error } => TaskActionView::Abort { error: *error },
            TaskAction::Idle => TaskActionView::Idle,
        }
    }
}

/// The permission bits that a stored artifact needs before it can be run:
/// read and execute for all and write for the owner where the platform
/// asks for an execute bit, none elsewhere.
pub open spec fn execute_mode_of(platform: Platform) -> Option<u32> {
    if platform == Platform::Linux {
        Some(0o755u32)
    } else {
        None
    }
}

/// Giving a work order up for this reason.
pub open spec fn give_up(error: TaskError) -> (TaskPhaseView, TaskActionView) {
    (TaskPhaseView::Finished, TaskActionView::Abort { error })
}

/// Running this command for an artifact of this name.
pub open spec fn run_next(file_name: Seq<char>, command: ResolvedCommandView) -> (
    TaskPhaseView,
    TaskActionView,
) {
    (TaskPhaseView::Running { file_name }, TaskActionView::Run { command })
}

/// Sending this report as the last step.
pub open spec fn report_last(report: AckRequestView) -> (TaskPhaseView, TaskActionView) {
    (TaskPhaseView::Finished, TaskActionView::Acknowledge { report })
}

/// The step that the pipeline takes: from how far it has come with a work
/// order and what the caller tells, to where it stands next and what it
/// asks for. `mac` is the address that a report carries.
pub open spec fn task_step(
    task: TaskView,
    phase: TaskPhaseView,
    event: TaskEventView,
    platform: Platform,
    mac: Seq<char>,
) -> (TaskPhaseView, TaskActionView) {
    match (phase, event) {
        (TaskPhaseView::Finished, _) => (TaskPhaseView::Finished, TaskActionView::Idle),
        (TaskPhaseView::Fresh, TaskEventView::Begin) => (
            TaskPhaseView::Fetching,
            TaskActionView::Fetch { url: task.download_url },
        ),
        (TaskPhaseView::Fetching, TaskEventView::Responded { status }) => if is_success(status) {
            (
                TaskPhaseView::Storing { file_name: artifact_name_of(task.download_url) },
                TaskActionView::Store {
                    file_name: artifact_name_of(task.download_url),
                    unix_mode: execute_mode_of(platform),
                },
            )
        } else {
            give_up(TaskError::DownloadRejected { status })
        },
        (TaskPhaseView::Fetching, TaskEventView::TransferFailed) => give_up(
            TaskError::TransferFailed,
        ),
        (TaskPhaseView::Storing { file_name }, TaskEventView::TransferFailed) => give_up(
            TaskError::TransferFailed,
        ),
        (TaskPhaseView::Storing { file_name }, TaskEventView::Stored { file_path }) => {
            match planned_command_of(task, file_name, file_path) {
                Some(command) => run_next(file_name, command),
                None => (TaskPhaseView::Resolving { file_name }, TaskActionView::ListRegistry),
            }
        },
        (TaskPhaseView::Resolving { file_name }, TaskEventView::Registry { lookup }) => {
            match registry_plan_of(task, lookup) {
                Ok(command) => run_next(file_name, command),
                Err(error) => give_up(error),
            }
        },
        (TaskPhaseView::Running { file_name }, TaskEventView::Exited { code }) => report_last(
            exit_report_of(task.id, code, mac),
        ),
        (TaskPhaseView::Running { file_name }, TaskEventView::SpawnFailed) => {
            match spawn_failure_report_of(task.id, platform, file_name, mac) {
                Ok(report) => report_last(report),
                Err(error) => give_up(error),
            }
        },
        _ => give_up(TaskError::OutOfOrder),
    }
}

/// The address that an action's report carries; the empty text for an
/// action without a report.
pub open spec fn reported_mac(action: TaskActionView) -> Seq<char> {
    match action {
        TaskActionView::Acknowledge { report } => report.mac_address,
        _ => Seq::empty(),
    }
}

/// The permission bits that a stored artifact needs on this platform.
pub fn execute_mode(platform: Platform) -> (mode: Option<u32>)
    ensures
        mode == execute_mode_of(platform),
{
    match platform {
        Platform::Linux => Some(0o755),
        _ => None,
    }
}

/// Takes one step of the pipeline, with the address that a report would
/// carry.
pub fn advance_task(
    task: &Task,
    phase: TaskPhase,
    event: TaskEvent,
    platform: Platform,
    mac_address: &str,
) -> (step: (TaskPhase, TaskAction))
    ensures
        (step.0@, step.1@) == task_step(task@, phase@, event@, platform, mac_address@),
{
    match (phase, event) {
        (TaskPhase::Finished, _) => (TaskPhase::Finished, TaskAction::Idle),
        (TaskPhase::Fresh, TaskEvent::Begin) => (
            TaskPhase::Fetching,
            TaskAction::Fetch { url: task.download_url.clone() },
        ),
        (TaskPhase::Fetching, TaskEvent::Responded { status }) => {
            if is_success_status(status) {
                let file_name = artifact_file_name(task.download_url.as_str());
                (
                    TaskPhase::Storing { file_name: file_name.clone() },
                    TaskAction::Store { file_name, unix_mode: execute_mode(platform) },
                )
            } else {
                (
                    TaskPhase::Finished,
                    TaskAction::Abort { error: TaskError::DownloadRejected { status } },
                )
            }
        },
        (TaskPhase::Fetching, TaskEvent::TransferFailed) => (
            TaskPhase::Finished,
            TaskAction::Abort { error: TaskError::TransferFailed },
        ),
        (TaskPhase::Storing { file_name }, TaskEvent::TransferFailed) => (
            TaskPhase::Finished,
            TaskAction::Abort { error: TaskError::TransferFailed },
        ),
        (TaskPhase::Storing { file_name }, TaskEvent::Stored { file_path }) => {
            match plan_command(task, file_name.as_str(), file_path.as_str()) {
                Some(command) => (TaskPhase::Running { file_name }, TaskAction::Run { command }),
                None => (TaskPhase::Resolving { file_name }, TaskAction::ListRegistry),
            }
        },
        (TaskPhase::Resolving { file_name }, TaskEvent::Registry { lookup }) => {
            match plan_registry_uninstall(task, &lookup) {
                Ok(command) => (TaskPhase::Running { file_name }, TaskAction::Run { command }),
                Err(error) => (TaskPhase::Finished, TaskAction::Abort { error }),
            }
        },
        (TaskPhase::Running { file_name }, TaskEvent::Exited { code }) => (
            TaskPhase::Finished,
            TaskAction::Acknowledge { report: report_exit(task.id, code, mac_address) },
        ),
        (TaskPhase::Running { file_name }, TaskEvent::SpawnFailed) => {
            match report_spawn_failure(task.id, platform, file_name.as_str(), mac_address) {
                Ok(report) => (TaskPhase::Finished, TaskAction::Acknowledge { report }),
                Err(error) => (TaskPhase::Finished, TaskAction::Abort { error }),
            }
        },
        _ => (TaskPhase::Finished, TaskAction::Abort { error: TaskError::OutOfOrder }),
    }
}

/// Takes one step of the pipeline for a work order: given how far it has
/// come and what the caller tells, says where it stands next and what to
/// do. A report carries the address of the host, which is read anew for it.
pub fn process_task(task: &Task, phase: TaskPhase, event: TaskEvent, platform: Platform) -> (step:
    (TaskPhase, TaskAction))
    ensures
        (step.0@, step.1@) == task_step(task@, phase@, event@, platform, reported_mac(step.1@)),
        step.1@ matches TaskActionView::Acknowledge { report } ==> is_mac_text(report.mac_address),
{
    let reporting = match (&phase, &event) {
        (TaskPhase::Running { .. }, TaskEvent::Exited { .. }) => true,
        (TaskPhase::Running { .. }, TaskEvent::SpawnFailed) => true,
        _ => false,
    };
    if reporting {
        let info = get_system_info();
        advance_task(task, phase, event, platform, info.mac_address.as_str())
    } else {
        let unused = String::new();
        advance_task(task, phase, event, platform, unused.as_str())
    }
}

/// An artifact of the package format is handled by the package-installer
/// service, for an install as for an uninstall, whatever the product is
/// called and whatever the registry holds: once it is stored, the next
/// step runs the service on it.
pub proof fn lemma_package_goes_through_service(
    task: TaskView,
    file_name: Seq<char>,
    file_path: Seq<char>,
    platform: Platform,
    mac: Seq<char>,
)
    requires
        is_package_name(file_name),
    ensures
        task_step(
            task,
            TaskPhaseView::Storing { file_name },
            TaskEventView::Stored { file_path },
            platform,
            mac,
        ) == run_next(
            file_name,
            package_command_of(task_kind_of(task.task_type), file_path, task.silent_args),
        ),
        package_command_of(task_kind_of(task.task_type), file_path, task.silent_args).executable
            == package_service(),
        package_command_of(task_kind_of(task.task_type), file_path, task.silent_args).arguments[1]
            == file_path,
        package_command_of(task_kind_of(task.task_type), file_path, task.silent_args).arguments[0]
            == if task_kind_of(task.task_type) == TaskKind::Uninstall {
            "/x"@
        } else {
            "/i"@
        },
{
}

/// An uninstall never runs the downloaded artifact itself: where the
/// artifact is not of the package format, the registry is read, and where
/// that gives no command the work order is given up.
pub proof fn lemma_uninstall_needs_registry(
    task: TaskView,
    file_name: Seq<char>,
    file_path: Seq<char>,
    lookup: RegistryLookupView,
    platform: Platform,
    mac: Seq<char>,
)
    requires
        task_kind_of(task.task_type) == TaskKind::Uninstall,
        !is_package_name(file_name),
    ensures
        task_step(
            task,
            TaskPhaseView::Storing { file_name },
            TaskEventView::Stored { file_path },
            platform,
            mac,
        ) == (TaskPhaseView::Resolving { file_name }, TaskActionView::ListRegistry),
        registry_plan_of(task, lookup) is Err ==> task_step(
            task,
            TaskPhaseView::Resolving { file_name },
            TaskEventView::Registry { lookup },
            platform,
            mac,
        ).1 is Abort,
{
}

/// A report is sent only for a command that was run: no step from another
/// phase than `Running` asks for one, and every step that gives a work
/// order up or reports it ends the pipeline.
pub proof fn lemma_reports_follow_runs(
    task: TaskView,
    phase: TaskPhaseView,
    event: TaskEventView,
    platform: Platform,
    mac: Seq<char>,
)
    ensures
        task_step(task, phase, event, platform, mac).1 is Acknowledge ==> phase is Running,
        task_step(task, phase, event, platform, mac).1 is Acknowledge || task_step(
            task,
            phase,
            event,
            platform,
            mac,
        ).1 is Abort ==> task_step(task, phase, event, platform, mac).0 is Finished,
        phase is Finished ==> task_step(task, phase, event, platform, mac) == (
            TaskPhaseView::Finished,
            TaskActionView::Idle,
        ),
{
}

/// The name under which the pipeline has an artifact stored is a bare file
/// name, whatever the work order's URL.
pub proof fn lemma_stored_name_is_bare(
    task: TaskView,
    status: u16,
    platform: Platform,
    mac: Seq<char>,
)
    ensures
        task_step(
            task,
            TaskPhaseView::Fetching,
            TaskEventView::Responded { status },
            platform,
            mac,
        ).1 matches TaskActionView::Store { file_name, unix_mode } ==> is_bare_file_name(file_name),
{
    lemma_artifact_name_is_bare(task.download_url);
}

} // verus!
