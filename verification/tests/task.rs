use agent::resolver::{RegistryLookup, UninstallEntry};
use agent::task::{
    advance_task, execute_mode, exit_message, plan_command, plan_registry_uninstall,
    process_task, registry_command, report_exit, report_spawn_failure, Platform, TaskAction,
    TaskError, TaskEvent, TaskPhase,
};
use agent::wire::Task;

const MAC: &str = "02:00:00:00:00:01";

fn owned(items: &[&str]) -> Vec<String> {
    items.iter().map(|s| s.to_string()).collect()
}

fn task(task_type: &str, name: &str, url: &str, args: &str) -> Task {
    Task {
        id: 42,
        task_type: task_type.to_string(),
        software_name: name.to_string(),
        download_url: url.to_string(),
        silent_args: args.to_string(),
    }
}

fn listed(entries: Vec<(&str, &str)>) -> RegistryLookup {
    RegistryLookup::Listed {
        entries: entries
            .into_iter()
            .map(|(name, command)| UninstallEntry {
                display_name: name.to_string(),
                quiet_uninstall: None,
                uninstall: Some(command.to_string()),
            })
            .collect(),
    }
}

#[test]
fn package_install_goes_through_the_service() {
    let t = task("install", "Anything", "https://x/p.msi", "/quiet /norestart");
    let command = plan_command(&t, "P.MSI", "/tmp/s/P.MSI").unwrap();
    assert_eq!(command.executable, "msiexec");
    assert_eq!(command.arguments, owned(&["/i", "/tmp/s/P.MSI", "/quiet", "/norestart"]));
}

#[test]
fn package_uninstall_ignores_caller_arguments() {
    let t = task("uninstall", "Anything", "https://x/p.msi", "/quiet /norestart");
    let command = plan_command(&t, "p.msi", "C:\\T\\p.msi").unwrap();
    assert_eq!(command.executable, "msiexec");
    assert_eq!(command.arguments, owned(&["/x", "C:\\T\\p.msi", "/qn"]));
}

#[test]
fn plain_install_runs_the_artifact() {
    let t = task("install", "Tool", "https://x/tool.exe", "/S \"--dir=C:\\My Tool\"");
    let command = plan_command(&t, "tool.exe", "C:\\T\\tool.exe").unwrap();
    assert_eq!(command.executable, "C:\\T\\tool.exe");
    assert_eq!(command.arguments, owned(&["/S", "--dir=C:\\My Tool"]));
}

#[test]
fn plain_uninstall_has_no_direct_command() {
    let t = task("uninstall", "Tool", "https://x/tool.exe", "/S");
    assert!(plan_command(&t, "tool.exe", "C:\\T\\tool.exe").is_none());
}

#[test]
fn registry_command_puts_own_arguments_first() {
    let command = registry_command("\"C:\\Program Files\\App\\unins000.exe\" /VERYSILENT", "/S /X");
    assert_eq!(command.executable, "C:\\Program Files\\App\\unins000.exe");
    assert_eq!(command.arguments, owned(&["/VERYSILENT", "/S", "/X"]));
    let bare = registry_command("uninstall.exe", "");
    assert_eq!(bare.executable, "uninstall.exe");
    assert!(bare.arguments.is_empty());
}

#[test]
fn registry_uninstall_resolves_or_fails() {
    let t = task("uninstall", "BraveBrowserSetup", "https://x/b.exe", "/S");
    let found = plan_registry_uninstall(&t, &listed(vec![("Brave Browser", "C:\\b\\un.exe --force")]));
    let command = found.ok().unwrap();
    assert_eq!(command.executable, "C:\\b\\un.exe");
    assert_eq!(command.arguments, owned(&["--force", "/S"]));
    let missing = plan_registry_uninstall(&t, &listed(vec![("Brave", "x.exe")]));
    assert_eq!(missing.err(), Some(TaskError::ResolutionFailed));
    let unsupported = plan_registry_uninstall(&t, &RegistryLookup::Unsupported);
    assert_eq!(unsupported.err(), Some(TaskError::RegistryUnsupported));
}

#[test]
fn exit_code_zero_reports_success() {
    let report = report_exit(42, Some(0), MAC);
    assert_eq!(report.task_id, 42);
    assert_eq!(report.status, "success");
    assert_eq!(report.message, "Installed successfully");
    assert_eq!(report.mac_address, MAC);
}

#[test]
fn other_exit_codes_report_failure_with_the_code() {
    let report = report_exit(42, Some(1603), MAC);
    assert_eq!(report.status, "failed");
    assert_eq!(report.message, "Exit Code: Some(1603)");
    assert_eq!(report_exit(1, Some(-1), MAC).message, "Exit Code: Some(-1)");
    assert_eq!(report_exit(1, None, MAC).status, "failed");
    assert_eq!(report_exit(1, None, MAC).message, "Exit Code: None");
    assert_eq!(exit_message(Some(i32::MIN)), "Exit Code: Some(-2147483648)");
}

#[test]
fn spawn_failure_is_simulated_only_for_foreign_executables() {
    let simulated = report_spawn_failure(42, Platform::Linux, "Tool.EXE", MAC).ok().unwrap();
    assert_eq!(simulated.status, "success");
    assert_eq!(simulated.message, "Simulated success on Linux");
    assert_eq!(simulated.mac_address, MAC);
    assert_eq!(report_spawn_failure(42, Platform::Linux, "tool.msi", MAC).err(), Some(TaskError::SpawnFailed));
    assert_eq!(report_spawn_failure(42, Platform::Windows, "tool.exe", MAC).err(), Some(TaskError::SpawnFailed));
    assert_eq!(report_spawn_failure(42, Platform::Other, "tool.exe", MAC).err(), Some(TaskError::SpawnFailed));
}

#[test]
fn execute_bit_is_asked_for_on_linux_only() {
    assert_eq!(execute_mode(Platform::Linux), Some(0o755));
    assert_eq!(execute_mode(Platform::Windows), None);
    assert_eq!(execute_mode(Platform::Other), None);
}

#[test]
fn pipeline_installs_step_by_step() {
    let t = task("install", "Tool", "https://x/../../tool.exe?sig=1", "/S");
    let (phase, action) = advance_task(&t, TaskPhase::Fresh, TaskEvent::Begin, Platform::Linux, MAC);
    assert!(matches!(&action, TaskAction::Fetch { url } if url == "https://x/../../tool.exe?sig=1"));
    let (phase, action) = advance_task(&t, phase, TaskEvent::Responded { status: 200 }, Platform::Linux, MAC);
    assert!(matches!(&action, TaskAction::Store { file_name, unix_mode: Some(0o755) } if file_name == "tool.exe"));
    let stored = TaskEvent::Stored { file_path: "/tmp/s/tool.exe".to_string() };
    let (phase, action) = advance_task(&t, phase, stored, Platform::Linux, MAC);
    match &action {
        TaskAction::Run { command } => {
            assert_eq!(command.executable, "/tmp/s/tool.exe");
            assert_eq!(command.arguments, owned(&["/S"]));
        }
        _ => panic!("the stored installer must be run"),
    }
    let (phase, action) = advance_task(&t, phase, TaskEvent::Exited { code: Some(3) }, Platform::Linux, MAC);
    match &action {
        TaskAction::Acknowledge { report } => {
            assert_eq!(report.task_id, 42);
            assert_eq!(report.status, "failed");
            assert_eq!(report.message, "Exit Code: Some(3)");
            assert_eq!(report.mac_address, MAC);
        }
        _ => panic!("an exit must be reported"),
    }
    assert!(matches!(phase, TaskPhase::Finished));
    let (phase, action) = advance_task(&t, phase, TaskEvent::Begin, Platform::Linux, MAC);
    assert!(matches!(phase, TaskPhase::Finished));
    assert!(matches!(action, TaskAction::Idle));
}

#[test]
fn pipeline_uninstall_reads_the_registry() {
    let t = task("uninstall", "zoom", "https://x/zoom.exe", "/quiet");
    let storing = TaskPhase::Storing { file_name: "zoom.exe".to_string() };
    let stored = TaskEvent::Stored { file_path: "C:\\T\\zoom.exe".to_string() };
    let (phase, action) = advance_task(&t, storing, stored, Platform::Windows, MAC);
    assert!(matches!(action, TaskAction::ListRegistry));
    assert!(matches!(&phase, TaskPhase::Resolving { file_name } if file_name == "zoom.exe"));
    let lookup = listed(vec![("Zoom", "\"C:\\Zoom\\un.exe\" /uninstall")]);
    let (phase, action) = advance_task(&t, phase, TaskEvent::Registry { lookup }, Platform::Windows, MAC);
    match &action {
        TaskAction::Run { command } => {
            assert_eq!(command.executable, "C:\\Zoom\\un.exe");
            assert_eq!(command.arguments, owned(&["/uninstall", "/quiet"]));
        }
        _ => panic!("the resolved command must be run"),
    }
    assert!(matches!(&phase, TaskPhase::Running { file_name } if file_name == "zoom.exe"));
}

#[test]
fn pipeline_gives_up_without_a_report() {
    let t = task("uninstall", "zoom", "https://x/zoom.exe", "");
    let (phase, action) = advance_task(&t, TaskPhase::Fetching, TaskEvent::Responded { status: 404 }, Platform::Windows, MAC);
    assert!(matches!(phase, TaskPhase::Finished));
    assert!(matches!(action, TaskAction::Abort { error: TaskError::DownloadRejected { status: 404 } }));
    let (_, action) = advance_task(&t, TaskPhase::Fetching, TaskEvent::TransferFailed, Platform::Windows, MAC);
    assert!(matches!(action, TaskAction::Abort { error: TaskError::TransferFailed }));
    let storing = TaskPhase::Storing { file_name: "zoom.exe".to_string() };
    let (_, action) = advance_task(&t, storing, TaskEvent::TransferFailed, Platform::Windows, MAC);
    assert!(matches!(action, TaskAction::Abort { error: TaskError::TransferFailed }));
    let resolving = TaskPhase::Resolving { file_name: "zoom.exe".to_string() };
    let event = TaskEvent::Registry { lookup: RegistryLookup::Unsupported };
    let (_, action) = advance_task(&t, resolving, event, Platform::Linux, MAC);
    assert!(matches!(action, TaskAction::Abort { error: TaskError::RegistryUnsupported }));
    let resolving = TaskPhase::Resolving { file_name: "zoom.exe".to_string() };
    let event = TaskEvent::Registry { lookup: listed(vec![("Teams", "t.exe")]) };
    let (_, action) = advance_task(&t, resolving, event, Platform::Windows, MAC);
    assert!(matches!(action, TaskAction::Abort { error: TaskError::ResolutionFailed }));
    let running = TaskPhase::Running { file_name: "zoom.msi".to_string() };
    let (_, action) = advance_task(&t, running, TaskEvent::SpawnFailed, Platform::Linux, MAC);
    assert!(matches!(action, TaskAction::Abort { error: TaskError::SpawnFailed }));
}

#[test]
fn pipeline_rejects_events_out_of_order() {
    let t = task("install", "Tool", "https://x/tool.exe", "");
    let (phase, action) = advance_task(&t, TaskPhase::Fresh, TaskEvent::Exited { code: Some(0) }, Platform::Windows, MAC);
    assert!(matches!(phase, TaskPhase::Finished));
    assert!(matches!(action, TaskAction::Abort { error: TaskError::OutOfOrder }));
    let (_, action) = advance_task(&t, TaskPhase::Fetching, TaskEvent::Begin, Platform::Windows, MAC);
    assert!(matches!(action, TaskAction::Abort { error: TaskError::OutOfOrder }));
}

#[test]
fn process_task_reports_with_the_host_address() {
    let t = task("install", "Tool", "https://x/tool.exe", "");
    let (phase, action) = process_task(&t, TaskPhase::Fresh, TaskEvent::Begin, Platform::Linux);
    assert!(matches!(phase, TaskPhase::Fetching));
    assert!(matches!(&action, TaskAction::Fetch { url } if url == "https://x/tool.exe"));
    let running = TaskPhase::Running { file_name: "tool.exe".to_string() };
    let (phase, action) = process_task(&t, running, TaskEvent::Exited { code: Some(0) }, Platform::Linux);
    assert!(matches!(phase, TaskPhase::Finished));
    match &action {
        TaskAction::Acknowledge { report } => {
            assert_eq!(report.status, "success");
            assert_eq!(report.message, "Installed successfully");
            assert_eq!(report.mac_address.len(), 17);
        }
        _ => panic!("an exit must be reported"),
    }
    let running = TaskPhase::Running { file_name: "tool.exe".to_string() };
    let (_, action) = process_task(&t, running, TaskEvent::SpawnFailed, Platform::Linux);
    assert!(matches!(&action, TaskAction::Acknowledge { report } if report.message == "Simulated success on Linux"));
}
