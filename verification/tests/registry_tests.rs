use install_agent::error::ErrorKind;
use install_agent::orchestrator::{finish_install, start_install, submit_install, Catalog};
use install_agent::registry::{InstallStatus, TaskKind, TaskRegistry};
use install_agent::software::{Software, SoftwareCategory};
use install_agent::software_service::SoftwareServiceImpl;
use install_agent::time::Timestamp;

fn ts() -> Timestamp {
    Timestamp::new(2024, 6, 1, 12, 0, 0)
}

fn catalog_with_vscode() -> Catalog {
    let mut catalog = Catalog::new();
    let mut software = Software::new(
        "Visual Studio Code".to_string(),
        "1.85.0".to_string(),
        None,
        "winget install Microsoft.VisualStudioCode".to_string(),
        SoftwareCategory::Development,
    );
    software.id = "vscode-id".to_string();
    catalog.add_software(software);
    catalog
}

#[test]
fn test_submit_install_visible_immediately() {
    let catalog = catalog_with_vscode();
    let mut registry = TaskRegistry::new();

    let id = submit_install(&mut registry, &catalog, &"vscode-id".to_string(), ts()).unwrap();
    let task = registry.get_task_status(id).unwrap();
    assert_eq!(task.id, id);
    assert_eq!(task.kind, TaskKind::InstallSoftware);
    assert_eq!(task.subject_id, "vscode-id");
    assert_eq!(task.status, InstallStatus::Pending);
    assert_eq!(task.progress, 0);
    assert!(task.completed_at.is_none());
}

#[test]
fn test_submit_install_unknown_software() {
    let catalog = catalog_with_vscode();
    let mut registry = TaskRegistry::new();

    let err = submit_install(&mut registry, &catalog, &"no-such-id".to_string(), ts()).unwrap_err();
    assert_eq!(err.kind, ErrorKind::NotFound);
    assert!(!err.message.is_empty());
    assert_eq!(registry.task_count(), 0);
}

#[test]
fn test_status_of_never_issued_id_is_not_found() {
    let catalog = catalog_with_vscode();
    let mut registry = TaskRegistry::new();
    assert!(registry.get_task_status(0).is_none());

    let id = submit_install(&mut registry, &catalog, &"vscode-id".to_string(), ts()).unwrap();
    assert!(registry.get_task_status(id).is_some());
    assert!(registry.get_task_status(id + 1).is_none());
    assert!(registry.get_task_status(9999).is_none());
}

#[test]
fn test_terminal_snapshot_is_stable() {
    let mut registry = TaskRegistry::new();
    let id = registry.submit(
        TaskKind::InstallSoftware,
        "vscode-id".to_string(),
        "pending".to_string(),
        ts(),
    );
    assert!(registry.mark_running(id));
    assert!(registry.mark_completed(id, "done".to_string(), ts()));

    let snapshot = {
        let t = registry.get_task_status(id).unwrap();
        (t.status, t.progress, t.message.clone(), t.completed_at)
    };
    assert_eq!(snapshot.0, InstallStatus::Completed);
    assert_eq!(snapshot.1, 100);

    let late = Timestamp::new(2030, 1, 1, 0, 0, 0);
    assert!(!registry.mark_running(id));
    assert!(!registry.update_progress(id, 10, "again".to_string()));
    assert!(!registry.mark_completed(id, "again".to_string(), late));
    assert!(!registry.mark_failed(id, "again".to_string(), late));

    let t = registry.get_task_status(id).unwrap();
    assert_eq!(t.status, snapshot.0);
    assert_eq!(t.progress, snapshot.1);
    assert_eq!(t.message, snapshot.2);
    assert_eq!(t.completed_at, snapshot.3);
}

#[test]
fn test_progress_is_monotone() {
    let mut registry = TaskRegistry::new();
    let id = registry.submit(
        TaskKind::InstallSoftware,
        "vscode-id".to_string(),
        "pending".to_string(),
        ts(),
    );
    assert!(!registry.update_progress(id, 10, "not running yet".to_string()));
    assert!(registry.mark_running(id));
    assert!(registry.update_progress(id, 50, "halfway".to_string()));
    assert!(!registry.update_progress(id, 30, "backwards".to_string()));
    assert!(!registry.update_progress(id, 101, "out of range".to_string()));

    let t = registry.get_task_status(id).unwrap();
    assert_eq!(t.progress, 50);
    assert_eq!(t.message, "halfway");
}

#[test]
fn test_start_install_builds_command() {
    let catalog = catalog_with_vscode();
    let service = SoftwareServiceImpl::new();
    let mut registry = TaskRegistry::new();

    let id = submit_install(&mut registry, &catalog, &"vscode-id".to_string(), ts()).unwrap();
    let cmd = start_install(&mut registry, &catalog, &service, id, None, ts()).unwrap();
    assert_eq!(cmd, "winget install Microsoft.VisualStudioCode");
    assert_eq!(registry.get_task_status(id).unwrap().status, InstallStatus::Installing);
}

#[test]
fn test_start_install_with_custom_path() {
    let catalog = catalog_with_vscode();
    let service = SoftwareServiceImpl::new();
    let mut registry = TaskRegistry::new();

    let id = submit_install(&mut registry, &catalog, &"vscode-id".to_string(), ts()).unwrap();
    let cmd = start_install(&mut registry, &catalog, &service, id, Some("D:\\apps"), ts()).unwrap();
    assert_eq!(cmd, "winget install Microsoft.VisualStudioCode --location \"D:\\apps\"");
}

#[test]
fn test_failed_install_records_message() {
    let catalog = catalog_with_vscode();
    let service = SoftwareServiceImpl::new();
    let mut registry = TaskRegistry::new();

    let id = submit_install(&mut registry, &catalog, &"vscode-id".to_string(), ts()).unwrap();
    let _cmd = start_install(&mut registry, &catalog, &service, id, None, ts()).unwrap();

    let outcome = install_agent::command::process_output(
        false,
        String::new(),
        "sh: no-such-installer: command not found".to_string(),
    );
    assert!(finish_install(&mut registry, id, outcome, ts()));

    let t = registry.get_task_status(id).unwrap();
    assert_eq!(t.status, InstallStatus::Failed);
    assert!(!t.message.is_empty());
    assert_eq!(t.message, "sh: no-such-installer: command not found");
    assert!(t.completed_at.is_some());
}

#[test]
fn test_successful_install_completes_task() {
    let catalog = catalog_with_vscode();
    let service = SoftwareServiceImpl::new();
    let mut registry = TaskRegistry::new();

    let id = submit_install(&mut registry, &catalog, &"vscode-id".to_string(), ts()).unwrap();
    let _cmd = start_install(&mut registry, &catalog, &service, id, None, ts()).unwrap();

    let outcome =
        install_agent::command::process_output(true, "installed".to_string(), String::new());
    assert!(finish_install(&mut registry, id, outcome, ts()));

    let t = registry.get_task_status(id).unwrap();
    assert_eq!(t.status, InstallStatus::Completed);
    assert_eq!(t.progress, 100);
    assert_eq!(t.message, "installed");
}

#[test]
fn test_task_ids_are_sequential_and_independent() {
    let catalog = catalog_with_vscode();
    let mut registry = TaskRegistry::new();

    let first = submit_install(&mut registry, &catalog, &"vscode-id".to_string(), ts()).unwrap();
    let second = submit_install(&mut registry, &catalog, &"vscode-id".to_string(), ts()).unwrap();
    assert_ne!(first, second);
    assert_eq!(first, 0);
    assert_eq!(second, 1);
    assert_eq!(registry.task_count(), 2);

    assert!(registry.mark_running(first));
    assert!(registry.mark_failed(first, "stopped".to_string(), ts()));
    assert_eq!(registry.get_task_status(first).unwrap().status, InstallStatus::Failed);
    assert_eq!(registry.get_task_status(second).unwrap().status, InstallStatus::Pending);
}
