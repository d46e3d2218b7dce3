use install_agent::config_file::ConfigFile;
use install_agent::config_files::ConfigFileServiceImpl;
use install_agent::error::ErrorKind;
use install_agent::fs_model::FsModel;
use install_agent::orchestrator::{run_deploy, submit_deploy, Catalog};
use install_agent::path::EnvVars;
use install_agent::registry::{InstallStatus, TaskRegistry};
use install_agent::time::Timestamp;

fn ts() -> Timestamp {
    Timestamp::new(2024, 1, 31, 23, 59, 59)
}

fn env_with_profile(profile: &str) -> EnvVars {
    EnvVars {
        userprofile: profile.to_string(),
        appdata: String::new(),
        local_appdata: String::new(),
        program_files: String::new(),
        program_files_x86: String::new(),
    }
}

fn git_config_record() -> ConfigFile {
    let mut record = ConfigFile::new(
        "Git configuration".to_string(),
        "./configs/git/.gitconfig".to_string(),
        "%USERPROFILE%/.gitconfig".to_string(),
        None,
        false,
    );
    record.id = "git-id".to_string();
    record
}

#[test]
fn test_sortable_timestamp_format() {
    assert_eq!(ts().sortable(), "20240131_235959");
    assert_eq!(Timestamp::new(980, 6, 3, 4, 5, 6).sortable(), "09800603_040506");
}

#[test]
fn test_backup_path() {
    let service = ConfigFileServiceImpl::new("./backups".to_string());
    let backup = service.backup_path_for("/home/u/.gitconfig", &ts());
    assert_eq!(backup, "./backups/.gitconfig_20240131_235959");
}

#[test]
fn test_backup_before_overwrite() {
    let service = ConfigFileServiceImpl::new("./backups".to_string());
    let env = env_with_profile("/home/u");
    let mut fs = FsModel::new();
    fs.write("./configs/git/.gitconfig".to_string(), b"X".to_vec());
    fs.write("/home/u/.gitconfig".to_string(), b"Y".to_vec());

    let record = git_config_record();
    assert!(record.backup_on_install);
    let backup = service.deploy_to_model(&mut fs, &record, &env, &ts()).unwrap();

    let backup_path = backup.unwrap();
    assert_eq!(backup_path, "./backups/.gitconfig_20240131_235959");
    assert_eq!(fs.read_copy(&backup_path).unwrap(), b"Y".to_vec());
    assert_eq!(fs.read_copy(&"/home/u/.gitconfig".to_string()).unwrap(), b"X".to_vec());
}

#[test]
fn test_deploy_without_existing_target_takes_no_backup() {
    let service = ConfigFileServiceImpl::new("./backups".to_string());
    let env = env_with_profile("/home/u");
    let mut fs = FsModel::new();
    fs.write("./configs/git/.gitconfig".to_string(), b"X".to_vec());

    let record = git_config_record();
    let backup = service.deploy_to_model(&mut fs, &record, &env, &ts()).unwrap();

    assert!(backup.is_none());
    assert_eq!(fs.read_copy(&"/home/u/.gitconfig".to_string()).unwrap(), b"X".to_vec());
    let would_be_backup = service.backup_path_for("/home/u/.gitconfig", &ts());
    assert!(!fs.has_file(&would_be_backup));
}

#[test]
fn test_deploy_missing_source_fails() {
    let service = ConfigFileServiceImpl::new("./backups".to_string());
    let env = env_with_profile("/home/u");
    let mut fs = FsModel::new();

    let record = git_config_record();
    let err = service.deploy_to_model(&mut fs, &record, &env, &ts()).unwrap_err();
    assert_eq!(err.kind, ErrorKind::SourceMissing);
    assert!(!err.message.is_empty());
    assert!(!fs.has_file(&"/home/u/.gitconfig".to_string()));
}

#[test]
fn test_deploy_scenario_end_to_end() {
    let service = ConfigFileServiceImpl::new("./backups".to_string());
    let env = env_with_profile("/home/u");
    let mut catalog = Catalog::new();
    catalog.add_config_file(git_config_record());

    let mut fs = FsModel::new();
    fs.write("./configs/git/.gitconfig".to_string(), b"X".to_vec());
    fs.write("/home/u/.gitconfig".to_string(), b"Y".to_vec());

    let mut registry = TaskRegistry::new();
    let id = submit_deploy(&mut registry, &catalog, &"git-id".to_string(), ts()).unwrap();
    assert_eq!(registry.get_task_status(id).unwrap().status, InstallStatus::Pending);

    let backup =
        run_deploy(&mut registry, &catalog, &service, &mut fs, id, &env, ts()).unwrap().unwrap();

    assert_eq!(fs.read_copy(&backup).unwrap(), b"Y".to_vec());
    assert_eq!(fs.read_copy(&"/home/u/.gitconfig".to_string()).unwrap(), b"X".to_vec());
    let task = registry.get_task_status(id).unwrap();
    assert_eq!(task.status, InstallStatus::Completed);
    assert_eq!(task.progress, 100);
}

#[test]
fn test_deploy_unknown_config_file() {
    let catalog = Catalog::new();
    let mut registry = TaskRegistry::new();
    let err = submit_deploy(&mut registry, &catalog, &"git-id".to_string(), ts()).unwrap_err();
    assert_eq!(err.kind, ErrorKind::NotFound);
    assert_eq!(registry.task_count(), 0);
}

#[test]
fn test_deploy_missing_source_marks_task_failed() {
    let service = ConfigFileServiceImpl::new("./backups".to_string());
    let env = env_with_profile("/home/u");
    let mut catalog = Catalog::new();
    catalog.add_config_file(git_config_record());
    let mut fs = FsModel::new();
    let mut registry = TaskRegistry::new();

    let id = submit_deploy(&mut registry, &catalog, &"git-id".to_string(), ts()).unwrap();
    let err =
        run_deploy(&mut registry, &catalog, &service, &mut fs, id, &env, ts()).unwrap_err();
    assert_eq!(err.kind, ErrorKind::SourceMissing);

    let task = registry.get_task_status(id).unwrap();
    assert_eq!(task.status, InstallStatus::Failed);
    assert!(!task.message.is_empty());
    assert!(task.completed_at.is_some());
}

#[test]
fn test_plan_deploy_steps() {
    let service = ConfigFileServiceImpl::new("./backups".to_string());
    let env = env_with_profile("/home/u");
    let record = git_config_record();

    let plan = service.plan_deploy(&record, &env, true, true, &ts()).unwrap();
    assert_eq!(plan.source, "./configs/git/.gitconfig");
    assert_eq!(plan.target, "/home/u/.gitconfig");
    assert_eq!(plan.target_parent, Some("/home/u".to_string()));
    let backup = plan.backup.unwrap();
    assert_eq!(backup.dir, "./backups");
    assert_eq!(backup.path, "./backups/.gitconfig_20240131_235959");
    assert!(!plan.recursive);

    let plan = service.plan_deploy(&record, &env, true, false, &ts()).unwrap();
    assert!(plan.backup.is_none());

    let err = service.plan_deploy(&record, &env, false, true, &ts()).unwrap_err();
    assert_eq!(err.kind, ErrorKind::SourceMissing);
}
