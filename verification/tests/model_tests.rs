use chrono::{Datelike, Timelike};
use install_agent::config_file::ConfigFile;
use install_agent::software::{
    software_from_toml, software_from_toml_checked, Dependencies, Paths, Software,
    SoftwareCategory, SoftwareInfo, SoftwareToml, Tags,
};
use install_agent::time::Timestamp;

fn timestamp_now() -> Timestamp {
    let now = chrono::Utc::now();
    Timestamp::new(
        now.year(),
        now.month() as u8,
        now.day() as u8,
        now.hour() as u8,
        now.minute() as u8,
        now.second() as u8,
    )
}

#[test]
fn test_software_new() {
    let name = "Test Software".to_string();
    let version = "1.0.0".to_string();
    let description = Some("Test Description".to_string());
    let install_command = "winget install TestSoftware".to_string();
    let category = SoftwareCategory::Development;

    let software = Software::new(
        name.clone(),
        version.clone(),
        description.clone(),
        install_command.clone(),
        category,
    );

    assert_eq!(software.name, name);
    assert_eq!(software.version, version);
    assert_eq!(software.description, description);
    assert_eq!(software.install_command, install_command);
    assert_eq!(software.category, category);
    assert!(software.id.len() > 0);
    assert!(software.tags.is_empty());
    assert!(software.dependencies.is_empty());
    assert_eq!(software.install_path, None);
    assert!(software.config_files.is_empty());

    assert!(software.created_at.le(&timestamp_now()));
    assert!(software.updated_at.le(&timestamp_now()));
    assert_eq!(software.created_at, software.updated_at);
}

#[test]
fn tests_test_software_new() {
    let name = "Test Software".to_string();
    let version = "1.0.0".to_string();
    let description = Some("Test Description".to_string());
    let install_command = "winget install TestSoftware".to_string();
    let category = SoftwareCategory::Development;

    let software = Software::new(
        name.clone(),
        version.clone(),
        description.clone(),
        install_command.clone(),
        category,
    );

    assert_eq!(software.name, name);
    assert_eq!(software.version, version);
    assert_eq!(software.description, description);
    assert_eq!(software.install_command, install_command);
    assert_eq!(software.category, category);
    assert!(software.id.len() > 0);
    assert!(software.tags.is_empty());
    assert!(software.dependencies.is_empty());
    assert_eq!(software.install_path, None);
    assert!(software.config_files.is_empty());

    assert!(software.created_at.le(&timestamp_now()));
    assert!(software.updated_at.le(&timestamp_now()));
    assert_eq!(software.created_at, software.updated_at);
}

#[test]
fn test_config_file_new() {
    let name = "Test Config".to_string();
    let source_path = "./test/source.json".to_string();
    let target_path = "%USERPROFILE%/test/target.json".to_string();
    let software_id = Some("test-software-id".to_string());
    let is_directory = false;

    let config_file = ConfigFile::new(
        name.clone(),
        source_path.clone(),
        target_path.clone(),
        software_id.clone(),
        is_directory,
    );

    assert_eq!(config_file.name, name);
    assert_eq!(config_file.source_path, source_path);
    assert_eq!(config_file.target_path, target_path);
    assert_eq!(config_file.software_id, software_id);
    assert_eq!(config_file.is_directory, is_directory);
    assert!(config_file.id.len() > 0);
    assert_eq!(config_file.description, None);
    assert!(config_file.backup_on_install);

    assert!(config_file.created_at.le(&timestamp_now()));
    assert!(config_file.updated_at.le(&timestamp_now()));
    assert_eq!(config_file.created_at, config_file.updated_at);
}

fn sample_toml(id: &str, category: &str) -> SoftwareToml {
    SoftwareToml {
        software: SoftwareInfo {
            id: id.to_string(),
            name: "Git".to_string(),
            version: "2.43.0".to_string(),
            description: None,
            install_command: "winget install Git.Git".to_string(),
            uninstall_command: Some("winget uninstall Git.Git".to_string()),
            category: category.to_string(),
        },
        tags: Tags { tags: vec!["vcs".to_string()] },
        dependencies: Dependencies { dependencies: vec![] },
        paths: Paths { install_path: None, config_files: vec!["git-id".to_string()] },
    }
}

#[test]
fn test_software_from_toml() {
    let software = software_from_toml(sample_toml("git", "Development"));
    assert_eq!(software.id, "git");
    assert_eq!(software.name, "Git");
    assert_eq!(software.version, "2.43.0");
    assert_eq!(software.install_command, "winget install Git.Git");
    assert_eq!(software.uninstall_command, Some("winget uninstall Git.Git".to_string()));
    assert_eq!(software.category, SoftwareCategory::Development);
    assert_eq!(software.tags, vec!["vcs".to_string()]);
    assert!(software.dependencies.is_empty());
    assert_eq!(software.config_files, vec!["git-id".to_string()]);
    assert_eq!(software.created_at, software.updated_at);
}

#[test]
fn test_category_parsing() {
    assert_eq!(SoftwareCategory::from_name("Development"), SoftwareCategory::Development);
    assert_eq!(SoftwareCategory::from_name("Productivity"), SoftwareCategory::Productivity);
    assert_eq!(SoftwareCategory::from_name("Utility"), SoftwareCategory::Utility);
    assert_eq!(SoftwareCategory::from_name("Entertainment"), SoftwareCategory::Entertainment);
    assert_eq!(SoftwareCategory::from_name("Communication"), SoftwareCategory::Communication);
    assert_eq!(SoftwareCategory::from_name("Security"), SoftwareCategory::Security);
    assert_eq!(SoftwareCategory::from_name("System"), SoftwareCategory::System);
    assert_eq!(SoftwareCategory::from_name("Other"), SoftwareCategory::Other);
    assert_eq!(SoftwareCategory::from_name("something else"), SoftwareCategory::Other);
}

#[test]
fn test_software_from_toml_checked() {
    assert!(software_from_toml_checked(sample_toml("git", "Development"), "git").is_some());
    assert!(software_from_toml_checked(sample_toml("git", "Development"), "vim").is_none());
}
