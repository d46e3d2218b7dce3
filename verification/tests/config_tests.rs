use install_agent::config::Config;

#[test]
fn test_default_config() {
    let config = Config::default();

    assert_eq!(config.server.host, "127.0.0.1");
    assert_eq!(config.server.port, 8080);
    assert!(config.software.repositories.len() >= 1);
    assert!(!config.software.default_install_path.is_empty());
    assert!(!config.software.cache_dir.is_empty());
    assert!(!config.config_files.backup_dir.is_empty());
    assert!(!config.config_files.default_config_path.is_empty());
}
