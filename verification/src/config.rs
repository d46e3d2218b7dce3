//! The agent's own settings: server address, software repositories and
//! config-file handling. Loading and saving the settings file is the
//! caller's concern; the library defines the shape and the default values.

use vstd::prelude::*;

verus! {

pub struct Config {
    pub server: ServerConfig,
    pub software: SoftwareConfig,
    pub config_files: ConfigFilesSettings,
}

pub struct ServerConfig {
    pub host: String,
    pub port: u16,
}

pub struct SoftwareConfig {
    pub repositories: Vec<String>,
    pub default_install_path: String,
    pub cache_dir: String,
}

pub struct ConfigFilesSettings {
    /// Where backups of overwritten targets accumulate.
    pub backup_dir: String,
    pub default_config_path: String,
}

impl Default for Config {
    /// The built-in defaults: a loopback server address and relative
    /// cache/backup directories.
    fn default() -> (r: Config)
        ensures
            r.server.host@ == "127.0.0.1"@,
            r.server.port == 8080,
            r.software.repositories@.len() == 2,
            r.software.repositories@[0]@ == "https://mirrors.tuna.tsinghua.edu.cn/winget/"@,
            r.software.repositories@[1]@ == "https://mirrors.ustc.edu.cn/winget/"@,
            r.software.default_install_path@ == "C:\\Program Files"@,
            r.software.cache_dir@ == ".\\cache"@,
            r.config_files.backup_dir@ == ".\\backups"@,
            r.config_files.default_config_path@ == "%USERPROFILE%"@,
    {
        let mut repositories: Vec<String> = Vec::new();
        repositories.push("https://mirrors.tuna.tsinghua.edu.cn/winget/".to_owned());
        repositories.push("https://mirrors.ustc.edu.cn/winget/".to_owned());
        Config {
            server: ServerConfig { host: "127.0.0.1".to_owned(), port: 8080 },
            software: SoftwareConfig {
                repositories,
                default_install_path: "C:\\Program Files".to_owned(),
                cache_dir: ".\\cache".to_owned(),
            },
            config_files: ConfigFilesSettings {
                backup_dir: ".\\backups".to_owned(),
                default_config_path: "%USERPROFILE%".to_owned(),
            },
        }
    }
}

} // verus!
