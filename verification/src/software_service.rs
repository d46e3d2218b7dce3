//! Install engine: from a software record to the command line that
//! installs it.
//!
//! The engine resolves a record to its install command, optionally
//! augmented with a caller-chosen install location, and decides where in
//! the catalog directory a record's file lives. Running the command is the
//! command runner's concern; its outcome is folded back into the task
//! registry by the orchestrator.

use crate::path::{join_path, spec_join};
use crate::software::Software;
use vstd::prelude::*;

verus! {

/// The install command for `software`, with the location argument appended
/// when a custom install path was requested.
pub open spec fn spec_install_command(cmd: Seq<char>, path: Option<Seq<char>>) -> Seq<char> {
    match path {
        None => cmd,
        Some(p) => cmd + " --location \""@ + p + "\""@,
    }
}

/// The install engine; it owns the catalog directory setting.
pub struct SoftwareServiceImpl {
    pub config_dir: String,
}

impl SoftwareServiceImpl {
    pub fn new() -> (r: SoftwareServiceImpl)
        ensures
            r.config_dir@ == "config/software"@,
    {
        SoftwareServiceImpl { config_dir: "config/software".to_owned() }
    }

    /// The catalog file a software id's record is stored in:
    /// `<config_dir>/<id>.toml`.
    pub fn software_config_path(&self, id: &str) -> (r: String)
        ensures
            r@ == spec_join(self.config_dir@, id@ + ".toml"@),
    {
        let mut name = id.to_owned();
        name.append(".toml");
        join_path(self.config_dir.as_str(), name.as_str())
    }

    /// Builds the command line that installs `software`: the record's
    /// install command, plus the package manager's location argument when a
    /// custom install path is supplied.
    pub fn build_install_command(&self, software: &Software, install_path: Option<&str>) -> (r:
        String)
        ensures
            install_path is None ==> r@ == software.install_command@,
            install_path matches Some(p) ==> r@ == spec_install_command(
                software.install_command@,
                Some(p@),
            ),
    {
        match install_path {
            None => software.install_command.clone(),
            Some(p) => {
                let mut cmd = software.install_command.clone();
                cmd.append(" --location \"");
                cmd.append(p);
                cmd.append("\"");
                cmd
            },
        }
    }
}

} // verus!
