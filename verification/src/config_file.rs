//! Catalog records for deployable configuration files.

use crate::ids::fresh_record_id;
use crate::time::{now_utc, Timestamp};
use vstd::prelude::*;

verus! {

/// Static description of a deployable file or directory tree. The catalog
/// owns these records; the core only reads them.
pub struct ConfigFile {
    pub id: String,
    pub name: String,
    pub description: Option<String>,
    /// Where the file ships with the agent.
    pub source_path: String,
    /// Where it is deployed to; may contain environment placeholders.
    pub target_path: String,
    /// The software record this file belongs to, if any.
    pub software_id: Option<String>,
    pub is_directory: bool,
    /// Whether an existing target is backed up before being overwritten.
    pub backup_on_install: bool,
    pub created_at: Timestamp,
    pub updated_at: Timestamp,
}

impl ConfigFile {
    /// A fresh record: a newly generated id, backups enabled, and matching
    /// creation and update times.
    pub fn new(
        name: String,
        source_path: String,
        target_path: String,
        software_id: Option<String>,
        is_directory: bool,
    ) -> (r: ConfigFile)
        ensures
            r.id@.len() == 36,
            r.name == name,
            r.description is None,
            r.source_path == source_path,
            r.target_path == target_path,
            r.software_id == software_id,
            r.is_directory == is_directory,
            r.backup_on_install == true,
            r.created_at == r.updated_at,
            r.created_at.wf(),
    {
        let now = now_utc();
        ConfigFile {
            id: fresh_record_id(),
            name,
            description: None,
            source_path,
            target_path,
            software_id,
            is_directory,
            backup_on_install: true,
            created_at: now,
            updated_at: now,
        }
    }
}

/// The plain request shape for creating or updating a configuration-file
/// record.
pub struct ConfigFileRequest {
    pub name: String,
    pub description: Option<String>,
    pub source_path: String,
    pub target_path: String,
    pub software_id: Option<String>,
    pub is_directory: bool,
    pub backup_on_install: bool,
}

} // verus!
