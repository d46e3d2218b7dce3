//! Catalog records for installable software.
//!
//! A [`Software`] record statically describes one installable package; the
//! catalog owns these records and the core only reads them. The `*Toml`
//! structs mirror the on-disk catalog layout as plain values; turning them
//! into a [`Software`] record — including parsing the category name — is
//! verified here, while reading and deserializing the file is the caller's
//! concern.

use crate::ids::fresh_record_id;
use crate::text::str_eq;
use crate::time::{now_utc, Timestamp};
use vstd::prelude::*;

verus! {

/// Closed set of software categories.
#[derive(Clone, Copy, PartialEq, Eq, Structural, Debug)]
pub enum SoftwareCategory {
    Development,
    Productivity,
    Utility,
    Entertainment,
    Communication,
    Security,
    System,
    Other,
}

/// The category a catalog file's category name denotes; unrecognized names
/// fall back to `Other`.
pub open spec fn spec_category_of(s: Seq<char>) -> SoftwareCategory {
    if s == "Development"@ {
        SoftwareCategory::Development
    } else if s == "Productivity"@ {
        SoftwareCategory::Productivity
    } else if s == "Utility"@ {
        SoftwareCategory::Utility
    } else if s == "Entertainment"@ {
        SoftwareCategory::Entertainment
    } else if s == "Communication"@ {
        SoftwareCategory::Communication
    } else if s == "Security"@ {
        SoftwareCategory::Security
    } else if s == "System"@ {
        SoftwareCategory::System
    } else {
        SoftwareCategory::Other
    }
}

impl SoftwareCategory {
    /// Parses a category name from a catalog file.
    pub fn from_name(s: &str) -> (r: SoftwareCategory)
        ensures
            r == spec_category_of(s@),
    {
        if str_eq(s, "Development") {
            SoftwareCategory::Development
        } else if str_eq(s, "Productivity") {
            SoftwareCategory::Productivity
        } else if str_eq(s, "Utility") {
            SoftwareCategory::Utility
        } else if str_eq(s, "Entertainment") {
            SoftwareCategory::Entertainment
        } else if str_eq(s, "Communication") {
            SoftwareCategory::Communication
        } else if str_eq(s, "Security") {
            SoftwareCategory::Security
        } else if str_eq(s, "System") {
            SoftwareCategory::System
        } else {
            SoftwareCategory::Other
        }
    }
}

/// Static description of an installable package. The core reads these
/// records and never mutates them.
pub struct Software {
    pub id: String,
    pub name: String,
    pub version: String,
    pub description: Option<String>,
    /// Command line that installs the package.
    pub install_command: String,
    pub uninstall_command: Option<String>,
    pub category: SoftwareCategory,
    pub tags: Vec<String>,
    /// Ids of software this package depends on.
    pub dependencies: Vec<String>,
    pub install_path: Option<String>,
    /// Ids of configuration files associated with this package.
    pub config_files: Vec<String>,
    pub created_at: Timestamp,
    pub updated_at: Timestamp,
}

impl Software {
    /// A fresh record: a newly generated id, empty tag/dependency lists,
    /// and matching creation and update times.
    pub fn new(
        name: String,
        version: String,
        description: Option<String>,
        install_command: String,
        category: SoftwareCategory,
    ) -> (r: Software)
        ensures
            r.id@.len() == 36,
            r.name == name,
            r.version == version,
            r.description == description,
            r.install_command == install_command,
            r.uninstall_command is None,
            r.category == category,
            r.tags@.len() == 0,
            r.dependencies@.len() == 0,
            r.install_path is None,
            r.config_files@.len() == 0,
            r.created_at == r.updated_at,
            r.created_at.wf(),
    {
        let now = now_utc();
        Software {
            id: fresh_record_id(),
            name,
            version,
            description,
            install_command,
            uninstall_command: None,
            category,
            tags: Vec::new(),
            dependencies: Vec::new(),
            install_path: None,
            config_files: Vec::new(),
            created_at: now,
            updated_at: now,
        }
    }
}

/// Request to install a set of software packages.
pub struct SoftwareInstallRequest {
    pub software_ids: Vec<String>,
    pub custom_install_path: Option<String>,
}

/// The catalog file layout for one software record.
pub struct SoftwareToml {
    pub software: SoftwareInfo,
    pub tags: Tags,
    pub dependencies: Dependencies,
    pub paths: Paths,
}

pub struct SoftwareInfo {
    pub id: String,
    pub name: String,
    pub version: String,
    pub description: Option<String>,
    pub install_command: String,
    pub uninstall_command: Option<String>,
    /// Category by name; parsed by [`SoftwareCategory::from_name`].
    pub category: String,
}

pub struct Tags {
    pub tags: Vec<String>,
}

pub struct Dependencies {
    pub dependencies: Vec<String>,
}

pub struct Paths {
    pub install_path: Option<String>,
    pub config_files: Vec<String>,
}

/// Builds the catalog record described by a parsed catalog file: every
/// field is carried over, the category name is parsed, and the record is
/// stamped with the current time.
pub fn software_from_toml(t: SoftwareToml) -> (r: Software)
    ensures
        r.id == t.software.id,
        r.name == t.software.name,
        r.version == t.software.version,
        r.description == t.software.description,
        r.install_command == t.software.install_command,
        r.uninstall_command == t.software.uninstall_command,
        r.category == spec_category_of(t.software.category@),
        r.tags == t.tags.tags,
        r.dependencies == t.dependencies.dependencies,
        r.install_path == t.paths.install_path,
        r.config_files == t.paths.config_files,
        r.created_at == r.updated_at,
        r.created_at.wf(),
{
    let category = SoftwareCategory::from_name(t.software.category.as_str());
    let now = now_utc();
    Software {
        id: t.software.id,
        name: t.software.name,
        version: t.software.version,
        description: t.software.description,
        install_command: t.software.install_command,
        uninstall_command: t.software.uninstall_command,
        category,
        tags: t.tags.tags,
        dependencies: t.dependencies.dependencies,
        install_path: t.paths.install_path,
        config_files: t.paths.config_files,
        created_at: now,
        updated_at: now,
    }
}

/// The record from a catalog file looked up under `expected_id`: accepted
/// exactly when the id inside the file matches the id it was looked up by.
pub fn software_from_toml_checked(t: SoftwareToml, expected_id: &str) -> (r: Option<Software>)
    ensures
        r is Some <==> t.software.id@ == expected_id@,
        r matches Some(s) ==> s.id@ == expected_id@ && s.name == t.software.name
            && s.install_command == t.software.install_command && s.category == spec_category_of(
            t.software.category@,
        ),
{
    if str_eq(t.software.id.as_str(), expected_id) {
        Some(software_from_toml(t))
    } else {
        None
    }
}

} // verus!
