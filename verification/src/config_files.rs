//! Backup manager and deployment engine.
//!
//! Deploying a configuration file means: resolve the configured target path
//! against the environment snapshot, verify the source exists, back up an
//! existing target when the record asks for it, then copy the source over
//! the target. [`ConfigFileServiceImpl::deploy_to_model`] performs and
//! verifies this end to end against the in-memory filesystem; for the real
//! filesystem, [`ConfigFileServiceImpl::plan_deploy`] computes the same
//! decisions as a plan of concrete paths for the caller to carry out in
//! order.

use crate::config_file::ConfigFile;
use crate::error::{ErrorKind, Failure};
use crate::fs_model::FsModel;
use crate::path::{
    dir_name_of, expand_env_vars, file_name_of, has_sep, join_path, spec_dir_of, spec_expand,
    spec_file_name, spec_join, EnvVars,
};
use crate::time::{spec_sortable, Timestamp};
use vstd::prelude::*;

verus! {

/// The backup of a target is filed in the backup directory under the
/// target's file name with the sortable timestamp appended.
pub open spec fn spec_backup_name(target: Seq<char>, ts: Timestamp) -> Seq<char> {
    spec_file_name(target) + seq!['_'] + spec_sortable(ts)
}

pub open spec fn spec_backup_path(dir: Seq<char>, target: Seq<char>, ts: Timestamp) -> Seq<char> {
    spec_join(dir, spec_backup_name(target, ts))
}

/// One step of a deployment plan: copy the current target to the backup
/// path (the backup directory must exist first).
#[derive(Debug)]
pub struct BackupStep {
    /// Directory that must exist before the copy.
    pub dir: String,
    /// Full path the backup is written to.
    pub path: String,
}

/// Everything a caller needs to carry a deployment out against the real
/// filesystem, in order: take the backup if one is planned, ensure the
/// target's parent directory exists, then copy source over target.
#[derive(Debug)]
pub struct DeployPlan {
    /// The configured source path, verbatim.
    pub source: String,
    /// The resolved target path.
    pub target: String,
    /// The target's directory part, to be created if missing; `None` for a
    /// bare file name.
    pub target_parent: Option<String>,
    /// The backup to take before overwriting, if any.
    pub backup: Option<BackupStep>,
    /// Whether the copy is a recursive directory copy.
    pub recursive: bool,
}

/// The deployment engine; it owns the backup directory setting.
pub struct ConfigFileServiceImpl {
    pub backup_dir: String,
}

impl ConfigFileServiceImpl {
    pub fn new(backup_dir: String) -> (r: ConfigFileServiceImpl)
        ensures
            r.backup_dir == backup_dir,
    {
        ConfigFileServiceImpl { backup_dir }
    }

    /// The path a backup of `target` taken at `now` is filed under.
    pub fn backup_path_for(&self, target: &str, now: &Timestamp) -> (r: String)
        requires
            now.wf(),
        ensures
            r@ == spec_backup_path(self.backup_dir@, target@, *now),
    {
        let mut name = file_name_of(target);
        name.append("_");
        proof {
            reveal_strlit("_");
            assert("_"@ =~= seq!['_']);
        }
        let ts = now.sortable();
        name.append(ts.as_str());
        proof {
            assert(name@ =~= spec_backup_name(target@, *now));
        }
        join_path(self.backup_dir.as_str(), name.as_str())
    }

    /// Backs up the file at `target` into the backup directory, a no-op
    /// when the target does not exist. Returns the backup's path when one
    /// was taken.
    pub fn backup_if_exists(&self, fs: &mut FsModel, target: &String, now: &Timestamp) -> (r:
        Option<String>)
        requires
            now.wf(),
        ensures
            !old(fs)@.contains_key(target@) ==> (r is None && final(fs)@ == old(fs)@),
            old(fs)@.contains_key(target@) ==> (r matches Some(b) && b@ == spec_backup_path(
                self.backup_dir@,
                target@,
                *now,
            ) && final(fs)@ == old(fs)@.insert(b@, old(fs)@[target@])),
    {
        match fs.read_copy(target) {
            None => None,
            Some(data) => {
                let b = self.backup_path_for(target.as_str(), now);
                let b_out = b.clone();
                fs.write(b, data);
                Some(b_out)
            },
        }
    }

    /// Decides a deployment, given whether the source and the resolved
    /// target currently exist: rejects a missing source, plans a backup
    /// exactly when the target exists and the record asks for one, and
    /// names the directories that must exist before the copy.
    pub fn plan_deploy(
        &self,
        cfg: &ConfigFile,
        env: &EnvVars,
        source_exists: bool,
        target_exists: bool,
        now: &Timestamp,
    ) -> (r: Result<DeployPlan, Failure>)
        requires
            now.wf(),
        ensures
            !source_exists ==> (r matches Err(f) && f.kind == ErrorKind::SourceMissing
                && f.message@ == "source path does not exist: "@ + cfg.source_path@),
            source_exists ==> (r matches Ok(p) && {
                let target = spec_expand(cfg.target_path@, *env);
                &&& p.source == cfg.source_path
                &&& p.target@ == target
                &&& (p.target_parent is Some <==> has_sep(target))
                &&& (p.target_parent matches Some(d) ==> d@ == spec_dir_of(target))
                &&& (p.backup is Some <==> target_exists && cfg.backup_on_install)
                &&& (p.backup matches Some(b) ==> b.dir == self.backup_dir && b.path@
                    == spec_backup_path(self.backup_dir@, target, *now))
                &&& p.recursive == cfg.is_directory
            }),
    {
        if !source_exists {
            let mut message = "source path does not exist: ".to_owned();
            message.append(cfg.source_path.as_str());
            return Err(Failure { kind: ErrorKind::SourceMissing, message });
        }
        let target = expand_env_vars(cfg.target_path.as_str(), env);
        let backup = if target_exists && cfg.backup_on_install {
            Some(BackupStep {
                dir: self.backup_dir.clone(),
                path: self.backup_path_for(target.as_str(), now),
            })
        } else {
            None
        };
        let target_parent = dir_name_of(target.as_str());
        Ok(DeployPlan {
            source: cfg.source_path.clone(),
            target,
            target_parent,
            backup,
            recursive: cfg.is_directory,
        })
    }

    /// Deploys a configuration file against the filesystem model: with the
    /// source present, the target ends up holding the source's bytes, and
    /// exactly when a pre-existing target was to be backed up, one new file
    /// appears in the backup directory holding the target's previous
    /// bytes. With the source missing, nothing changes and the deployment
    /// fails.
    pub fn deploy_to_model(
        &self,
        fs: &mut FsModel,
        cfg: &ConfigFile,
        env: &EnvVars,
        now: &Timestamp,
    ) -> (r: Result<Option<String>, Failure>)
        requires
            now.wf(),
        ensures
            ({
                let target = spec_expand(cfg.target_path@, *env);
                let source_exists = old(fs)@.contains_key(cfg.source_path@);
                let target_exists = old(fs)@.contains_key(target);
                &&& !source_exists ==> (r matches Err(f) && f.kind == ErrorKind::SourceMissing
                    && f.message@ == "source path does not exist: "@ + cfg.source_path@
                    && final(fs)@ == old(fs)@)
                &&& (source_exists && target_exists && cfg.backup_on_install) ==> (r matches Ok(b)
                    && b matches Some(bp) && bp@ == spec_backup_path(self.backup_dir@, target, *now)
                    && final(fs)@ == old(fs)@.insert(bp@, old(fs)@[target]).insert(
                    target,
                    old(fs)@[cfg.source_path@],
                ))
                &&& (source_exists && !(target_exists && cfg.backup_on_install)) ==> (r matches
                    Ok(b) && b is None && final(fs)@ == old(fs)@.insert(
                    target,
                    old(fs)@[cfg.source_path@],
                ))
            }),
    {
        let target = expand_env_vars(cfg.target_path.as_str(), env);
        let source_data = match fs.read_copy(&cfg.source_path) {
            None => {
                let mut message = "source path does not exist: ".to_owned();
                message.append(cfg.source_path.as_str());
                return Err(Failure { kind: ErrorKind::SourceMissing, message });
            },
            Some(data) => data,
        };
        let backup = if cfg.backup_on_install {
            self.backup_if_exists(fs, &target, now)
        } else {
            None
        };
        fs.write(target, source_data);
        Ok(backup)
    }
}

} // verus!
