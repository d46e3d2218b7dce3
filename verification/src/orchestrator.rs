//! The orchestrator: the boundary operations a transport calls.
//!
//! `submit_install` and `submit_deploy` validate the subject against the
//! read-only catalog, create a `Pending` task and return its id at once;
//! the id is immediately visible to `get_task_status` on the registry. The
//! work itself runs afterwards: `start_install` resolves the record to a
//! command line and marks the task running, `finish_install` folds the
//! command runner's outcome back into the registry, and `run_deploy`
//! carries a deployment out against the filesystem model from start to
//! terminal state.

use crate::config_file::ConfigFile;
use crate::config_files::{spec_backup_path, ConfigFileServiceImpl};
use crate::error::{ErrorKind, Failure};
use crate::fs_model::FsModel;
use crate::path::{spec_expand, EnvVars};
use crate::registry::{terminal_preserved, InstallStatus, Task, TaskKind, TaskRegistry};
use crate::software::Software;
use crate::software_service::{spec_install_command, SoftwareServiceImpl};
use crate::text::str_eq;
use crate::time::Timestamp;
use vstd::prelude::*;

verus! {

/// The first software record carrying the given id, in catalog order.
pub open spec fn spec_find_software(s: Seq<Software>, id: Seq<char>) -> Option<Software>
    decreases s.len(),
{
    if s.len() == 0 {
        None
    } else if s[0].id@ == id {
        Some(s[0])
    } else {
        spec_find_software(s.drop_first(), id)
    }
}

/// The first config-file record carrying the given id, in catalog order.
pub open spec fn spec_find_config(s: Seq<ConfigFile>, id: Seq<char>) -> Option<ConfigFile>
    decreases s.len(),
{
    if s.len() == 0 {
        None
    } else if s[0].id@ == id {
        Some(s[0])
    } else {
        spec_find_config(s.drop_first(), id)
    }
}

/// The read-only catalog of software and config-file records, keyed by id.
pub struct Catalog {
    pub software: Vec<Software>,
    pub config_files: Vec<ConfigFile>,
}

impl Catalog {
    pub fn new() -> (r: Catalog)
        ensures
            r.software@ =~= Seq::<Software>::empty(),
            r.config_files@ =~= Seq::<ConfigFile>::empty(),
    {
        Catalog { software: Vec::new(), config_files: Vec::new() }
    }

    pub fn add_software(&mut self, s: Software)
        ensures
            final(self).software@ == old(self).software@.push(s),
            final(self).config_files == old(self).config_files,
    {
        self.software.push(s);
    }

    pub fn add_config_file(&mut self, c: ConfigFile)
        ensures
            final(self).config_files@ == old(self).config_files@.push(c),
            final(self).software == old(self).software,
    {
        self.config_files.push(c);
    }

    pub open spec fn spec_has_software(&self, id: Seq<char>) -> bool {
        spec_find_software(self.software@, id) is Some
    }

    pub open spec fn spec_has_config_file(&self, id: Seq<char>) -> bool {
        spec_find_config(self.config_files@, id) is Some
    }

    /// Looks a software record up by id: the first record with that id, or
    /// `None` when the catalog has none.
    pub fn find_software<'a>(&'a self, id: &str) -> (r: Option<&'a Software>)
        ensures
            r is Some <==> self.spec_has_software(id@),
            r matches Some(x) ==> Some(*x) == spec_find_software(self.software@, id@),
    {
        let n = self.software.len();
        let mut i: usize = 0;
        proof {
            assert(self.software@.skip(0) =~= self.software@);
        }
        while i < n
            invariant
                i <= n,
                n == self.software@.len(),
                spec_find_software(self.software@, id@) == spec_find_software(
                    self.software@.skip(i as int),
                    id@,
                ),
            decreases n - i,
        {
            if str_eq(self.software[i].id.as_str(), id) {
                proof {
                    assert(self.software@.skip(i as int)[0] == self.software@[i as int]);
                }
                return Some(&self.software[i]);
            }
            proof {
                assert(self.software@.skip(i as int).drop_first() =~= self.software@.skip(
                    i as int + 1,
                ));
            }
            i = i + 1;
        }
        proof {
            assert(self.software@.skip(n as int) =~= Seq::<Software>::empty());
        }
        None
    }

    /// Looks a config-file record up by id, as [`Catalog::find_software`]
    /// does for software.
    pub fn find_config_file<'a>(&'a self, id: &str) -> (r: Option<&'a ConfigFile>)
        ensures
            r is Some <==> self.spec_has_config_file(id@),
            r matches Some(x) ==> Some(*x) == spec_find_config(self.config_files@, id@),
    {
        let n = self.config_files.len();
        let mut i: usize = 0;
        proof {
            assert(self.config_files@.skip(0) =~= self.config_files@);
        }
        while i < n
            invariant
                i <= n,
                n == self.config_files@.len(),
                spec_find_config(self.config_files@, id@) == spec_find_config(
                    self.config_files@.skip(i as int),
                    id@,
                ),
            decreases n - i,
        {
            if str_eq(self.config_files[i].id.as_str(), id) {
                proof {
                    assert(self.config_files@.skip(i as int)[0] == self.config_files@[i as int]);
                }
                return Some(&self.config_files[i]);
            }
            proof {
                assert(self.config_files@.skip(i as int).drop_first() =~= self.config_files@.skip(
                    i as int + 1,
                ));
            }
            i = i + 1;
        }
        proof {
            assert(self.config_files@.skip(n as int) =~= Seq::<ConfigFile>::empty());
        }
        None
    }
}

/// Submits an install request: succeeds, with a fresh `Pending` task
/// immediately visible under the returned id, exactly when the software id
/// resolves in the catalog; otherwise fails with `NotFound` and leaves the
/// registry untouched.
pub fn submit_install(
    registry: &mut TaskRegistry,
    catalog: &Catalog,
    software_id: &String,
    now: Timestamp,
) -> (r: Result<u64, Failure>)
    requires
        old(registry).wf(),
        old(registry)@.len() < u64::MAX,
    ensures
        final(registry).wf(),
        terminal_preserved(old(registry)@, final(registry)@),
        r is Ok <==> catalog.spec_has_software(software_id@),
        r matches Err(f) ==> f.kind == ErrorKind::NotFound && f.message@ == "software not found: "@
            + software_id@ && final(registry)@ == old(registry)@,
        r matches Ok(id) ==> ({
            &&& id == old(registry)@.len()
            &&& final(registry).issued(id)
            &&& final(registry)@.len() == old(registry)@.len() + 1
            &&& forall|j: int|
                0 <= j < old(registry)@.len() ==> final(registry)@[j] == old(registry)@[j]
            &&& ({
                let t = final(registry)@[id as int];
                &&& t.kind == TaskKind::InstallSoftware
                &&& t.subject_id@ == software_id@
                &&& t.status == InstallStatus::Pending
                &&& t.progress == 0
                &&& t.created_at == now
                &&& t.completed_at is None
            })
        }),
{
    if catalog.find_software(software_id.as_str()).is_some() {
        let id = registry.submit(
            TaskKind::InstallSoftware,
            software_id.clone(),
            "pending".to_owned(),
            now,
        );
        Ok(id)
    } else {
        let mut message = "software not found: ".to_owned();
        message.append(software_id.as_str());
        Err(Failure { kind: ErrorKind::NotFound, message })
    }
}

/// Submits a deployment request, exactly as [`submit_install`] does for an
/// install: `NotFound` when the config-file id does not resolve, otherwise
/// a fresh `Pending` task.
pub fn submit_deploy(
    registry: &mut TaskRegistry,
    catalog: &Catalog,
    config_file_id: &String,
    now: Timestamp,
) -> (r: Result<u64, Failure>)
    requires
        old(registry).wf(),
        old(registry)@.len() < u64::MAX,
    ensures
        final(registry).wf(),
        terminal_preserved(old(registry)@, final(registry)@),
        r is Ok <==> catalog.spec_has_config_file(config_file_id@),
        r matches Err(f) ==> f.kind == ErrorKind::NotFound && f.message@
            == "config file not found: "@ + config_file_id@ && final(registry)@ == old(registry)@,
        r matches Ok(id) ==> ({
            &&& id == old(registry)@.len()
            &&& final(registry).issued(id)
            &&& final(registry)@.len() == old(registry)@.len() + 1
            &&& forall|j: int|
                0 <= j < old(registry)@.len() ==> final(registry)@[j] == old(registry)@[j]
            &&& ({
                let t = final(registry)@[id as int];
                &&& t.kind == TaskKind::DeployConfigFile
                &&& t.subject_id@ == config_file_id@
                &&& t.status == InstallStatus::Pending
                &&& t.progress == 0
                &&& t.created_at == now
                &&& t.completed_at is None
            })
        }),
{
    if catalog.find_config_file(config_file_id.as_str()).is_some() {
        let id = registry.submit(
            TaskKind::DeployConfigFile,
            config_file_id.clone(),
            "pending".to_owned(),
            now,
        );
        Ok(id)
    } else {
        let mut message = "config file not found: ".to_owned();
        message.append(config_file_id.as_str());
        Err(Failure { kind: ErrorKind::NotFound, message })
    }
}

/// Starts a pending install task: resolves the software record once, at
/// execution start, builds the command line to run and marks the task
/// running. When the record no longer resolves the task fails instead.
pub fn start_install(
    registry: &mut TaskRegistry,
    catalog: &Catalog,
    service: &SoftwareServiceImpl,
    id: u64,
    install_path: Option<&str>,
    now: Timestamp,
) -> (r: Result<String, Failure>)
    requires
        old(registry).wf(),
        old(registry).issued(id),
        old(registry)@[id as int].status == InstallStatus::Pending,
        old(registry)@[id as int].kind == TaskKind::InstallSoftware,
    ensures
        final(registry).wf(),
        terminal_preserved(old(registry)@, final(registry)@),
        final(registry)@.len() == old(registry)@.len(),
        forall|j: int|
            0 <= j < old(registry)@.len() && j != id as int ==> final(registry)@[j] == old(registry)@[j],
        ({
            let subject = old(registry)@[id as int].subject_id@;
            let found = spec_find_software(catalog.software@, subject);
            &&& (r is Ok <==> found is Some)
            &&& (r matches Ok(cmd) ==> ({
                &&& install_path is None ==> cmd@ == found->Some_0.install_command@
                &&& install_path matches Some(p) ==> cmd@ == spec_install_command(
                    found->Some_0.install_command@,
                    Some(p@),
                )
                &&& final(registry)@[id as int] == (Task {
                    status: InstallStatus::Installing,
                    ..old(registry)@[id as int]
                })
            }))
            &&& (r matches Err(f) ==> ({
                &&& f.kind == ErrorKind::NotFound
                &&& f.message@ == "software not found: "@ + subject
                &&& final(registry)@[id as int].status == InstallStatus::Failed
                &&& final(registry)@[id as int].message@ == "software not found: "@ + subject
                &&& final(registry)@[id as int].completed_at == Some(now)
            }))
        }),
{
    let subject = match registry.get_task_status(id) {
        Some(t) => t.subject_id.clone(),
        None => vstd::pervasive::unreached(),
    };
    match catalog.find_software(subject.as_str()) {
        Some(software) => {
            let cmd = service.build_install_command(software, install_path);
            registry.mark_running(id);
            Ok(cmd)
        },
        None => {
            let mut message = "software not found: ".to_owned();
            message.append(subject.as_str());
            let reply = message.clone();
            registry.mark_failed(id, message, now);
            Err(Failure { kind: ErrorKind::NotFound, message: reply })
        },
    }
}

/// Folds the command runner's outcome for an install task back into the
/// registry: the task completes with the captured output as its message,
/// or fails with the failure's message. A no-op on unknown ids and tasks
/// already terminal.
pub fn finish_install(
    registry: &mut TaskRegistry,
    id: u64,
    outcome: Result<String, Failure>,
    now: Timestamp,
) -> (changed: bool)
    requires
        old(registry).wf(),
    ensures
        final(registry).wf(),
        terminal_preserved(old(registry)@, final(registry)@),
        final(registry)@.len() == old(registry)@.len(),
        forall|j: int|
            0 <= j < old(registry)@.len() && j != id as int ==> final(registry)@[j] == old(registry)@[j],
        changed <==> old(registry).issued(id) && !old(registry)@[id as int].status.spec_is_terminal(),
        changed ==> (outcome matches Ok(out) ==> final(registry)@[id as int] == (Task {
            status: InstallStatus::Completed,
            progress: 100,
            message: out,
            completed_at: Some(now),
            ..old(registry)@[id as int]
        })),
        changed ==> (outcome matches Err(f) ==> final(registry)@[id as int] == (Task {
            status: InstallStatus::Failed,
            message: f.message,
            completed_at: Some(now),
            ..old(registry)@[id as int]
        })),
        !changed ==> final(registry)@ == old(registry)@,
{
    match outcome {
        Ok(out) => registry.mark_completed(id, out, now),
        Err(f) => registry.mark_failed(id, f.message, now),
    }
}

/// Carries a pending deployment task to its terminal state against the
/// filesystem model: looks the record up, marks the task running, deploys,
/// and records completion or failure. The task always ends terminal.
pub fn run_deploy(
    registry: &mut TaskRegistry,
    catalog: &Catalog,
    service: &ConfigFileServiceImpl,
    fs: &mut FsModel,
    id: u64,
    env: &EnvVars,
    now: Timestamp,
) -> (r: Result<Option<String>, Failure>)
    requires
        old(registry).wf(),
        old(registry).issued(id),
        old(registry)@[id as int].status == InstallStatus::Pending,
        old(registry)@[id as int].kind == TaskKind::DeployConfigFile,
        now.wf(),
    ensures
        final(registry).wf(),
        terminal_preserved(old(registry)@, final(registry)@),
        final(registry)@.len() == old(registry)@.len(),
        forall|j: int|
            0 <= j < old(registry)@.len() && j != id as int ==> final(registry)@[j] == old(registry)@[j],
        final(registry)@[id as int].status.spec_is_terminal(),
        ({
            let subject = old(registry)@[id as int].subject_id@;
            let found = spec_find_config(catalog.config_files@, subject);
            &&& (found is None ==> (r matches Err(f) && f.kind == ErrorKind::NotFound && final(fs)@
                == old(fs)@ && final(registry)@[id as int].status == InstallStatus::Failed))
            &&& (found matches Some(cfg) ==> ({
                let target = spec_expand(cfg.target_path@, *env);
                let source_exists = old(fs)@.contains_key(cfg.source_path@);
                let target_exists = old(fs)@.contains_key(target);
                &&& !source_exists ==> (r matches Err(f) && f.kind == ErrorKind::SourceMissing
                    && final(fs)@ == old(fs)@ && final(registry)@[id as int].status
                    == InstallStatus::Failed && final(registry)@[id as int].message@
                    == "source path does not exist: "@ + cfg.source_path@)
                &&& (source_exists && target_exists && cfg.backup_on_install) ==> (r matches Ok(b)
                    && b matches Some(bp) && bp@ == spec_backup_path(
                    service.backup_dir@,
                    target,
                    now,
                ) && final(fs)@ == old(fs)@.insert(bp@, old(fs)@[target]).insert(
                    target,
                    old(fs)@[cfg.source_path@],
                ) && final(registry)@[id as int].status == InstallStatus::Completed && final(registry)@[id as int].progress == 100)
                &&& (source_exists && !(target_exists && cfg.backup_on_install)) ==> (r matches
                    Ok(b) && b is None && final(fs)@ == old(fs)@.insert(
                    target,
                    old(fs)@[cfg.source_path@],
                ) && final(registry)@[id as int].status == InstallStatus::Completed)
            }))
        }),
{
    let subject = match registry.get_task_status(id) {
        Some(t) => t.subject_id.clone(),
        None => vstd::pervasive::unreached(),
    };
    match catalog.find_config_file(subject.as_str()) {
        None => {
            let mut message = "config file not found: ".to_owned();
            message.append(subject.as_str());
            let reply = message.clone();
            registry.mark_failed(id, message, now);
            Err(Failure { kind: ErrorKind::NotFound, message: reply })
        },
        Some(cfg) => {
            registry.mark_running(id);
            match service.deploy_to_model(fs, cfg, env, &now) {
                Ok(backup) => {
                    registry.mark_completed(id, "deployed".to_owned(), now);
                    Ok(backup)
                },
                Err(f) => {
                    let message = f.message.clone();
                    registry.mark_failed(id, message, now);
                    Err(f)
                },
            }
        },
    }
}

} // verus!
