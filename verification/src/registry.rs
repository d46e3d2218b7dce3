//! Task registry: the agent's one piece of real shared state.
//!
//! Every submitted install/deploy request becomes a [`Task`] with a fresh
//! identifier; callers poll the registry by id until the task reaches a
//! terminal state. Task ids are the registry's own allocation: the id of the
//! n-th submitted task is n, so an id is "issued" exactly when it is below
//! the number of submissions, ids are never reused, and a freshly returned id
//! is immediately visible to a status query.
//!
//! The status state machine is `Pending -> Installing -> {Completed,
//! Failed}`; the terminal states are immutable, and every transition
//! function is a no-op on a task that has already reached one.

use crate::time::Timestamp;
use vstd::prelude::*;

verus! {

/// What kind of work a task tracks.
#[derive(Clone, Copy, PartialEq, Eq, Structural, Debug)]
pub enum TaskKind {
    InstallSoftware,
    DeployConfigFile,
}

/// Status of a tracked task. `Installing` is the running state, whichever
/// engine (install or deploy) is doing the work.
#[derive(Clone, Copy, PartialEq, Eq, Structural, Debug)]
pub enum InstallStatus {
    Pending,
    Installing,
    Completed,
    Failed,
}

impl InstallStatus {
    /// A terminal status never changes again.
    pub open spec fn spec_is_terminal(self) -> bool {
        self == InstallStatus::Completed || self == InstallStatus::Failed
    }

    #[verifier::when_used_as_spec(spec_is_terminal)]
    pub fn is_terminal(self) -> (r: bool)
        ensures
            r == self.spec_is_terminal(),
    {
        matches!(self, InstallStatus::Completed | InstallStatus::Failed)
    }
}

/// One in-flight or completed install/deploy operation.
pub struct Task {
    /// Unique identifier, allocated by the registry at submission.
    pub id: u64,
    /// The kind of work tracked: a software install or a
    /// configuration-file deployment.
    pub kind: TaskKind,
    /// Id of the catalog record (software or configuration file) acted on.
    pub subject_id: String,
    pub status: InstallStatus,
    /// Fractional completion as a percentage, 0..=100.
    pub progress: u32,
    /// Human-readable description of the current state.
    pub message: String,
    pub created_at: Timestamp,
    /// Set exactly when a terminal state is reached.
    pub completed_at: Option<Timestamp>,
}

impl Task {
    pub open spec fn wf(self) -> bool {
        &&& self.progress <= 100
        &&& (self.status.spec_is_terminal() <==> self.completed_at is Some)
    }
}

/// True when every task terminal in `pre` is still present, unchanged, in
/// `post`, and no issued id has been forgotten. Every registry operation
/// ensures this relation between its old and new state.
pub open spec fn terminal_preserved(pre: Seq<Task>, post: Seq<Task>) -> bool {
    &&& pre.len() <= post.len()
    &&& forall|j: int|
        0 <= j < pre.len() && (#[trigger] pre[j]).status.spec_is_terminal() ==> post[j] == pre[j]
}

/// One permitted step of a task's lifecycle, as observed across a single
/// registry operation: the task is untouched, goes from `Pending` to
/// `Installing`, takes a forward progress/message update while
/// `Installing`, or reaches a terminal state with its completion time set.
/// Transitions are therefore strictly ordered — `Pending` before
/// `Installing` before a terminal state — and a terminal task never moves.
pub open spec fn lifecycle_step(pre: Task, post: Task) -> bool {
    ||| post == pre
    ||| (pre.status == InstallStatus::Pending && post == (Task {
        status: InstallStatus::Installing,
        ..pre
    }))
    ||| (pre.status == InstallStatus::Installing && pre.progress <= post.progress && post == (Task {
        progress: post.progress,
        message: post.message,
        ..pre
    }))
    ||| (!pre.status.spec_is_terminal() && post.status.spec_is_terminal() && post.completed_at
        is Some)
}

/// Law: once a task is terminal, any chain of registry operations leaves its
/// snapshot unchanged, so repeated status queries answer identically.
pub proof fn lemma_terminal_snapshot_stable(pre: Seq<Task>, mid: Seq<Task>, post: Seq<Task>, i: int)
    requires
        0 <= i < pre.len(),
        pre[i].status.spec_is_terminal(),
        terminal_preserved(pre, mid),
        terminal_preserved(mid, post),
    ensures
        post[i] == pre[i],
{
    assert(mid[i] == pre[i]);
}

/// Law: an id once issued stays issued across any chain of registry
/// operations — a status query for it never answers "not found" later.
pub proof fn lemma_issued_stable(pre: Seq<Task>, mid: Seq<Task>, post: Seq<Task>, id: u64)
    requires
        (id as int) < pre.len(),
        terminal_preserved(pre, mid),
        terminal_preserved(mid, post),
    ensures
        (id as int) < post.len(),
{
}

/// The registry owns the task map exclusively; its view is the sequence of
/// tasks in submission order, so the task with id `i` sits at index `i`.
pub struct TaskRegistry {
    tasks: Vec<Task>,
}

impl View for TaskRegistry {
    type V = Seq<Task>;

    closed spec fn view(&self) -> Seq<Task> {
        self.tasks@
    }
}

impl TaskRegistry {
    pub open spec fn wf(&self) -> bool {
        forall|i: int|
            0 <= i < self@.len() ==> (#[trigger] self@[i]).id == i as u64 && self@[i].wf()
    }

    /// True when `id` was issued by some earlier submission.
    pub open spec fn issued(&self, id: u64) -> bool {
        (id as int) < self@.len()
    }

    pub fn new() -> (r: TaskRegistry)
        ensures
            r.wf(),
            r@ =~= Seq::<Task>::empty(),
    {
        TaskRegistry { tasks: Vec::new() }
    }

    /// Allocates a fresh id, stores a `Pending` task and returns the id.
    /// The new task is immediately visible to `get_task_status`.
    pub fn submit(
        &mut self,
        kind: TaskKind,
        subject_id: String,
        message: String,
        now: Timestamp,
    ) -> (id: u64)
        requires
            old(self).wf(),
            old(self)@.len() < u64::MAX,
        ensures
            final(self).wf(),
            id == old(self)@.len(),
            final(self).issued(id),
            final(self)@.len() == old(self)@.len() + 1,
            forall|j: int| 0 <= j < old(self)@.len() ==> final(self)@[j] == old(self)@[j],
            final(self)@[id as int] == (Task {
                id,
                kind,
                subject_id,
                status: InstallStatus::Pending,
                progress: 0,
                message,
                created_at: now,
                completed_at: None,
            }),
            terminal_preserved(old(self)@, final(self)@),
            forall|j: int|
                0 <= j < old(self)@.len() ==> lifecycle_step(old(self)@[j], final(self)@[j]),
    {
        let id = self.tasks.len() as u64;
        let task = Task {
            id,
            kind,
            subject_id,
            status: InstallStatus::Pending,
            progress: 0,
            message,
            created_at: now,
            completed_at: None,
        };
        self.tasks.push(task);
        id
    }

    /// Returns the current snapshot of a task, or `None` exactly for the ids
    /// that no submission ever issued. Never blocks on in-progress work.
    pub fn get_task_status(&self, id: u64) -> (r: Option<&Task>)
        ensures
            r is Some <==> self.issued(id),
            r is Some ==> *r->Some_0 == self@[id as int],
    {
        if id < self.tasks.len() as u64 {
            Some(&self.tasks[id as usize])
        } else {
            None
        }
    }

    /// Number of tasks submitted so far; every id below it is issued.
    pub fn task_count(&self) -> (r: u64)
        ensures
            r == self@.len(),
    {
        self.tasks.len() as u64
    }

    /// `Pending -> Installing`. A no-op (returning false) on an unknown id,
    /// on a terminal task, and on a task already past `Pending`.
    pub fn mark_running(&mut self, id: u64) -> (changed: bool)
        requires
            old(self).wf(),
        ensures
            final(self).wf(),
            final(self)@.len() == old(self)@.len(),
            forall|j: int|
                0 <= j < old(self)@.len() && j != id as int ==> final(self)@[j] == old(self)@[j],
            changed <==> old(self).issued(id) && old(self)@[id as int].status
                == InstallStatus::Pending,
            changed ==> final(self)@[id as int] == (Task {
                status: InstallStatus::Installing,
                ..old(self)@[id as int]
            }),
            !changed ==> final(self)@ == old(self)@,
            terminal_preserved(old(self)@, final(self)@),
            forall|j: int|
                0 <= j < old(self)@.len() ==> lifecycle_step(old(self)@[j], final(self)@[j]),
    {
        if id < self.tasks.len() as u64 {
            let i = id as usize;
            if matches!(self.tasks[i].status, InstallStatus::Pending) {
                self.tasks[i].status = InstallStatus::Installing;
                return true;
            }
        }
        false
    }

    /// Progress update while running: accepted only for an `Installing`
    /// task, only up to 100, and only forwards (progress is monotone).
    pub fn update_progress(&mut self, id: u64, progress: u32, message: String) -> (changed: bool)
        requires
            old(self).wf(),
        ensures
            final(self).wf(),
            final(self)@.len() == old(self)@.len(),
            forall|j: int|
                0 <= j < old(self)@.len() && j != id as int ==> final(self)@[j] == old(self)@[j],
            changed <==> old(self).issued(id) && old(self)@[id as int].status
                == InstallStatus::Installing && progress <= 100 && old(self)@[id as int].progress
                <= progress,
            changed ==> final(self)@[id as int] == (Task {
                progress,
                message,
                ..old(self)@[id as int]
            }),
            !changed ==> final(self)@ == old(self)@,
            terminal_preserved(old(self)@, final(self)@),
            forall|j: int|
                0 <= j < old(self)@.len() ==> lifecycle_step(old(self)@[j], final(self)@[j]),
    {
        if id < self.tasks.len() as u64 && progress <= 100 {
            let i = id as usize;
            if matches!(self.tasks[i].status, InstallStatus::Installing)
                && self.tasks[i].progress <= progress {
                self.tasks[i].progress = progress;
                self.tasks[i].message = message;
                return true;
            }
        }
        false
    }

    /// Transition to `Completed`: progress becomes 100 and the completion
    /// time is recorded. A no-op on unknown ids and on terminal tasks.
    pub fn mark_completed(&mut self, id: u64, message: String, now: Timestamp) -> (changed: bool)
        requires
            old(self).wf(),
        ensures
            final(self).wf(),
            final(self)@.len() == old(self)@.len(),
            forall|j: int|
                0 <= j < old(self)@.len() && j != id as int ==> final(self)@[j] == old(self)@[j],
            changed <==> old(self).issued(id)
                && !old(self)@[id as int].status.spec_is_terminal(),
            changed ==> final(self)@[id as int] == (Task {
                status: InstallStatus::Completed,
                progress: 100,
                message,
                completed_at: Some(now),
                ..old(self)@[id as int]
            }),
            !changed ==> final(self)@ == old(self)@,
            terminal_preserved(old(self)@, final(self)@),
            forall|j: int|
                0 <= j < old(self)@.len() ==> lifecycle_step(old(self)@[j], final(self)@[j]),
    {
        if id < self.tasks.len() as u64 {
            let i = id as usize;
            if !self.tasks[i].status.is_terminal() {
                self.tasks[i].status = InstallStatus::Completed;
                self.tasks[i].progress = 100;
                self.tasks[i].message = message;
                self.tasks[i].completed_at = Some(now);
                return true;
            }
        }
        false
    }

    /// Transition to `Failed`, recording the failure message and the
    /// completion time. A no-op on unknown ids and on terminal tasks.
    pub fn mark_failed(&mut self, id: u64, message: String, now: Timestamp) -> (changed: bool)
        requires
            old(self).wf(),
        ensures
            final(self).wf(),
            final(self)@.len() == old(self)@.len(),
            forall|j: int|
                0 <= j < old(self)@.len() && j != id as int ==> final(self)@[j] == old(self)@[j],
            changed <==> old(self).issued(id)
                && !old(self)@[id as int].status.spec_is_terminal(),
            changed ==> final(self)@[id as int] == (Task {
                status: InstallStatus::Failed,
                message,
                completed_at: Some(now),
                ..old(self)@[id as int]
            }),
            !changed ==> final(self)@ == old(self)@,
            terminal_preserved(old(self)@, final(self)@),
            forall|j: int|
                0 <= j < old(self)@.len() ==> lifecycle_step(old(self)@[j], final(self)@[j]),
    {
        if id < self.tasks.len() as u64 {
            let i = id as usize;
            if !self.tasks[i].status.is_terminal() {
                self.tasks[i].status = InstallStatus::Failed;
                self.tasks[i].message = message;
                self.tasks[i].completed_at = Some(now);
                return true;
            }
        }
        false
    }
}

} // verus!
