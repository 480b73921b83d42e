//! The lifecycle of an instance, driven by the phases that job resources report.

use vstd::prelude::*;

use crate::controller::jobs::{JobKind, JobResource};
use crate::controller::state_machine::{status_db_initialized, Action, POLL_NANOS};
use crate::controller::states::steady::{unscaled, web_down, Scaling};
use crate::crd::odoo_backup_job::OdooBackupJob;
use crate::crd::odoo_init_job::OdooInitJob;
use crate::crd::odoo_instance::{OdooInstance, OdooInstancePhase};
use crate::crd::odoo_restore_job::OdooRestoreJob;
use crate::crd::odoo_upgrade_job::OdooUpgradeJob;
use crate::crd::shared::Phase;
use crate::diagram::{diagram_text, edge_views, render, Edge, EdgeView};
use crate::text::texts;

verus! {

// ── Tally of job resources ───────────────────────────────────────────────────

/// What the job resources of one kind come to.
pub struct JobTally {
    /// The phase that counts.
    pub phase: Option<Phase>,
    /// Whether a job is pending or running.
    pub running: bool,
    /// Whether a job has completed that initialises the database.
    pub completed: bool,
    /// The place of the job that is worked on.
    pub active: Option<int>,
}

/// The tally of no jobs.
pub open spec fn no_jobs() -> JobTally {
    JobTally { phase: None, running: false, completed: false, active: None }
}

/// A tally in which the job at a place is worked on, unless another one is.
pub open spec fn with_fallback(t: JobTally, i: int) -> JobTally {
    JobTally {
        active: if t.active is None {
            Some(i)
        } else {
            t.active
        },
        ..t
    }
}

/// A tally with one more job that reports a phase.
///
/// A job that is pending or running counts more than any other; of init jobs the
/// first such one ends the count.  A completed init job counts more than a failed
/// one; else the first end that is seen counts.
pub open spec fn tally_with(kind: JobKind, t: JobTally, i: int, phase: Option<Phase>) -> JobTally {
    if kind == JobKind::Init && t.running {
        t
    } else {
        match phase {
            Some(Phase::Running) | Some(Phase::Pending) => JobTally {
                phase: if kind == JobKind::Backup {
                    None
                } else {
                    Some(Phase::Running)
                },
                running: true,
                completed: t.completed,
                active: Some(i),
            },
            Some(Phase::Completed) => match kind {
                JobKind::Init => JobTally { phase, completed: true, ..t },
                JobKind::Restore => JobTally {
                    phase: if t.phase is None {
                        phase
                    } else {
                        t.phase
                    },
                    completed: true,
                    ..t
                },
                JobKind::Upgrade => if t.phase is None {
                    JobTally { phase, ..t }
                } else {
                    with_fallback(t, i)
                },
                JobKind::Backup => with_fallback(t, i),
            },
            Some(Phase::Failed) => if kind != JobKind::Backup && t.phase is None {
                JobTally { phase, ..t }
            } else {
                with_fallback(t, i)
            },
            None => with_fallback(t, i),
        }
    }
}

/// The tally of the jobs of an instance.
pub open spec fn tally<J: JobResource>(
    kind: JobKind,
    jobs: Seq<J>,
    instance: Seq<char>,
) -> JobTally
    decreases jobs.len(),
{
    if jobs.len() == 0 {
        no_jobs()
    } else {
        let before = tally(kind, jobs.drop_last(), instance);
        if jobs.last().target() == instance {
            tally_with(kind, before, jobs.len() - 1, jobs.last().phase())
        } else {
            before
        }
    }
}

/// The job that a tally works on.
pub open spec fn tally_job<J: JobResource>(t: JobTally, jobs: Seq<J>) -> Option<J> {
    match t.active {
        Some(i) => Some(jobs[i]),
        None => None,
    }
}

/// A tally in the making.
struct Count {
    phase: Option<Phase>,
    running: bool,
    completed: bool,
    active: Option<usize>,
}

impl View for Count {
    type V = JobTally;

    closed spec fn view(&self) -> JobTally {
        JobTally {
            phase: self.phase,
            running: self.running,
            completed: self.completed,
            active: match self.active {
                Some(i) => Some(i as int),
                None => None,
            },
        }
    }
}

fn fall_back(c: Count, i: usize) -> (r: Count)
    ensures
        r@ == with_fallback(c@, i as int),
{
    let active = match c.active {
        Some(k) => Some(k),
        None => Some(i),
    };
    Count { phase: c.phase, running: c.running, completed: c.completed, active }
}

fn count_one(kind: JobKind, c: Count, i: usize, phase: Option<Phase>) -> (r: Count)
    ensures
        r@ == tally_with(kind, c@, i as int, phase),
{
    if kind == JobKind::Init && c.running {
        return c;
    }
    let seen = match phase {
        Some(p) => p,
        None => return fall_back(c, i),
    };
    match seen {
        Phase::Running | Phase::Pending => {
            let phase = if kind == JobKind::Backup {
                None
            } else {
                Some(Phase::Running)
            };
            Count { phase, running: true, completed: c.completed, active: Some(i) }
        },
        Phase::Completed => match kind {
            JobKind::Init => Count {
                phase: Some(seen),
                running: c.running,
                completed: true,
                active: c.active,
            },
            JobKind::Restore => {
                let phase = match c.phase {
                    Some(p) => Some(p),
                    None => Some(seen),
                };
                Count { phase, running: c.running, completed: true, active: c.active }
            },
            JobKind::Upgrade => if c.phase.is_none() {
                Count {
                    phase: Some(seen),
                    running: c.running,
                    completed: c.completed,
                    active: c.active,
                }
            } else {
                fall_back(c, i)
            },
            JobKind::Backup => fall_back(c, i),
        },
        Phase::Failed => if kind != JobKind::Backup && c.phase.is_none() {
            Count {
                phase: Some(seen),
                running: c.running,
                completed: c.completed,
                active: c.active,
            }
        } else {
            fall_back(c, i)
        },
    }
}

/// Counts the jobs of an instance and takes out the one that is worked on.
fn count_jobs<J: JobResource>(kind: JobKind, jobs: Vec<J>, instance_name: &str) -> (r: (
    Count,
    Option<J>,
))
    ensures
        r.0@ == tally(kind, jobs@, instance_name@),
        r.1 == tally_job(tally(kind, jobs@, instance_name@), jobs@),
{
    let mut jobs = jobs;
    let ghost all = jobs@;
    let mut c = Count { phase: None, running: false, completed: false, active: None };
    let mut i: usize = 0;
    assert(all.take(0) =~= Seq::empty());
    while i < jobs.len()
        invariant
            i <= jobs.len(),
            jobs@ == all,
            c@ == tally(kind, all.take(i as int), instance_name@),
            c.active matches Some(k) ==> k < i,
        decreases jobs.len() - i,
    {
        proof {
            let t = all.take(i + 1);
            assert(t.drop_last() =~= all.take(i as int));
            assert(t.last() == all[i as int]);
        }
        if jobs[i].is_for(instance_name) {
            let ghost before = c@;
            c = count_one(kind, c, i, jobs[i].reported_phase());
            assert(c@ == tally_with(kind, before, i as int, all[i as int].phase()));
        }
        i += 1;
    }
    assert(all.take(i as int) =~= all);
    match c.active {
        Some(k) => {
            let job = jobs.swap_remove(k);
            (c, Some(job))
        },
        None => (c, None),
    }
}

// ── Snapshot ─────────────────────────────────────────────────────────────────

/// What was observed of an instance and its jobs.
pub struct ReconcileSnapshot {
    pub ready_replicas: i32,
    pub db_initialized: bool,
    pub init_job_phase: Option<Phase>,
    pub restore_job_phase: Option<Phase>,
    pub upgrade_job_phase: Option<Phase>,
    pub backup_job_active: bool,
    pub restore_job_active: bool,
    pub upgrade_job_active: bool,
    pub active_init_job: Option<OdooInitJob>,
    pub active_restore_job: Option<OdooRestoreJob>,
    pub active_upgrade_job: Option<OdooUpgradeJob>,
    pub active_backup_job: Option<OdooBackupJob>,
}

/// What was read from the cluster for one snapshot.
pub struct Observation {
    /// The ready replicas that the Deployment reports, if it could be read.
    pub ready_replicas: Option<i32>,
    pub init_jobs: Vec<OdooInitJob>,
    pub restore_jobs: Vec<OdooRestoreJob>,
    pub upgrade_jobs: Vec<OdooUpgradeJob>,
    pub backup_jobs: Vec<OdooBackupJob>,
}

impl ReconcileSnapshot {
    /// Makes a snapshot of what was read from the cluster.
    pub fn gather(instance: &OdooInstance, seen: Observation) -> (r: Self)
        ensures
            ({
                let name = instance.metadata.name_text();
                let init = tally(JobKind::Init, seen.init_jobs@, name);
                let restore = tally(JobKind::Restore, seen.restore_jobs@, name);
                let upgrade = tally(JobKind::Upgrade, seen.upgrade_jobs@, name);
                let backup = tally(JobKind::Backup, seen.backup_jobs@, name);
                &&& r.ready_replicas == match seen.ready_replicas {
                    Some(n) => n,
                    None => 0,
                }
                &&& r.db_initialized == (status_db_initialized(*instance) || init.completed
                    || restore.completed)
                &&& r.init_job_phase == init.phase
                &&& r.restore_job_phase == restore.phase
                &&& r.upgrade_job_phase == upgrade.phase
                &&& r.restore_job_active == restore.running
                &&& r.upgrade_job_active == upgrade.running
                &&& r.backup_job_active == backup.running
                &&& r.active_init_job == tally_job(init, seen.init_jobs@)
                &&& r.active_restore_job == tally_job(restore, seen.restore_jobs@)
                &&& r.active_upgrade_job == tally_job(upgrade, seen.upgrade_jobs@)
                &&& r.active_backup_job == tally_job(backup, seen.backup_jobs@)
            }),
    {
        let name = instance.metadata.name_any();
        let initialized_before = match &instance.status {
            Some(s) => s.db_initialized,
            None => false,
        };
        let ready_replicas: i32 = match seen.ready_replicas {
            Some(n) => n,
            None => 0,
        };
        let (init, active_init_job) = count_jobs(JobKind::Init, seen.init_jobs, name.as_str());
        let (restore, active_restore_job) = count_jobs(
            JobKind::Restore,
            seen.restore_jobs,
            name.as_str(),
        );
        let (upgrade, active_upgrade_job) = count_jobs(
            JobKind::Upgrade,
            seen.upgrade_jobs,
            name.as_str(),
        );
        let (backup, active_backup_job) = count_jobs(
            JobKind::Backup,
            seen.backup_jobs,
            name.as_str(),
        );
        ReconcileSnapshot {
            ready_replicas,
            db_initialized: initialized_before || init.completed || restore.completed,
            init_job_phase: init.phase,
            restore_job_phase: restore.phase,
            upgrade_job_phase: upgrade.phase,
            backup_job_active: backup.running,
            restore_job_active: restore.running,
            upgrade_job_active: upgrade.running,
            active_init_job,
            active_restore_job,
            active_upgrade_job,
            active_backup_job,
        }
    }
}

/// A job that is pending or running decides: the phase that counts is that it
/// runs, and it is worked on.
pub proof fn law_running_jobs_count_most<J: JobResource>(
    kind: JobKind,
    jobs: Seq<J>,
    instance: Seq<char>,
)
    ensures
        ({
            let t = tally(kind, jobs, instance);
            &&& t.running == exists|i: int|
                0 <= i < jobs.len() && (#[trigger] jobs[i]).target() == instance && is_running(
                    jobs[i].phase(),
                )
            &&& t.running ==> (kind == JobKind::Backup || t.phase == Some(Phase::Running))
            &&& t.active matches Some(i) ==> 0 <= i < jobs.len() && jobs[i].target() == instance
            &&& t.running ==> (t.active matches Some(i) && is_running(jobs[i].phase()))
        }),
    decreases jobs.len(),
{
    if jobs.len() > 0 {
        let rest = jobs.drop_last();
        law_running_jobs_count_most(kind, rest, instance);
        let before = tally(kind, rest, instance);
        assert forall|i: int| 0 <= i < rest.len() implies jobs[i] == rest[i] by {}
        if before.running {
            let i = choose|i: int|
                0 <= i < rest.len() && (#[trigger] rest[i]).target() == instance && is_running(
                    rest[i].phase(),
                );
            assert(jobs[i].target() == instance && is_running(jobs[i].phase()));
        }
        let last = jobs.len() - 1;
        assert(jobs[last] == jobs.last());
        let t = tally(kind, jobs, instance);
        if t.running && !before.running {
            assert(jobs[last].target() == instance && is_running(jobs[last].phase()));
        }
        if !t.running {
            assert forall|i: int| 0 <= i < jobs.len() && (#[trigger] jobs[i]).target()
                == instance implies !is_running(jobs[i].phase()) by {
                if i < last {
                    assert(rest[i] == jobs[i]);
                }
            }
        }
    }
}

/// Whether a job that reports a phase is pending or running.
pub open spec fn is_running(phase: Option<Phase>) -> bool {
    phase == Some(Phase::Running) || phase == Some(Phase::Pending)
}

// ── Transitions ──────────────────────────────────────────────────────────────

/// A one-shot action that belongs to a transition.
#[derive(Clone, Copy, Debug, PartialEq, Eq, Structural)]
pub enum TransitionAction {
    MarkDbInitialized,
}

/// The condition of a transition.
#[derive(Clone, Copy, Debug, PartialEq, Eq, Structural)]
pub enum Guard {
    DbNotInitialized,
    DbInitialized,
    InitRunning,
    InitCompleted,
    InitFailed,
    RestoreActive,
    RestoreCompleted,
    RestoreFailed,
    UpgradeActive,
    UpgradeEnded,
    BackupActive,
    BackupDoneAndReady,
    NoReplicasDesired,
    ReplicasDesired,
    AllReady,
    EnoughReady,
    PartlyReady,
    LostAll,
    NoneReady,
}

impl Guard {
    /// Whether the condition holds, given how many replicas are desired and what
    /// was observed.
    pub open spec fn holds(self, desired: int, s: ReconcileSnapshot) -> bool {
        match self {
            Guard::DbNotInitialized => !s.db_initialized,
            Guard::DbInitialized => s.db_initialized,
            Guard::InitRunning => s.init_job_phase == Some(Phase::Running),
            Guard::InitCompleted => s.init_job_phase == Some(Phase::Completed),
            Guard::InitFailed => s.init_job_phase == Some(Phase::Failed),
            Guard::RestoreActive => s.restore_job_active,
            Guard::RestoreCompleted => s.restore_job_phase == Some(Phase::Completed),
            Guard::RestoreFailed => s.restore_job_phase == Some(Phase::Failed),
            Guard::UpgradeActive => s.upgrade_job_active,
            Guard::UpgradeEnded => s.upgrade_job_phase == Some(Phase::Completed)
                || s.upgrade_job_phase == Some(Phase::Failed),
            Guard::BackupActive => s.backup_job_active,
            Guard::BackupDoneAndReady => !s.backup_job_active && s.ready_replicas >= desired,
            Guard::NoReplicasDesired => desired == 0,
            Guard::ReplicasDesired => desired > 0,
            Guard::AllReady => s.ready_replicas >= desired && desired > 0,
            Guard::EnoughReady => s.ready_replicas >= desired,
            Guard::PartlyReady => s.ready_replicas < desired && s.ready_replicas > 0,
            Guard::LostAll => s.ready_replicas < desired && s.ready_replicas == 0,
            Guard::NoneReady => s.ready_replicas == 0,
        }
    }

    /// Whether the condition holds.
    pub fn check(&self, instance: &OdooInstance, s: &ReconcileSnapshot) -> (r: bool)
        ensures
            r == self.holds(instance.spec.replicas as int, *s),
    {
        let desired: i32 = instance.spec.replicas;
        match self {
            Guard::DbNotInitialized => !s.db_initialized,
            Guard::DbInitialized => s.db_initialized,
            Guard::InitRunning => matches!(s.init_job_phase, Some(Phase::Running)),
            Guard::InitCompleted => matches!(s.init_job_phase, Some(Phase::Completed)),
            Guard::InitFailed => matches!(s.init_job_phase, Some(Phase::Failed)),
            Guard::RestoreActive => s.restore_job_active,
            Guard::RestoreCompleted => matches!(s.restore_job_phase, Some(Phase::Completed)),
            Guard::RestoreFailed => matches!(s.restore_job_phase, Some(Phase::Failed)),
            Guard::UpgradeActive => s.upgrade_job_active,
            Guard::UpgradeEnded => matches!(
                s.upgrade_job_phase,
                Some(Phase::Completed) | Some(Phase::Failed)
            ),
            Guard::BackupActive => s.backup_job_active,
            Guard::BackupDoneAndReady => !s.backup_job_active && s.ready_replicas >= desired,
            Guard::NoReplicasDesired => desired == 0,
            Guard::ReplicasDesired => desired > 0,
            Guard::AllReady => s.ready_replicas >= desired && desired > 0,
            Guard::EnoughReady => s.ready_replicas >= desired,
            Guard::PartlyReady => s.ready_replicas < desired && s.ready_replicas > 0,
            Guard::LostAll => s.ready_replicas < desired && s.ready_replicas == 0,
            Guard::NoneReady => s.ready_replicas == 0,
        }
    }
}

/// One row of the transition table.
#[derive(Clone, Copy, Debug, PartialEq, Eq, Structural)]
pub struct Transition {
    pub from: OdooInstancePhase,
    pub to: OdooInstancePhase,
    pub guard: Guard,
    pub action: Option<TransitionAction>,
}

/// A row without an action.
pub open spec fn row(from: OdooInstancePhase, to: OdooInstancePhase, guard: Guard) -> Transition {
    Transition { from, to, guard, action: None }
}

/// A row that marks the database as initialised.
pub open spec fn marking(
    from: OdooInstancePhase,
    to: OdooInstancePhase,
    guard: Guard,
) -> Transition {
    Transition { from, to, guard, action: Some(TransitionAction::MarkDbInitialized) }
}

/// The transition table; of the rows for a phase the first one whose condition
/// holds is taken.
pub open spec fn transition_table() -> Seq<Transition> {
    seq![
        row(OdooInstancePhase::Provisioning, OdooInstancePhase::Uninitialized, Guard::DbNotInitialized),
        row(OdooInstancePhase::Provisioning, OdooInstancePhase::Starting, Guard::DbInitialized),
        row(OdooInstancePhase::Uninitialized, OdooInstancePhase::Initializing, Guard::InitRunning),
        row(OdooInstancePhase::Uninitialized, OdooInstancePhase::Restoring, Guard::RestoreActive),
        marking(OdooInstancePhase::Initializing, OdooInstancePhase::Starting, Guard::InitCompleted),
        row(OdooInstancePhase::Initializing, OdooInstancePhase::InitFailed, Guard::InitFailed),
        row(OdooInstancePhase::InitFailed, OdooInstancePhase::Initializing, Guard::InitRunning),
        row(OdooInstancePhase::InitFailed, OdooInstancePhase::Restoring, Guard::RestoreActive),
        row(OdooInstancePhase::Starting, OdooInstancePhase::Stopped, Guard::NoReplicasDesired),
        row(OdooInstancePhase::Starting, OdooInstancePhase::Restoring, Guard::RestoreActive),
        row(OdooInstancePhase::Starting, OdooInstancePhase::Upgrading, Guard::UpgradeActive),
        row(OdooInstancePhase::Starting, OdooInstancePhase::BackingUp, Guard::BackupActive),
        row(OdooInstancePhase::Starting, OdooInstancePhase::Running, Guard::AllReady),
        row(OdooInstancePhase::Running, OdooInstancePhase::Stopped, Guard::NoReplicasDesired),
        row(OdooInstancePhase::Running, OdooInstancePhase::Restoring, Guard::RestoreActive),
        row(OdooInstancePhase::Running, OdooInstancePhase::Upgrading, Guard::UpgradeActive),
        row(OdooInstancePhase::Running, OdooInstancePhase::BackingUp, Guard::BackupActive),
        row(OdooInstancePhase::Running, OdooInstancePhase::Degraded, Guard::PartlyReady),
        row(OdooInstancePhase::Running, OdooInstancePhase::Starting, Guard::LostAll),
        row(OdooInstancePhase::Degraded, OdooInstancePhase::Stopped, Guard::NoReplicasDesired),
        row(OdooInstancePhase::Degraded, OdooInstancePhase::Restoring, Guard::RestoreActive),
        row(OdooInstancePhase::Degraded, OdooInstancePhase::Upgrading, Guard::UpgradeActive),
        row(OdooInstancePhase::Degraded, OdooInstancePhase::BackingUp, Guard::BackupActive),
        row(OdooInstancePhase::Degraded, OdooInstancePhase::Running, Guard::EnoughReady),
        row(OdooInstancePhase::Degraded, OdooInstancePhase::Starting, Guard::NoneReady),
        row(OdooInstancePhase::BackingUp, OdooInstancePhase::Stopped, Guard::NoReplicasDesired),
        row(OdooInstancePhase::BackingUp, OdooInstancePhase::Running, Guard::BackupDoneAndReady),
        row(OdooInstancePhase::BackingUp, OdooInstancePhase::Degraded, Guard::PartlyReady),
        row(OdooInstancePhase::BackingUp, OdooInstancePhase::Starting, Guard::LostAll),
        row(OdooInstancePhase::Upgrading, OdooInstancePhase::Starting, Guard::UpgradeEnded),
        marking(OdooInstancePhase::Restoring, OdooInstancePhase::Starting, Guard::RestoreCompleted),
        row(OdooInstancePhase::Restoring, OdooInstancePhase::Starting, Guard::RestoreFailed),
        row(OdooInstancePhase::Stopped, OdooInstancePhase::Restoring, Guard::RestoreActive),
        row(OdooInstancePhase::Stopped, OdooInstancePhase::Upgrading, Guard::UpgradeActive),
        row(OdooInstancePhase::Stopped, OdooInstancePhase::Starting, Guard::ReplicasDesired),
        row(OdooInstancePhase::Error, OdooInstancePhase::Starting, Guard::DbInitialized),
        row(OdooInstancePhase::Error, OdooInstancePhase::Uninitialized, Guard::DbNotInitialized),
    ]
}

fn plain(from: OdooInstancePhase, to: OdooInstancePhase, guard: Guard) -> (r: Transition)
    ensures
        r == row(from, to, guard),
{
    Transition { from, to, guard, action: None }
}

fn with_mark(from: OdooInstancePhase, to: OdooInstancePhase, guard: Guard) -> (r: Transition)
    ensures
        r == marking(from, to, guard),
{
    Transition { from, to, guard, action: Some(TransitionAction::MarkDbInitialized) }
}

/// The transition table.
pub fn transitions() -> (r: Vec<Transition>)
    ensures
        r@ == transition_table(),
{
    let r = vec![
        plain(OdooInstancePhase::Provisioning, OdooInstancePhase::Uninitialized, Guard::DbNotInitialized),
        plain(OdooInstancePhase::Provisioning, OdooInstancePhase::Starting, Guard::DbInitialized),
        plain(OdooInstancePhase::Uninitialized, OdooInstancePhase::Initializing, Guard::InitRunning),
        plain(OdooInstancePhase::Uninitialized, OdooInstancePhase::Restoring, Guard::RestoreActive),
        with_mark(OdooInstancePhase::Initializing, OdooInstancePhase::Starting, Guard::InitCompleted),
        plain(OdooInstancePhase::Initializing, OdooInstancePhase::InitFailed, Guard::InitFailed),
        plain(OdooInstancePhase::InitFailed, OdooInstancePhase::Initializing, Guard::InitRunning),
        plain(OdooInstancePhase::InitFailed, OdooInstancePhase::Restoring, Guard::RestoreActive),
        plain(OdooInstancePhase::Starting, OdooInstancePhase::Stopped, Guard::NoReplicasDesired),
        plain(OdooInstancePhase::Starting, OdooInstancePhase::Restoring, Guard::RestoreActive),
        plain(OdooInstancePhase::Starting, OdooInstancePhase::Upgrading, Guard::UpgradeActive),
        plain(OdooInstancePhase::Starting, OdooInstancePhase::BackingUp, Guard::BackupActive),
        plain(OdooInstancePhase::Starting, OdooInstancePhase::Running, Guard::AllReady),
        plain(OdooInstancePhase::Running, OdooInstancePhase::Stopped, Guard::NoReplicasDesired),
        plain(OdooInstancePhase::Running, OdooInstancePhase::Restoring, Guard::RestoreActive),
        plain(OdooInstancePhase::Running, OdooInstancePhase::Upgrading, Guard::UpgradeActive),
        plain(OdooInstancePhase::Running, OdooInstancePhase::BackingUp, Guard::BackupActive),
        plain(OdooInstancePhase::Running, OdooInstancePhase::Degraded, Guard::PartlyReady),
        plain(OdooInstancePhase::Running, OdooInstancePhase::Starting, Guard::LostAll),
        plain(OdooInstancePhase::Degraded, OdooInstancePhase::Stopped, Guard::NoReplicasDesired),
        plain(OdooInstancePhase::Degraded, OdooInstancePhase::Restoring, Guard::RestoreActive),
        plain(OdooInstancePhase::Degraded, OdooInstancePhase::Upgrading, Guard::UpgradeActive),
        plain(OdooInstancePhase::Degraded, OdooInstancePhase::BackingUp, Guard::BackupActive),
        plain(OdooInstancePhase::Degraded, OdooInstancePhase::Running, Guard::EnoughReady),
        plain(OdooInstancePhase::Degraded, OdooInstancePhase::Starting, Guard::NoneReady),
        plain(OdooInstancePhase::BackingUp, OdooInstancePhase::Stopped, Guard::NoReplicasDesired),
        plain(OdooInstancePhase::BackingUp, OdooInstancePhase::Running, Guard::BackupDoneAndReady),
        plain(OdooInstancePhase::BackingUp, OdooInstancePhase::Degraded, Guard::PartlyReady),
        plain(OdooInstancePhase::BackingUp, OdooInstancePhase::Starting, Guard::LostAll),
        plain(OdooInstancePhase::Upgrading, OdooInstancePhase::Starting, Guard::UpgradeEnded),
        with_mark(OdooInstancePhase::Restoring, OdooInstancePhase::Starting, Guard::RestoreCompleted),
        plain(OdooInstancePhase::Restoring, OdooInstancePhase::Starting, Guard::RestoreFailed),
        plain(OdooInstancePhase::Stopped, OdooInstancePhase::Restoring, Guard::RestoreActive),
        plain(OdooInstancePhase::Stopped, OdooInstancePhase::Upgrading, Guard::UpgradeActive),
        plain(OdooInstancePhase::Stopped, OdooInstancePhase::Starting, Guard::ReplicasDesired),
        plain(OdooInstancePhase::Error, OdooInstancePhase::Starting, Guard::DbInitialized),
        plain(OdooInstancePhase::Error, OdooInstancePhase::Uninitialized, Guard::DbNotInitialized),
    ];
    assert(r@ =~= transition_table());
    r
}

/// The first row of a table for a phase whose condition holds.
pub open spec fn first_enabled(
    table: Seq<Transition>,
    from: OdooInstancePhase,
    desired: int,
    s: ReconcileSnapshot,
) -> Option<Transition>
    decreases table.len(),
{
    if table.len() == 0 {
        None
    } else if table[0].from == from && table[0].guard.holds(desired, s) {
        Some(table[0])
    } else {
        first_enabled(table.skip(1), from, desired, s)
    }
}

/// The transition out of a phase.
pub fn first_transition(
    from: OdooInstancePhase,
    instance: &OdooInstance,
    snapshot: &ReconcileSnapshot,
) -> (r: Option<Transition>)
    ensures
        r == first_enabled(
            transition_table(),
            from,
            instance.spec.replicas as int,
            *snapshot,
        ),
{
    let table = transitions();
    let ghost desired = instance.spec.replicas as int;
    let mut i: usize = 0;
    assert(table@.skip(0) =~= table@);
    while i < table.len()
        invariant
            i <= table.len(),
            table@ == transition_table(),
            desired == instance.spec.replicas,
            first_enabled(transition_table(), from, desired, *snapshot) == first_enabled(
                table@.skip(i as int),
                from,
                desired,
                *snapshot,
            ),
        decreases table.len() - i,
    {
        let t = table[i];
        assert(table@.skip(i as int)[0] == t);
        if t.from == from && t.guard.check(instance, snapshot) {
            return Some(t);
        }
        assert(table@.skip(i as int).skip(1) =~= table@.skip(i + 1));
        i += 1;
    }
    None
}

/// When to look at an instance again that stays in its phase.
pub open spec fn requeue_plan(phase: OdooInstancePhase) -> Action {
    match phase {
        OdooInstancePhase::Starting => Action::RequeueAfter { nanos: POLL_NANOS },
        OdooInstancePhase::Initializing => Action::RequeueAfter { nanos: POLL_NANOS },
        OdooInstancePhase::Restoring => Action::RequeueAfter { nanos: POLL_NANOS },
        OdooInstancePhase::Upgrading => Action::RequeueAfter { nanos: POLL_NANOS },
        OdooInstancePhase::BackingUp => Action::RequeueAfter { nanos: POLL_NANOS },
        OdooInstancePhase::Degraded => Action::RequeueAfter { nanos: POLL_NANOS },
        _ => Action::AwaitChange,
    }
}

/// When to look at an instance again that stays in its phase.
pub fn requeue_for(phase: OdooInstancePhase) -> (r: Action)
    ensures
        r == requeue_plan(phase),
{
    match phase {
        OdooInstancePhase::Starting | OdooInstancePhase::Initializing
        | OdooInstancePhase::Restoring | OdooInstancePhase::Upgrading
        | OdooInstancePhase::BackingUp | OdooInstancePhase::Degraded => Action::RequeueAfter {
            nanos: POLL_NANOS,
        },
        _ => Action::AwaitChange,
    }
}

/// What one cycle of the state machine comes to: the transition to take, and when
/// to look again.
#[derive(Clone, Copy, Debug, PartialEq, Eq, Structural)]
pub struct Step {
    pub transition: Option<Transition>,
    pub action: Action,
}

/// Runs one cycle of the state machine.
pub fn run_state_machine(instance: &OdooInstance, snapshot: &ReconcileSnapshot) -> (r: Step)
    ensures
        r.transition == first_enabled(
            transition_table(),
            instance.phase(),
            instance.spec.replicas as int,
            *snapshot,
        ),
        r.action == if r.transition is Some {
            Action::RequeueAfter { nanos: 0 }
        } else {
            requeue_plan(instance.phase())
        },
{
    let phase = instance.current_phase();
    match first_transition(phase, instance, snapshot) {
        Some(t) => Step { transition: Some(t), action: Action::RequeueAfter { nanos: 0 } },
        None => Step { transition: None, action: requeue_for(phase) },
    }
}

/// The replica counts that a phase is entered with: an instance that starts gets
/// what the spec asks for, one that a job works on alone or that stays down gets
/// none, and every other one is left alone.
pub open spec fn entry_scaling(phase: OdooInstancePhase, instance: OdooInstance) -> Scaling {
    match phase {
        OdooInstancePhase::Starting => Scaling { web: Some(instance.spec.replicas), cron: None },
        OdooInstancePhase::Stopped => web_down(),
        OdooInstancePhase::InitFailed => web_down(),
        OdooInstancePhase::Initializing => web_down(),
        OdooInstancePhase::Restoring => web_down(),
        OdooInstancePhase::Upgrading => web_down(),
        _ => unscaled(),
    }
}

/// The replica counts that a phase is entered with.
pub fn entered(phase: OdooInstancePhase, instance: &OdooInstance) -> (r: Scaling)
    ensures
        r == entry_scaling(phase, *instance),
{
    match phase {
        OdooInstancePhase::Starting => Scaling { web: Some(instance.spec.replicas), cron: None },
        OdooInstancePhase::Stopped | OdooInstancePhase::InitFailed
        | OdooInstancePhase::Initializing | OdooInstancePhase::Restoring
        | OdooInstancePhase::Upgrading => Scaling { web: Some(0), cron: None },
        _ => Scaling { web: None, cron: None },
    }
}

/// A stage of one cycle: what is due.
#[derive(Clone, Copy, Debug, PartialEq, Eq, Structural)]
pub enum CycleStage {
    /// Write to the status that the database is initialised.
    MarkDbInitialized,
    /// Write the phase that the transition leads to.
    WritePhase,
    /// Set the replica counts that the phase is entered with.
    EnterPhase,
    /// The cycle is over.
    Finished,
    /// Something failed: the cycle ends here.
    Failed,
}

/// Where a cycle starts: at the action of the transition, if it has one.
pub open spec fn cycle_start(transition: Option<Transition>) -> CycleStage {
    match transition {
        None => CycleStage::Finished,
        Some(t) => if t.action is Some {
            CycleStage::MarkDbInitialized
        } else {
            CycleStage::WritePhase
        },
    }
}

/// The stage that follows; nothing follows a failure.
pub open spec fn cycle_after(stage: CycleStage, done: bool) -> CycleStage {
    match stage {
        CycleStage::Finished => CycleStage::Finished,
        CycleStage::Failed => CycleStage::Failed,
        _ => if !done {
            CycleStage::Failed
        } else {
            match stage {
                CycleStage::MarkDbInitialized => CycleStage::WritePhase,
                CycleStage::WritePhase => CycleStage::EnterPhase,
                _ => CycleStage::Finished,
            }
        },
    }
}

/// Starts a cycle.
pub fn start_cycle(transition: &Option<Transition>) -> (r: CycleStage)
    ensures
        r == cycle_start(*transition),
{
    match transition {
        None => CycleStage::Finished,
        Some(t) => if t.action.is_some() {
            CycleStage::MarkDbInitialized
        } else {
            CycleStage::WritePhase
        },
    }
}

/// Goes on to the stage that follows.
pub fn advance_cycle(stage: CycleStage, done: bool) -> (r: CycleStage)
    ensures
        r == cycle_after(stage, done),
{
    match stage {
        CycleStage::Finished => CycleStage::Finished,
        CycleStage::Failed => CycleStage::Failed,
        CycleStage::MarkDbInitialized => if done {
            CycleStage::WritePhase
        } else {
            CycleStage::Failed
        },
        CycleStage::WritePhase => if done {
            CycleStage::EnterPhase
        } else {
            CycleStage::Failed
        },
        CycleStage::EnterPhase => if done {
            CycleStage::Finished
        } else {
            CycleStage::Failed
        },
    }
}

// ── Laws ─────────────────────────────────────────────────────────────────────

/// The row that is taken is in the table, is for the phase, and its condition
/// holds; where none is taken no condition for the phase holds.
pub proof fn law_taken_rows_are_enabled(
    table: Seq<Transition>,
    from: OdooInstancePhase,
    desired: int,
    s: ReconcileSnapshot,
)
    ensures
        match first_enabled(table, from, desired, s) {
            Some(t) => table.contains(t) && t.from == from && t.guard.holds(desired, s),
            None => forall|i: int|
                0 <= i < table.len() && (#[trigger] table[i]).from == from
                    ==> !table[i].guard.holds(desired, s),
        },
    decreases table.len(),
{
    if table.len() > 0 {
        let rest = table.skip(1);
        law_taken_rows_are_enabled(rest, from, desired, s);
        assert forall|i: int| 0 < i < table.len() implies table[i] == rest[i - 1] by {}
        match first_enabled(table, from, desired, s) {
            Some(t) => {
                if !(table[0].from == from && table[0].guard.holds(desired, s)) {
                    let i = choose|i: int| 0 <= i < rest.len() && rest[i] == t;
                    assert(table[i + 1] == t);
                } else {
                    assert(table[0] == t);
                }
            },
            None => {
                assert forall|i: int|
                    0 <= i < table.len() && (#[trigger] table[i]).from
                        == from implies !table[i].guard.holds(desired, s) by {
                    if i > 0 {
                        assert(rest[i - 1] == table[i]);
                    }
                }
            },
        }
    }
}

/// Every row leads to another phase, and the database is marked as initialised
/// only when an init job or a restore job has completed.
pub proof fn law_rows_lead_on(i: int)
    requires
        0 <= i < transition_table().len(),
    ensures
        transition_table()[i].from != transition_table()[i].to,
        transition_table()[i].action is Some ==> transition_table()[i].guard
            == Guard::InitCompleted || transition_table()[i].guard == Guard::RestoreCompleted,
{
}

// ── What the phases are for ──────────────────────────────────────────────────

/// Whether a cycle takes an instance to a phase at once, and marks its database as
/// initialised on the way or does not.
pub open spec fn goes_to(r: Step, to: OdooInstancePhase, marks: bool) -> bool {
    &&& r.transition matches Some(t)
    &&& t.to == to
    &&& (t.action == Some(TransitionAction::MarkDbInitialized)) == marks
    &&& r.action == (Action::RequeueAfter { nanos: 0 })
}

proof fn lemma_taken(from: OdooInstancePhase, desired: int, s: ReconcileSnapshot, i: int)
    requires
        0 <= i < transition_table().len(),
        transition_table()[i].from == from,
        transition_table()[i].guard.holds(desired, s),
        forall|j: int|
            0 <= j < i && (#[trigger] transition_table()[j]).from == from
                ==> !transition_table()[j].guard.holds(desired, s),
    ensures
        first_enabled(transition_table(), from, desired, s) == Some(transition_table()[i]),
{
    lemma_first_of(transition_table(), from, desired, s, i);
}

proof fn lemma_first_of(
    table: Seq<Transition>,
    from: OdooInstancePhase,
    desired: int,
    s: ReconcileSnapshot,
    i: int,
)
    requires
        0 <= i < table.len(),
        table[i].from == from,
        table[i].guard.holds(desired, s),
        forall|j: int|
            0 <= j < i && (#[trigger] table[j]).from == from ==> !table[j].guard.holds(desired, s),
    ensures
        first_enabled(table, from, desired, s) == Some(table[i]),
    decreases table.len(),
{
    if i > 0 {
        let rest = table.skip(1);
        assert(rest[i - 1] == table[i]);
        assert forall|j: int| 0 <= j < i - 1 && (#[trigger] rest[j]).from == from implies !rest[j]
            .guard.holds(desired, s) by {
            assert(rest[j] == table[j + 1]);
        }
        lemma_first_of(rest, from, desired, s, i - 1);
        assert(!(table[0].from == from && table[0].guard.holds(desired, s)));
    }
}

/// An instance that is new, or was in error, starts if it has a database and waits for one
/// if it has none.
pub proof fn law_the_database_decides_the_entry(instance: &OdooInstance, s: &ReconcileSnapshot, r: Step)
    requires
        call_ensures(run_state_machine, (instance, s), r),
        instance.phase() == OdooInstancePhase::Provisioning || instance.phase() == OdooInstancePhase::Error,
    ensures
        if s.db_initialized {
            goes_to(r, OdooInstancePhase::Starting, false)
        } else {
            goes_to(r, OdooInstancePhase::Uninitialized, false)
        },
{
    let desired = instance.spec.replicas as int;
    let from = instance.phase();
    if s.db_initialized {
        if from == OdooInstancePhase::Provisioning {
            lemma_taken(from, desired, *s, 1);
        } else {
            lemma_taken(from, desired, *s, 35);
        }
    } else {
        if from == OdooInstancePhase::Provisioning {
            lemma_taken(from, desired, *s, 0);
        } else {
            lemma_taken(from, desired, *s, 36);
        }
    }
}

/// An instance without a database waits for an init job or a restore job, in this order,
/// and for nothing else.
pub proof fn law_databases_come_from_jobs(instance: &OdooInstance, s: &ReconcileSnapshot, r: Step)
    requires
        call_ensures(run_state_machine, (instance, s), r),
        instance.phase() == OdooInstancePhase::Uninitialized || instance.phase() == OdooInstancePhase::InitFailed,
    ensures
        if s.init_job_phase == Some(Phase::Running) {
            goes_to(r, OdooInstancePhase::Initializing, false)
        } else if s.restore_job_active {
            goes_to(r, OdooInstancePhase::Restoring, false)
        } else {
            r.transition is None
        },
{
    let desired = instance.spec.replicas as int;
    let from = instance.phase();
    if s.init_job_phase == Some(Phase::Running) {
        if from == OdooInstancePhase::Uninitialized {
            lemma_taken(from, desired, *s, 2);
        } else {
            lemma_taken(from, desired, *s, 6);
        }
    } else if s.restore_job_active {
        if from == OdooInstancePhase::Uninitialized {
            lemma_taken(from, desired, *s, 3);
        } else {
            lemma_taken(from, desired, *s, 7);
        }
    } else {
        law_taken_rows_are_enabled(transition_table(), from, desired, *s);
    }
}

/// An init job that completes leaves a database behind, with which the instance starts;
/// one that fails leaves none.
pub proof fn law_init_jobs_end_as_they_went(instance: &OdooInstance, s: &ReconcileSnapshot, r: Step)
    requires
        call_ensures(run_state_machine, (instance, s), r),
        instance.phase() == OdooInstancePhase::Initializing,
    ensures
        if s.init_job_phase == Some(Phase::Completed) {
            goes_to(r, OdooInstancePhase::Starting, true)
        } else if s.init_job_phase == Some(Phase::Failed) {
            goes_to(r, OdooInstancePhase::InitFailed, false)
        } else {
            r.transition is None
        },
{
    let desired = instance.spec.replicas as int;
    let from = instance.phase();
    if s.init_job_phase == Some(Phase::Completed) {
        lemma_taken(from, desired, *s, 4);
    } else if s.init_job_phase == Some(Phase::Failed) {
        lemma_taken(from, desired, *s, 5);
    } else {
        law_taken_rows_are_enabled(transition_table(), from, desired, *s);
    }
}

/// The instance starts after a restore job, however that went; only a completed one counts
/// as having brought a database.
pub proof fn law_restore_jobs_end_as_they_went(instance: &OdooInstance, s: &ReconcileSnapshot, r: Step)
    requires
        call_ensures(run_state_machine, (instance, s), r),
        instance.phase() == OdooInstancePhase::Restoring,
    ensures
        if s.restore_job_phase == Some(Phase::Completed) {
            goes_to(r, OdooInstancePhase::Starting, true)
        } else if s.restore_job_phase == Some(Phase::Failed) {
            goes_to(r, OdooInstancePhase::Starting, false)
        } else {
            r.transition is None
        },
{
    let desired = instance.spec.replicas as int;
    let from = instance.phase();
    if s.restore_job_phase == Some(Phase::Completed) {
        lemma_taken(from, desired, *s, 30);
    } else if s.restore_job_phase == Some(Phase::Failed) {
        lemma_taken(from, desired, *s, 31);
    } else {
        law_taken_rows_are_enabled(transition_table(), from, desired, *s);
    }
}

/// The instance starts after an upgrade job, however that went.
pub proof fn law_upgrade_jobs_end(instance: &OdooInstance, s: &ReconcileSnapshot, r: Step)
    requires
        call_ensures(run_state_machine, (instance, s), r),
        instance.phase() == OdooInstancePhase::Upgrading,
    ensures
        if s.upgrade_job_phase == Some(Phase::Completed) || s.upgrade_job_phase == Some(
        Phase::Failed,
    ) {
            goes_to(r, OdooInstancePhase::Starting, false)
        } else {
            r.transition is None
        },
{
    let desired = instance.spec.replicas as int;
    let from = instance.phase();
    if s.upgrade_job_phase == Some(Phase::Completed) || s.upgrade_job_phase == Some(
        Phase::Failed,
    ) {
        lemma_taken(from, desired, *s, 29);
    } else {
        law_taken_rows_are_enabled(transition_table(), from, desired, *s);
    }
}

/// An instance that starts, runs or is degraded stops where no replicas are desired; else
/// it turns to a restore job first, then to an upgrade job, then to a backup job.
pub proof fn law_jobs_are_taken_up(instance: &OdooInstance, s: &ReconcileSnapshot, r: Step)
    requires
        call_ensures(run_state_machine, (instance, s), r),
        instance.phase() == OdooInstancePhase::Starting || instance.phase() == OdooInstancePhase::Running || instance.phase() == OdooInstancePhase::Degraded,
        instance.spec.replicas == 0 || s.restore_job_active || s.upgrade_job_active
            || s.backup_job_active,
    ensures
        if instance.spec.replicas == 0 {
            goes_to(r, OdooInstancePhase::Stopped, false)
        } else if s.restore_job_active {
            goes_to(r, OdooInstancePhase::Restoring, false)
        } else if s.upgrade_job_active {
            goes_to(r, OdooInstancePhase::Upgrading, false)
        } else {
            goes_to(r, OdooInstancePhase::BackingUp, false)
        },
{
    let desired = instance.spec.replicas as int;
    let from = instance.phase();
    if instance.spec.replicas == 0 {
        if from == OdooInstancePhase::Starting {
            lemma_taken(from, desired, *s, 8);
        } else if from == OdooInstancePhase::Running {
            lemma_taken(from, desired, *s, 13);
        } else {
            lemma_taken(from, desired, *s, 19);
        }
    } else if s.restore_job_active {
        if from == OdooInstancePhase::Starting {
            lemma_taken(from, desired, *s, 9);
        } else if from == OdooInstancePhase::Running {
            lemma_taken(from, desired, *s, 14);
        } else {
            lemma_taken(from, desired, *s, 20);
        }
    } else if s.upgrade_job_active {
        if from == OdooInstancePhase::Starting {
            lemma_taken(from, desired, *s, 10);
        } else if from == OdooInstancePhase::Running {
            lemma_taken(from, desired, *s, 15);
        } else {
            lemma_taken(from, desired, *s, 21);
        }
    } else {
        if from == OdooInstancePhase::Starting {
            lemma_taken(from, desired, *s, 11);
        } else if from == OdooInstancePhase::Running {
            lemma_taken(from, desired, *s, 16);
        } else {
            lemma_taken(from, desired, *s, 22);
        }
    }
}

/// Without a job an instance that starts runs once all replicas are ready.
pub proof fn law_started_instances_run(instance: &OdooInstance, s: &ReconcileSnapshot, r: Step)
    requires
        call_ensures(run_state_machine, (instance, s), r),
        instance.phase() == OdooInstancePhase::Starting,
        instance.spec.replicas > 0,
        s.ready_replicas >= 0,
        !s.restore_job_active,
        !s.upgrade_job_active,
        !s.backup_job_active,
    ensures
        if s.ready_replicas >= instance.spec.replicas {
            goes_to(r, OdooInstancePhase::Running, false)
        } else {
            r.transition is None
        },
{
    let desired = instance.spec.replicas as int;
    let from = instance.phase();
    if s.ready_replicas >= instance.spec.replicas {
        lemma_taken(from, desired, *s, 12);
    } else {
        law_taken_rows_are_enabled(transition_table(), from, desired, *s);
    }
}

/// Without a job an instance that runs is degraded when it loses some of its replicas, and
/// starts anew when it loses all of them.
pub proof fn law_running_instances_may_degrade(instance: &OdooInstance, s: &ReconcileSnapshot, r: Step)
    requires
        call_ensures(run_state_machine, (instance, s), r),
        instance.phase() == OdooInstancePhase::Running,
        instance.spec.replicas > 0,
        s.ready_replicas >= 0,
        !s.restore_job_active,
        !s.upgrade_job_active,
        !s.backup_job_active,
    ensures
        if 0 < s.ready_replicas < instance.spec.replicas {
            goes_to(r, OdooInstancePhase::Degraded, false)
        } else if s.ready_replicas == 0 {
            goes_to(r, OdooInstancePhase::Starting, false)
        } else {
            r.transition is None
        },
{
    let desired = instance.spec.replicas as int;
    let from = instance.phase();
    if 0 < s.ready_replicas < instance.spec.replicas {
        lemma_taken(from, desired, *s, 17);
    } else if s.ready_replicas == 0 {
        lemma_taken(from, desired, *s, 18);
    } else {
        law_taken_rows_are_enabled(transition_table(), from, desired, *s);
    }
}

/// Without a job a degraded instance runs once all replicas are ready, and starts anew
/// when it loses all of them.
pub proof fn law_degraded_instances_recover(instance: &OdooInstance, s: &ReconcileSnapshot, r: Step)
    requires
        call_ensures(run_state_machine, (instance, s), r),
        instance.phase() == OdooInstancePhase::Degraded,
        instance.spec.replicas > 0,
        s.ready_replicas >= 0,
        !s.restore_job_active,
        !s.upgrade_job_active,
        !s.backup_job_active,
    ensures
        if s.ready_replicas >= instance.spec.replicas {
            goes_to(r, OdooInstancePhase::Running, false)
        } else if s.ready_replicas == 0 {
            goes_to(r, OdooInstancePhase::Starting, false)
        } else {
            r.transition is None
        },
{
    let desired = instance.spec.replicas as int;
    let from = instance.phase();
    if s.ready_replicas >= instance.spec.replicas {
        lemma_taken(from, desired, *s, 23);
    } else if s.ready_replicas == 0 {
        lemma_taken(from, desired, *s, 24);
    } else {
        law_taken_rows_are_enabled(transition_table(), from, desired, *s);
    }
}

/// An instance that is backed up serves on: it stops where no replicas are desired, loses
/// its state with its replicas, and runs again when the backup is over.
pub proof fn law_backups_leave_the_instance_up(instance: &OdooInstance, s: &ReconcileSnapshot, r: Step)
    requires
        call_ensures(run_state_machine, (instance, s), r),
        instance.phase() == OdooInstancePhase::BackingUp,
        s.ready_replicas >= 0,
    ensures
        if instance.spec.replicas == 0 {
            goes_to(r, OdooInstancePhase::Stopped, false)
        } else if !s.backup_job_active && s.ready_replicas >= instance.spec.replicas {
            goes_to(r, OdooInstancePhase::Running, false)
        } else if 0 < s.ready_replicas < instance.spec.replicas {
            goes_to(r, OdooInstancePhase::Degraded, false)
        } else if s.ready_replicas == 0 && instance.spec.replicas > 0 {
            goes_to(r, OdooInstancePhase::Starting, false)
        } else {
            r.transition is None
        },
{
    let desired = instance.spec.replicas as int;
    let from = instance.phase();
    if instance.spec.replicas == 0 {
        lemma_taken(from, desired, *s, 25);
    } else if !s.backup_job_active && s.ready_replicas >= instance.spec.replicas {
        lemma_taken(from, desired, *s, 26);
    } else if 0 < s.ready_replicas < instance.spec.replicas {
        lemma_taken(from, desired, *s, 27);
    } else if s.ready_replicas == 0 && instance.spec.replicas > 0 {
        lemma_taken(from, desired, *s, 28);
    } else {
        law_taken_rows_are_enabled(transition_table(), from, desired, *s);
    }
}

/// A stopped instance turns to restore and upgrade jobs, leaves backup jobs alone, and
/// starts when replicas are desired again.
pub proof fn law_stopped_instances_take_up_jobs(instance: &OdooInstance, s: &ReconcileSnapshot, r: Step)
    requires
        call_ensures(run_state_machine, (instance, s), r),
        instance.phase() == OdooInstancePhase::Stopped,
    ensures
        if s.restore_job_active {
            goes_to(r, OdooInstancePhase::Restoring, false)
        } else if s.upgrade_job_active {
            goes_to(r, OdooInstancePhase::Upgrading, false)
        } else if instance.spec.replicas > 0 {
            goes_to(r, OdooInstancePhase::Starting, false)
        } else {
            r.transition is None
        },
{
    let desired = instance.spec.replicas as int;
    let from = instance.phase();
    if s.restore_job_active {
        lemma_taken(from, desired, *s, 32);
    } else if s.upgrade_job_active {
        lemma_taken(from, desired, *s, 33);
    } else if instance.spec.replicas > 0 {
        lemma_taken(from, desired, *s, 34);
    } else {
        law_taken_rows_are_enabled(transition_table(), from, desired, *s);
    }
}

/// An instance that stays in its phase is looked at again while something is under way
/// that nobody announces.
pub proof fn law_busy_phases_are_polled(instance: &OdooInstance, s: &ReconcileSnapshot, r: Step)
    requires
        call_ensures(run_state_machine, (instance, s), r),
        r.transition is None,
    ensures
        r.action == match instance.phase() {
            OdooInstancePhase::Starting | OdooInstancePhase::Initializing
            | OdooInstancePhase::Restoring | OdooInstancePhase::Upgrading
            | OdooInstancePhase::BackingUp | OdooInstancePhase::Degraded => (
            Action::RequeueAfter { nanos: 10_000_000_000 }),
            _ => Action::AwaitChange,
        },
{
}

/// An instance that starts gets the replicas that are desired; one that a job works on
/// alone, or that is down, gets none; the others keep what they have.
pub proof fn law_phases_are_entered_with_their_replicas(
    phase: OdooInstancePhase,
    instance: &OdooInstance,
    r: Scaling,
)
    requires
        call_ensures(entered, (phase, instance), r),
    ensures
        r.cron is None,
        phase == OdooInstancePhase::Starting ==> r.web == Some(instance.spec.replicas),
        r.web == Some(0i32) <==> phase == OdooInstancePhase::Stopped || phase
            == OdooInstancePhase::InitFailed || phase == OdooInstancePhase::Initializing || phase
            == OdooInstancePhase::Restoring || phase == OdooInstancePhase::Upgrading || (phase
            == OdooInstancePhase::Starting && instance.spec.replicas == 0),
        r.web is None <==> phase == OdooInstancePhase::Provisioning || phase
            == OdooInstancePhase::Uninitialized || phase == OdooInstancePhase::Running || phase
            == OdooInstancePhase::Degraded || phase == OdooInstancePhase::BackingUp || phase
            == OdooInstancePhase::Error || phase == OdooInstancePhase::MigratingFilestore,
{
}

/// A cycle without a transition is over; one with a transition marks the database if
/// that belongs to it, writes the phase and enters it, in this order, and a failure ends
/// it at once.
pub proof fn law_cycles_reach_their_end(transition: &Option<Transition>, start: CycleStage)
    requires
        call_ensures(start_cycle, (transition,), start),
    ensures
        *transition is None ==> start == CycleStage::Finished,
        *transition matches Some(t) ==> start == if t.action is Some {
            CycleStage::MarkDbInitialized
        } else {
            CycleStage::WritePhase
        },
        forall|r: CycleStage|
            call_ensures(advance_cycle, (CycleStage::MarkDbInitialized, true), r) ==> r
                == CycleStage::WritePhase,
        forall|r: CycleStage|
            call_ensures(advance_cycle, (CycleStage::WritePhase, true), r) ==> r
                == CycleStage::EnterPhase,
        forall|r: CycleStage|
            call_ensures(advance_cycle, (CycleStage::EnterPhase, true), r) ==> r
                == CycleStage::Finished,
        forall|stage: CycleStage, r: CycleStage| #[trigger]
            call_ensures(advance_cycle, (stage, false), r) ==> r == if stage
                == CycleStage::Finished {
                CycleStage::Finished
            } else {
                CycleStage::Failed
            },
{
}

/// Whether a job of an instance reports a phase.
pub open spec fn reports<J: JobResource>(jobs: Seq<J>, instance: Seq<char>, p: Phase) -> bool {
    exists|i: int|
        0 <= i < jobs.len() && (#[trigger] jobs[i]).target() == instance && jobs[i].phase()
            == Some(p)
}

/// Whether the first job of an instance that came to an end did so with a phase.
pub open spec fn first_ended_with<J: JobResource>(
    jobs: Seq<J>,
    instance: Seq<char>,
    p: Phase,
) -> bool {
    exists|i: int| #[trigger] ended_first_at(jobs, instance, p, i)
}

/// Whether the job at a place is the first one of an instance that came to an end, and
/// did so with a phase.
pub open spec fn ended_first_at<J: JobResource>(
    jobs: Seq<J>,
    instance: Seq<char>,
    p: Phase,
    i: int,
) -> bool {
    &&& 0 <= i < jobs.len()
    &&& jobs[i].target() == instance
    &&& jobs[i].phase() == Some(p)
    &&& p == Phase::Completed || p == Phase::Failed
    &&& forall|j: int|
        0 <= j < i && (#[trigger] jobs[j]).target() == instance ==> jobs[j].phase() != Some(
            Phase::Completed,
        ) && jobs[j].phase() != Some(Phase::Failed)
}

proof fn lemma_reports_of_one_more<J: JobResource>(jobs: Seq<J>, instance: Seq<char>, p: Phase)
    requires
        jobs.len() > 0,
    ensures
        reports(jobs, instance, p) <==> reports(jobs.drop_last(), instance, p) || (
        jobs.last().target() == instance && jobs.last().phase() == Some(p)),
{
    let rest = jobs.drop_last();
    assert forall|i: int| 0 <= i < rest.len() implies rest[i] == jobs[i] by {}
    if reports(rest, instance, p) {
        let i = choose|i: int|
            0 <= i < rest.len() && (#[trigger] rest[i]).target() == instance && rest[i].phase()
                == Some(p);
        assert(jobs[i].target() == instance);
    }
    if jobs.last().target() == instance && jobs.last().phase() == Some(p) {
        assert(jobs[jobs.len() - 1].target() == instance);
    }
    if reports(jobs, instance, p) {
        let i = choose|i: int|
            0 <= i < jobs.len() && (#[trigger] jobs[i]).target() == instance && jobs[i].phase()
                == Some(p);
        if i < rest.len() {
            assert(rest[i].target() == instance);
        }
    }
}

proof fn lemma_tally<J: JobResource>(kind: JobKind, jobs: Seq<J>, instance: Seq<char>)
    ensures
        ({
            let t = tally(kind, jobs, instance);
            &&& kind == JobKind::Restore ==> t.completed == reports(
                jobs,
                instance,
                Phase::Completed,
            )
            &&& kind == JobKind::Init && t.completed ==> reports(jobs, instance, Phase::Completed)
            &&& kind == JobKind::Init && !t.running ==> t.completed == reports(
                jobs,
                instance,
                Phase::Completed,
            )
            &&& kind == JobKind::Init && !t.running ==> t.phase == (if reports(
                jobs,
                instance,
                Phase::Completed,
            ) {
                Some(Phase::Completed)
            } else if reports(jobs, instance, Phase::Failed) {
                Some(Phase::Failed)
            } else {
                None
            })
            &&& (kind == JobKind::Restore || kind == JobKind::Upgrade) && !t.running
                ==> match t.phase {
                Some(p) => first_ended_with(jobs, instance, p),
                None => !reports(jobs, instance, Phase::Completed) && !reports(
                    jobs,
                    instance,
                    Phase::Failed,
                ),
            }
            &&& t.phase == Some(Phase::Running) ==> t.running
            &&& t.phase != Some(Phase::Pending)
        }),
    decreases jobs.len(),
{
    if jobs.len() > 0 {
        let rest = jobs.drop_last();
        lemma_tally(kind, rest, instance);
        lemma_reports_of_one_more(jobs, instance, Phase::Completed);
        lemma_reports_of_one_more(jobs, instance, Phase::Failed);
        let before = tally(kind, rest, instance);
        let t = tally(kind, jobs, instance);
        let last = jobs.len() - 1;
        if (kind == JobKind::Restore || kind == JobKind::Upgrade) && !t.running {
            if let Some(p) = before.phase {
                let i = choose|i: int| #[trigger] ended_first_at(rest, instance, p, i);
                assert forall|j: int|
                    0 <= j < i && (#[trigger] jobs[j]).target()
                        == instance implies jobs[j].phase() != Some(Phase::Completed)
                    && jobs[j].phase() != Some(Phase::Failed) by {
                    assert(rest[j] == jobs[j]);
                }
                assert(rest[i] == jobs[i]);
                assert(ended_first_at(jobs, instance, p, i));
            } else if let Some(p) = t.phase {
                assert forall|j: int|
                    0 <= j < last && (#[trigger] jobs[j]).target()
                        == instance implies jobs[j].phase() != Some(Phase::Completed)
                    && jobs[j].phase() != Some(Phase::Failed) by {
                    assert(rest[j] == jobs[j]);
                }
                assert(jobs[last] == jobs.last());
                assert(ended_first_at(jobs, instance, p, last));
            }
        }
    }
}

/// A snapshot shows the jobs of the instance: those at work, and how the others ended.
/// The database counts as initialised where the status says so, where a restore job has
/// completed, or where an init job has completed and none is at work.
pub proof fn law_snapshots_show_what_is_there(
    instance: &OdooInstance,
    seen: Observation,
    r: ReconcileSnapshot,
)
    requires
        call_ensures(ReconcileSnapshot::gather, (instance, seen), r),
    ensures
        ({
            let name = instance.metadata.name_text();
            let init = reports(seen.init_jobs@, name, Phase::Running) || reports(
                seen.init_jobs@,
                name,
                Phase::Pending,
            );
            let restore = reports(seen.restore_jobs@, name, Phase::Running) || reports(
                seen.restore_jobs@,
                name,
                Phase::Pending,
            );
            let upgrade = reports(seen.upgrade_jobs@, name, Phase::Running) || reports(
                seen.upgrade_jobs@,
                name,
                Phase::Pending,
            );
            let backup = reports(seen.backup_jobs@, name, Phase::Running) || reports(
                seen.backup_jobs@,
                name,
                Phase::Pending,
            );
            let before = instance.status matches Some(s) && s.db_initialized;
            let inited = reports(seen.init_jobs@, name, Phase::Completed);
            let restored = reports(seen.restore_jobs@, name, Phase::Completed);
            &&& seen.ready_replicas matches Some(n) ==> r.ready_replicas == n
            &&& seen.ready_replicas is None ==> r.ready_replicas == 0
            &&& r.restore_job_active <==> restore
            &&& r.upgrade_job_active <==> upgrade
            &&& r.backup_job_active <==> backup
            &&& r.init_job_phase == Some(Phase::Running) <==> init
            &&& r.restore_job_phase == Some(Phase::Running) <==> restore
            &&& r.upgrade_job_phase == Some(Phase::Running) <==> upgrade
            &&& !init ==> r.init_job_phase == if inited {
                Some(Phase::Completed)
            } else if reports(seen.init_jobs@, name, Phase::Failed) {
                Some(Phase::Failed)
            } else {
                None
            }
            &&& !restore ==> match r.restore_job_phase {
                Some(p) => first_ended_with(seen.restore_jobs@, name, p),
                None => !restored && !reports(seen.restore_jobs@, name, Phase::Failed),
            }
            &&& !upgrade ==> match r.upgrade_job_phase {
                Some(p) => first_ended_with(seen.upgrade_jobs@, name, p),
                None => !reports(seen.upgrade_jobs@, name, Phase::Completed) && !reports(
                    seen.upgrade_jobs@,
                    name,
                    Phase::Failed,
                ),
            }
            &&& before || restored || (inited && !init) ==> r.db_initialized
            &&& r.db_initialized ==> before || restored || inited
        }),
{
    let name = instance.metadata.name_text();
    lemma_at_work(JobKind::Init, seen.init_jobs@, name);
    lemma_at_work(JobKind::Restore, seen.restore_jobs@, name);
    lemma_at_work(JobKind::Upgrade, seen.upgrade_jobs@, name);
    lemma_at_work(JobKind::Backup, seen.backup_jobs@, name);
    lemma_tally(JobKind::Init, seen.init_jobs@, name);
    lemma_tally(JobKind::Restore, seen.restore_jobs@, name);
    lemma_tally(JobKind::Upgrade, seen.upgrade_jobs@, name);
}

proof fn lemma_at_work<J: JobResource>(kind: JobKind, jobs: Seq<J>, instance: Seq<char>)
    ensures
        ({
            let t = tally(kind, jobs, instance);
            &&& t.running <==> reports(jobs, instance, Phase::Running) || reports(
                jobs,
                instance,
                Phase::Pending,
            )
            &&& t.running && kind != JobKind::Backup ==> t.phase == Some(Phase::Running)
        }),
{
    law_running_jobs_count_most(kind, jobs, instance);
    if tally(kind, jobs, instance).running {
        let i = choose|i: int|
            0 <= i < jobs.len() && (#[trigger] jobs[i]).target() == instance && is_running(
                jobs[i].phase(),
            );
        if jobs[i].phase() == Some(Phase::Running) {
            assert(reports(jobs, instance, Phase::Running));
        } else {
            assert(reports(jobs, instance, Phase::Pending));
        }
    }
}

/// The job that is worked on is one of the instance, and one that is at work wherever
/// there is one.
pub proof fn law_the_job_at_work_is_worked_on(
    instance: &OdooInstance,
    seen: Observation,
    r: ReconcileSnapshot,
)
    requires
        call_ensures(ReconcileSnapshot::gather, (instance, seen), r),
    ensures
        ({
            let name = instance.metadata.name_text();
            &&& r.active_init_job matches Some(j) ==> seen.init_jobs@.contains(j) && j.target()
                == name
            &&& r.active_restore_job matches Some(j) ==> seen.restore_jobs@.contains(j)
                && j.target() == name
            &&& r.active_upgrade_job matches Some(j) ==> seen.upgrade_jobs@.contains(j)
                && j.target() == name
            &&& r.active_backup_job matches Some(j) ==> seen.backup_jobs@.contains(j)
                && j.target() == name
            &&& r.init_job_phase == Some(Phase::Running) ==> (r.active_init_job matches Some(j)
                && (j.phase() == Some(Phase::Running) || j.phase() == Some(Phase::Pending)))
            &&& r.restore_job_active ==> (r.active_restore_job matches Some(j) && (j.phase()
                == Some(Phase::Running) || j.phase() == Some(Phase::Pending)))
            &&& r.upgrade_job_active ==> (r.active_upgrade_job matches Some(j) && (j.phase()
                == Some(Phase::Running) || j.phase() == Some(Phase::Pending)))
            &&& r.backup_job_active ==> (r.active_backup_job matches Some(j) && (j.phase()
                == Some(Phase::Running) || j.phase() == Some(Phase::Pending)))
        }),
{
    let name = instance.metadata.name_text();
    law_running_jobs_count_most(JobKind::Init, seen.init_jobs@, name);
    law_running_jobs_count_most(JobKind::Restore, seen.restore_jobs@, name);
    law_running_jobs_count_most(JobKind::Upgrade, seen.upgrade_jobs@, name);
    law_running_jobs_count_most(JobKind::Backup, seen.backup_jobs@, name);
    lemma_tally(JobKind::Init, seen.init_jobs@, name);
}

// ── Diagram ──────────────────────────────────────────────────────────────────

/// The edge of a transition: its condition is not written.
pub open spec fn edge_of(t: Transition) -> EdgeView {
    EdgeView {
        from: t.from.text(),
        to: t.to.text(),
        guard: Seq::empty(),
        actions: match t.action {
            Some(TransitionAction::MarkDbInitialized) => seq!["MarkDbInitialized"@],
            None => Seq::empty(),
        },
    }
}

/// Draws the transition table.
pub fn generate() -> (r: String)
    ensures
        r@ == diagram_text(transition_table().map_values(|t: Transition| edge_of(t))),
{
    let rows = transitions();
    let mut edges: Vec<Edge> = Vec::new();
    let mut i: usize = 0;
    while i < rows.len()
        invariant
            i <= rows.len(),
            rows@ == transition_table(),
            edges.len() == i,
            forall|j: int| 0 <= j < i ==> (#[trigger] edges@[j])@ == edge_of(rows@[j]),
        decreases rows.len() - i,
    {
        let t = rows[i];
        let actions = match t.action {
            Some(TransitionAction::MarkDbInitialized) => vec!["MarkDbInitialized".to_owned()],
            None => Vec::new(),
        };
        let e = Edge {
            from: t.from.as_str().to_owned(),
            to: t.to.as_str().to_owned(),
            guard: String::new(),
            actions,
        };
        assert(texts(e.actions@) =~= edge_of(t).actions);
        assert(e@ == edge_of(t));
        edges.push(e);
        i += 1;
    }
    proof {
        let want = transition_table().map_values(|t: Transition| edge_of(t));
        assert forall|j: int| 0 <= j < rows@.len() implies edge_views(edges@)[j] == want[j] by {
            assert(edge_views(edges@)[j] == edges@[j]@);
        }
        assert(edge_views(edges@) =~= want);
    }
    render(&edges)
}

} // verus!
