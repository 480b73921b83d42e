//! The lifecycle of an instance: what is observed of it, which phase follows
//! and what is done on the way.
//!
//! Transitions are rows of `(from, to, guard, actions)`.  In each phase the
//! rows are tried in order and the first one whose guard holds is taken.

use vstd::prelude::*;

use crate::controller::jobs::{
    any_completed, find_active, first_active, some_completed, JobKind, JobResource,
};
use crate::crd::meta::{clone_opt, opt_text};
use crate::crd::odoo_backup_job::OdooBackupJob;
use crate::crd::odoo_init_job::OdooInitJob;
use crate::crd::odoo_instance::{OdooInstance, OdooInstancePhase};
use crate::crd::odoo_restore_job::OdooRestoreJob;
use crate::crd::odoo_upgrade_job::OdooUpgradeJob;
use crate::crd::shared::{job_name_of, status_job_name, Phase, WebhookConfig};
use crate::helpers::{
    is_clock_text, parse_rfc3339, rfc3339_instant, utc_now, utc_now_odoo, Instant,
};

verus! {

// ── Job status ───────────────────────────────────────────────────────────────

/// The observed status of a job resource and its batch job.
#[derive(Clone, Copy, Debug, PartialEq, Eq, Structural)]
pub enum JobStatus {
    /// There is no active job resource: none exists, or all are at their end.
    Absent,
    /// An active job resource exists and its batch job has not finished.
    Active,
    /// The batch job succeeded.
    Succeeded,
    /// The batch job failed, or is gone.
    Failed,
}

impl JobStatus {
    /// Whether there is an active job resource.
    pub fn is_present(self) -> (r: bool)
        ensures
            r == (self != JobStatus::Absent),
    {
        self != JobStatus::Absent
    }
}

/// What a look at a batch job showed.
#[derive(Clone, Copy, Debug, PartialEq, Eq, Structural)]
pub enum JobLookup {
    /// The job exists: how many of its pods succeeded and failed, as far as it
    /// says, and whether it is being deleted.
    Found { succeeded: Option<i32>, failed: Option<i32>, deleting: bool },
    /// There is no such job.
    NotFound,
    /// The job could not be looked at.
    Unavailable,
}

/// Whether an optional count is above zero.
pub open spec fn is_positive(count: Option<i32>) -> bool {
    count matches Some(n) && n > 0
}

fn positive(count: Option<i32>) -> (r: bool)
    ensures
        r == is_positive(count),
{
    match count {
        Some(n) => n > 0,
        None => false,
    }
}

/// The status of a job from the presence of an active resource, the batch job
/// that it reports and a look at that batch job.
pub open spec fn resolved_status(
    cr_active: bool,
    job_name: Option<Seq<char>>,
    lookup: JobLookup,
) -> JobStatus {
    if !cr_active {
        JobStatus::Absent
    } else if job_name is None {
        JobStatus::Active
    } else {
        match lookup {
            JobLookup::Found { succeeded, failed, deleting } => if is_positive(succeeded) {
                JobStatus::Succeeded
            } else if is_positive(failed) || deleting {
                JobStatus::Failed
            } else {
                JobStatus::Active
            },
            JobLookup::NotFound => JobStatus::Failed,
            JobLookup::Unavailable => JobStatus::Active,
        }
    }
}

/// Combines the presence of an active job resource with the outcome of its batch
/// job.
pub fn resolve_job_status(
    cr_active: bool,
    job_name: &Option<String>,
    lookup: JobLookup,
) -> (r: JobStatus)
    ensures
        r == resolved_status(cr_active, opt_text(*job_name), lookup),
{
    if !cr_active {
        return JobStatus::Absent;
    }
    if job_name.is_none() {
        return JobStatus::Active;
    }
    match lookup {
        JobLookup::Found { succeeded, failed, deleting } => {
            if positive(succeeded) {
                JobStatus::Succeeded
            } else if positive(failed) {
                JobStatus::Failed
            } else if deleting {
                JobStatus::Failed
            } else {
                JobStatus::Active
            }
        },
        JobLookup::NotFound => JobStatus::Failed,
        JobLookup::Unavailable => JobStatus::Active,
    }
}

/// The status of the filestore migration job: a job that is gone counts as
/// absent.
pub open spec fn migration_status(job_name: Option<Seq<char>>, lookup: JobLookup) -> JobStatus {
    if job_name is None {
        JobStatus::Absent
    } else {
        match lookup {
            JobLookup::Found { succeeded, failed, deleting } => if is_positive(succeeded) {
                JobStatus::Succeeded
            } else if is_positive(failed) {
                JobStatus::Failed
            } else {
                JobStatus::Active
            },
            JobLookup::NotFound => JobStatus::Absent,
            JobLookup::Unavailable => JobStatus::Active,
        }
    }
}

fn resolve_migration_status(job_name: &Option<String>, lookup: JobLookup) -> (r: JobStatus)
    ensures
        r == migration_status(opt_text(*job_name), lookup),
{
    if job_name.is_none() {
        return JobStatus::Absent;
    }
    match lookup {
        JobLookup::Found { succeeded, failed, deleting } => {
            if positive(succeeded) {
                JobStatus::Succeeded
            } else if positive(failed) {
                JobStatus::Failed
            } else {
                JobStatus::Active
            }
        },
        JobLookup::NotFound => JobStatus::Absent,
        JobLookup::Unavailable => JobStatus::Active,
    }
}

// ── Schedules ────────────────────────────────────────────────────────────────

/// Whether a job may run at a given time: it may at once where no time is
/// written or what is written is no time.
pub open spec fn time_reached(scheduled: Option<Seq<char>>, now: Instant) -> bool {
    match scheduled {
        None => true,
        Some(s) => match rfc3339_instant(s) {
            None => true,
            Some(t) => t.not_after(now),
        },
    }
}

/// Whether a job may run at a given time.
pub fn scheduled_time_reached_at(scheduled: &Option<String>, now: Instant) -> (r: bool)
    ensures
        r == time_reached(opt_text(*scheduled), now),
{
    match scheduled {
        None => true,
        Some(s) => match parse_rfc3339(s.as_str()) {
            None => true,
            Some(t) => t.is_not_after(&now),
        },
    }
}

/// Whether a job may run now.
pub fn scheduled_time_reached(scheduled: &Option<String>) -> (r: bool)
    ensures
        exists|now: Instant| r == #[trigger] time_reached(opt_text(*scheduled), now),
        scheduled is None ==> r,
        scheduled matches Some(s) && rfc3339_instant(s@) is None ==> r,
{
    let now = utc_now();
    scheduled_time_reached_at(scheduled, now)
}

// ── Snapshot ─────────────────────────────────────────────────────────────────

/// The observed world at one point in time.
pub struct ReconcileSnapshot {
    pub ready_replicas: i32,
    pub deployment_replicas: i32,
    pub cron_ready_replicas: i32,
    pub cron_deployment_replicas: i32,
    pub db_initialized: bool,
    pub init_job: JobStatus,
    pub restore_job: JobStatus,
    pub upgrade_job: JobStatus,
    pub backup_job: JobStatus,
    pub active_init_job: Option<OdooInitJob>,
    pub active_restore_job: Option<OdooRestoreJob>,
    pub active_upgrade_job: Option<OdooUpgradeJob>,
    pub active_backup_job: Option<OdooBackupJob>,
    pub storage_class_mismatch: bool,
    pub actual_storage_class: Option<String>,
    pub migration_job: JobStatus,
}

/// The replica counts that a Deployment reports.
#[derive(Clone, Copy, Debug, PartialEq, Eq, Structural)]
pub struct DeploymentReplicas {
    pub desired: Option<i32>,
    pub ready: Option<i32>,
}

/// What was read from the cluster for one snapshot.
pub struct Observation {
    /// The Deployment of the instance, if it could be read.
    pub web: Option<DeploymentReplicas>,
    /// The Deployment that runs scheduled actions, if it could be read.
    pub cron: Option<DeploymentReplicas>,
    pub init_jobs: Vec<OdooInitJob>,
    pub restore_jobs: Vec<OdooRestoreJob>,
    pub upgrade_jobs: Vec<OdooUpgradeJob>,
    pub backup_jobs: Vec<OdooBackupJob>,
    pub init_lookup: JobLookup,
    pub restore_lookup: JobLookup,
    pub upgrade_lookup: JobLookup,
    pub backup_lookup: JobLookup,
    /// The storage class of the filestore claim, if the claim could be read.
    pub claim: Option<Option<String>>,
    pub migration_lookup: JobLookup,
}

/// The desired count of a Deployment, or zero.
pub open spec fn desired_count(d: Option<DeploymentReplicas>) -> int {
    match d {
        Some(d) => match d.desired {
            Some(n) => n as int,
            None => 0,
        },
        None => 0,
    }
}

/// The ready count of a Deployment, or zero.
pub open spec fn ready_count(d: Option<DeploymentReplicas>) -> int {
    match d {
        Some(d) => match d.ready {
            Some(n) => n as int,
            None => 0,
        },
        None => 0,
    }
}

fn desired_of(d: &Option<DeploymentReplicas>) -> (r: i32)
    ensures
        r == desired_count(*d),
{
    match d {
        Some(d) => match d.desired {
            Some(n) => n,
            None => 0,
        },
        None => 0,
    }
}

fn ready_of(d: &Option<DeploymentReplicas>) -> (r: i32)
    ensures
        r == ready_count(*d),
{
    match d {
        Some(d) => match d.ready {
            Some(n) => n,
            None => 0,
        },
        None => 0,
    }
}

/// The active job of a list, if there is one.
pub open spec fn active_of<J: JobResource>(jobs: Seq<J>, instance: Seq<char>) -> Option<J> {
    match first_active(jobs, instance) {
        Some(i) => Some(jobs[i]),
        None => None,
    }
}

/// The status of the active job of a list.
pub open spec fn status_of<J: JobResource>(
    jobs: Seq<J>,
    instance: Seq<char>,
    lookup: JobLookup,
) -> JobStatus {
    match active_of(jobs, instance) {
        Some(j) => resolved_status(true, opt_text(j.batch_job()), lookup),
        None => JobStatus::Absent,
    }
}

/// Takes the active job out of a list and resolves its status.
fn take_active<J: JobResource>(jobs: Vec<J>, instance_name: &str, lookup: JobLookup) -> (r: (
    Option<J>,
    JobStatus,
))
    ensures
        r.0 == active_of(jobs@, instance_name@),
        r.1 == status_of(jobs@, instance_name@, lookup),
{
    let mut jobs = jobs;
    match find_active(&jobs, instance_name) {
        Some(i) => {
            let job = jobs.swap_remove(i);
            let name = job.reported_batch_job();
            (Some(job), resolve_job_status(true, &name, lookup))
        },
        None => (None, JobStatus::Absent),
    }
}

/// Whether the status of an instance says that its database is initialised.
pub open spec fn status_db_initialized(instance: OdooInstance) -> bool {
    instance.status matches Some(s) && s.db_initialized
}

/// The migration job that the status of an instance names.
pub open spec fn status_migration_job(instance: OdooInstance) -> Option<String> {
    match instance.status {
        Some(s) => s.migration_job_name,
        None => None,
    }
}

/// The storage class of the filestore claim, as far as it is known.
pub open spec fn actual_class(claim: Option<Option<String>>) -> Option<Seq<char>> {
    match claim {
        Some(c) => opt_text(c),
        None => None,
    }
}

/// Whether two storage classes are known and differ.
pub open spec fn classes_differ(actual: Option<Seq<char>>, desired: Option<Seq<char>>) -> bool {
    match (actual, desired) {
        (Some(a), Some(d)) => a != d,
        _ => false,
    }
}

impl ReconcileSnapshot {
    /// Whether an upgrade job is present and its time has come.
    pub open spec fn upgrade_ready(self, now: Instant) -> bool {
        self.upgrade_job != JobStatus::Absent && time_reached(self.upgrade_schedule(), now)
    }

    /// The time that the active upgrade job is scheduled for.
    pub open spec fn upgrade_schedule(self) -> Option<Seq<char>> {
        match self.active_upgrade_job {
            Some(j) => opt_text(j.spec.scheduled_time),
            None => None,
        }
    }

    /// Whether an upgrade job is present and its time has come.
    pub fn upgrade_job_ready_at(&self, now: Instant) -> (r: bool)
        ensures
            r == self.upgrade_ready(now),
    {
        self.upgrade_job.is_present() && match &self.active_upgrade_job {
            Some(j) => scheduled_time_reached_at(&j.spec.scheduled_time, now),
            None => true,
        }
    }

    /// Whether an upgrade job is present and its time has come by now.
    pub fn upgrade_job_ready(&self) -> (r: bool)
        ensures
            exists|now: Instant| r == #[trigger] self.upgrade_ready(now),
            self.upgrade_job == JobStatus::Absent ==> !r,
            self.upgrade_job != JobStatus::Absent && self.upgrade_schedule() is None ==> r,
    {
        let now = utc_now();
        self.upgrade_job_ready_at(now)
    }

    /// Makes a snapshot of what was read from the cluster.
    pub fn gather(instance: &OdooInstance, seen: Observation) -> (r: Self)
        ensures
            r.deployment_replicas == desired_count(seen.web),
            r.ready_replicas == ready_count(seen.web),
            r.cron_deployment_replicas == desired_count(seen.cron),
            r.cron_ready_replicas == ready_count(seen.cron),
            r.db_initialized == (status_db_initialized(*instance) || some_completed(
                seen.init_jobs@,
                instance.metadata.name_text(),
            ) || some_completed(seen.restore_jobs@, instance.metadata.name_text())),
            r.active_init_job == active_of(seen.init_jobs@, instance.metadata.name_text()),
            r.active_restore_job == active_of(seen.restore_jobs@, instance.metadata.name_text()),
            r.active_upgrade_job == active_of(seen.upgrade_jobs@, instance.metadata.name_text()),
            r.active_backup_job == active_of(seen.backup_jobs@, instance.metadata.name_text()),
            r.init_job == status_of(
                seen.init_jobs@,
                instance.metadata.name_text(),
                seen.init_lookup,
            ),
            r.restore_job == status_of(
                seen.restore_jobs@,
                instance.metadata.name_text(),
                seen.restore_lookup,
            ),
            r.upgrade_job == status_of(
                seen.upgrade_jobs@,
                instance.metadata.name_text(),
                seen.upgrade_lookup,
            ),
            r.backup_job == status_of(
                seen.backup_jobs@,
                instance.metadata.name_text(),
                seen.backup_lookup,
            ),
            opt_text(r.actual_storage_class) == actual_class(seen.claim),
            r.storage_class_mismatch == classes_differ(
                actual_class(seen.claim),
                instance.spec.desired_storage_class(),
            ),
            r.migration_job == migration_status(
                opt_text(status_migration_job(*instance)),
                seen.migration_lookup,
            ),
    {
        let name = instance.metadata.name_any();
        let initialized_before = match &instance.status {
            Some(s) => s.db_initialized,
            None => false,
        };
        let db_initialized = initialized_before || any_completed(&seen.init_jobs, name.as_str())
            || any_completed(&seen.restore_jobs, name.as_str());
        let (active_init_job, init_job) = take_active(
            seen.init_jobs,
            name.as_str(),
            seen.init_lookup,
        );
        let (active_restore_job, restore_job) = take_active(
            seen.restore_jobs,
            name.as_str(),
            seen.restore_lookup,
        );
        let (active_upgrade_job, upgrade_job) = take_active(
            seen.upgrade_jobs,
            name.as_str(),
            seen.upgrade_lookup,
        );
        let (active_backup_job, backup_job) = take_active(
            seen.backup_jobs,
            name.as_str(),
            seen.backup_lookup,
        );
        let actual_storage_class: Option<String> = match seen.claim {
            Some(c) => c,
            None => None,
        };
        let desired = instance.spec.storage_class();
        let storage_class_mismatch = match (&actual_storage_class, &desired) {
            (Some(a), Some(d)) => *a != *d,
            _ => false,
        };
        let migration_name: Option<String> = match &instance.status {
            Some(s) => clone_opt(&s.migration_job_name),
            None => None,
        };
        ReconcileSnapshot {
            ready_replicas: ready_of(&seen.web),
            deployment_replicas: desired_of(&seen.web),
            cron_ready_replicas: ready_of(&seen.cron),
            cron_deployment_replicas: desired_of(&seen.cron),
            db_initialized,
            init_job,
            restore_job,
            upgrade_job,
            backup_job,
            active_init_job,
            active_restore_job,
            active_upgrade_job,
            active_backup_job,
            storage_class_mismatch,
            actual_storage_class,
            migration_job: resolve_migration_status(&migration_name, seen.migration_lookup),
        }
    }
}

// ── Transition actions ───────────────────────────────────────────────────────

/// A one-shot action that belongs to a transition.
#[derive(Clone, Copy, Debug, PartialEq, Eq, Structural)]
pub enum TransitionAction {
    MarkDbInitialized,
    CompleteInitJob,
    FailInitJob,
    CompleteRestoreJob,
    FailRestoreJob,
    CompleteUpgradeJob,
    FailUpgradeJob,
    CompleteBackupJob,
    FailBackupJob,
    BeginFilestoreMigration,
    CompleteFilestoreMigration,
    RollbackFilestoreMigration,
}

// ── Guards ───────────────────────────────────────────────────────────────────

/// The condition of a transition.
#[derive(Clone, Copy, Debug, PartialEq, Eq, Structural)]
pub enum Guard {
    /// The database is not initialised.
    DbNotInitialized,
    /// The database is initialised.
    DbInitialized,
    /// An init job is active.
    InitJobPresent,
    /// The init job succeeded.
    InitJobSucceeded,
    /// The init job failed.
    InitJobFailed,
    /// The init job is gone.
    InitJobAbsent,
    /// A restore job is active.
    RestoreJobPresent,
    /// The restore job succeeded.
    RestoreJobSucceeded,
    /// The restore job failed.
    RestoreJobFailed,
    /// The restore job is gone.
    RestoreJobAbsent,
    /// An upgrade job is active and its time has come.
    UpgradeJobReady,
    /// The upgrade job succeeded.
    UpgradeJobSucceeded,
    /// The upgrade job failed.
    UpgradeJobFailed,
    /// The upgrade job is gone.
    UpgradeJobAbsent,
    /// A backup job is active.
    BackupJobPresent,
    /// No replicas are desired.
    NoReplicasDesired,
    /// Replicas are desired.
    ReplicasDesired,
    /// Replicas are desired and all of them are ready.
    AllReady,
    /// As many replicas are ready as are desired.
    EnoughReady,
    /// Some of the desired replicas are ready.
    PartlyReady,
    /// Replicas are desired and none is ready.
    LostAll,
    /// No replica is ready.
    NoneReady,
    /// The filestore has another storage class than desired.
    StorageClassMismatch,
    /// The backup job succeeded and no replicas are desired.
    BackupSucceededStopped,
    /// The backup job succeeded and the replicas are ready.
    BackupSucceededReady,
    /// The backup job succeeded and some replicas are ready.
    BackupSucceededPartly,
    /// The backup job succeeded and no replica is ready.
    BackupSucceededNone,
    /// The backup job failed and no replicas are desired.
    BackupFailedStopped,
    /// The backup job failed and the replicas are ready.
    BackupFailedReady,
    /// The backup job failed and some replicas are ready.
    BackupFailedPartly,
    /// The backup job failed and no replica is ready.
    BackupFailedNone,
    /// The backup job is gone and no replicas are desired.
    BackupAbsentStopped,
    /// The backup job is gone and the replicas are ready.
    BackupAbsentReady,
    /// The backup job is gone and some replicas are ready.
    BackupAbsentPartly,
    /// The backup job is gone and no replica is ready.
    BackupAbsentNone,
    /// The migration job succeeded and replicas are desired.
    MigrationSucceededStart,
    /// The migration job succeeded and no replicas are desired.
    MigrationSucceededStop,
    /// The migration job failed or is gone and replicas are desired.
    MigrationLostStart,
    /// The migration job failed or is gone and no replicas are desired.
    MigrationLostStop,
}

impl Guard {
    /// Whether the condition holds, given how many replicas are desired, what
    /// was observed, and the time.
    pub open spec fn holds(self, desired: int, s: ReconcileSnapshot, now: Instant) -> bool {
        match self {
            Guard::DbNotInitialized => !s.db_initialized,
            Guard::DbInitialized => s.db_initialized,
            Guard::InitJobPresent => s.init_job != JobStatus::Absent,
            Guard::InitJobSucceeded => s.init_job == JobStatus::Succeeded,
            Guard::InitJobFailed => s.init_job == JobStatus::Failed,
            Guard::InitJobAbsent => s.init_job == JobStatus::Absent,
            Guard::RestoreJobPresent => s.restore_job != JobStatus::Absent,
            Guard::RestoreJobSucceeded => s.restore_job == JobStatus::Succeeded,
            Guard::RestoreJobFailed => s.restore_job == JobStatus::Failed,
            Guard::RestoreJobAbsent => s.restore_job == JobStatus::Absent,
            Guard::UpgradeJobReady => s.upgrade_ready(now),
            Guard::UpgradeJobSucceeded => s.upgrade_job == JobStatus::Succeeded,
            Guard::UpgradeJobFailed => s.upgrade_job == JobStatus::Failed,
            Guard::UpgradeJobAbsent => s.upgrade_job == JobStatus::Absent,
            Guard::BackupJobPresent => s.backup_job != JobStatus::Absent,
            Guard::NoReplicasDesired => desired == 0,
            Guard::ReplicasDesired => desired > 0,
            Guard::AllReady => s.ready_replicas >= desired && desired > 0,
            Guard::EnoughReady => s.ready_replicas >= desired,
            Guard::PartlyReady => s.ready_replicas < desired && s.ready_replicas > 0,
            Guard::LostAll => s.ready_replicas < desired && s.ready_replicas == 0,
            Guard::NoneReady => s.ready_replicas == 0,
            Guard::StorageClassMismatch => s.storage_class_mismatch,
            Guard::BackupSucceededStopped => s.backup_job == JobStatus::Succeeded && desired == 0,
            Guard::BackupSucceededReady => s.backup_job == JobStatus::Succeeded && s.ready_replicas >= desired,
            Guard::BackupSucceededPartly => s.backup_job == JobStatus::Succeeded && s.ready_replicas > 0 && s.ready_replicas < desired,
            Guard::BackupSucceededNone => s.backup_job == JobStatus::Succeeded && s.ready_replicas == 0 && desired > 0,
            Guard::BackupFailedStopped => s.backup_job == JobStatus::Failed && desired == 0,
            Guard::BackupFailedReady => s.backup_job == JobStatus::Failed && s.ready_replicas >= desired,
            Guard::BackupFailedPartly => s.backup_job == JobStatus::Failed && s.ready_replicas > 0 && s.ready_replicas < desired,
            Guard::BackupFailedNone => s.backup_job == JobStatus::Failed && s.ready_replicas == 0 && desired > 0,
            Guard::BackupAbsentStopped => s.backup_job == JobStatus::Absent && desired == 0,
            Guard::BackupAbsentReady => s.backup_job == JobStatus::Absent && s.ready_replicas >= desired && desired > 0,
            Guard::BackupAbsentPartly => s.backup_job == JobStatus::Absent && s.ready_replicas > 0 && s.ready_replicas < desired,
            Guard::BackupAbsentNone => s.backup_job == JobStatus::Absent && s.ready_replicas == 0 && desired > 0,
            Guard::MigrationSucceededStart => s.migration_job == JobStatus::Succeeded && desired > 0,
            Guard::MigrationSucceededStop => s.migration_job == JobStatus::Succeeded && desired == 0,
            Guard::MigrationLostStart => (s.migration_job == JobStatus::Failed || s.migration_job == JobStatus::Absent) && desired > 0,
            Guard::MigrationLostStop => (s.migration_job == JobStatus::Failed || s.migration_job == JobStatus::Absent) && desired == 0,
        }
    }

    /// How the condition is written in diagrams.
    pub open spec fn text(self) -> Seq<char> {
        match self {
            Guard::DbNotInitialized => "!db_initialized"@,
            Guard::DbInitialized => "db_initialized"@,
            Guard::InitJobPresent => "init_job present"@,
            Guard::InitJobSucceeded => "init_job succeeded"@,
            Guard::InitJobFailed => "init_job failed"@,
            Guard::InitJobAbsent => "init_job absent"@,
            Guard::RestoreJobPresent => "restore_job present"@,
            Guard::RestoreJobSucceeded => "restore_job succeeded"@,
            Guard::RestoreJobFailed => "restore_job failed"@,
            Guard::RestoreJobAbsent => "restore_job absent"@,
            Guard::UpgradeJobReady => "upgrade_job ready"@,
            Guard::UpgradeJobSucceeded => "upgrade_job succeeded"@,
            Guard::UpgradeJobFailed => "upgrade_job failed"@,
            Guard::UpgradeJobAbsent => "upgrade_job absent"@,
            Guard::BackupJobPresent => "backup_job present"@,
            Guard::NoReplicasDesired => "replicas == 0"@,
            Guard::ReplicasDesired => "replicas > 0"@,
            Guard::AllReady => "ready >= desired"@,
            Guard::EnoughReady => "ready >= desired"@,
            Guard::PartlyReady => "ready < desired && ready > 0"@,
            Guard::LostAll => "ready == 0"@,
            Guard::NoneReady => "ready == 0"@,
            Guard::StorageClassMismatch => "storage_class_mismatch"@,
            Guard::BackupSucceededStopped => "backup succeeded && replicas == 0"@,
            Guard::BackupSucceededReady => "backup succeeded && ready >= desired"@,
            Guard::BackupSucceededPartly => "backup succeeded && 0 < ready < desired"@,
            Guard::BackupSucceededNone => "backup succeeded && ready == 0"@,
            Guard::BackupFailedStopped => "backup failed && replicas == 0"@,
            Guard::BackupFailedReady => "backup failed && ready >= desired"@,
            Guard::BackupFailedPartly => "backup failed && 0 < ready < desired"@,
            Guard::BackupFailedNone => "backup failed && ready == 0"@,
            Guard::BackupAbsentStopped => "backup absent && replicas == 0"@,
            Guard::BackupAbsentReady => "backup absent && ready >= desired"@,
            Guard::BackupAbsentPartly => "backup absent && 0 < ready < desired"@,
            Guard::BackupAbsentNone => "backup absent && ready == 0"@,
            Guard::MigrationSucceededStart => "migration_job succeeded && replicas > 0"@,
            Guard::MigrationSucceededStop => "migration_job succeeded && replicas == 0"@,
            Guard::MigrationLostStart => "migration_job failed/absent && replicas > 0"@,
            Guard::MigrationLostStop => "migration_job failed/absent && replicas == 0"@,
        }
    }

    /// Whether the condition holds.
    pub fn check(&self, desired: i32, s: &ReconcileSnapshot, now: Instant) -> (r: bool)
        ensures
            r == self.holds(desired as int, *s, now),
    {
        match self {
            Guard::DbNotInitialized => !s.db_initialized,
            Guard::DbInitialized => s.db_initialized,
            Guard::InitJobPresent => s.init_job != JobStatus::Absent,
            Guard::InitJobSucceeded => s.init_job == JobStatus::Succeeded,
            Guard::InitJobFailed => s.init_job == JobStatus::Failed,
            Guard::InitJobAbsent => s.init_job == JobStatus::Absent,
            Guard::RestoreJobPresent => s.restore_job != JobStatus::Absent,
            Guard::RestoreJobSucceeded => s.restore_job == JobStatus::Succeeded,
            Guard::RestoreJobFailed => s.restore_job == JobStatus::Failed,
            Guard::RestoreJobAbsent => s.restore_job == JobStatus::Absent,
            Guard::UpgradeJobReady => s.upgrade_job_ready_at(now),
            Guard::UpgradeJobSucceeded => s.upgrade_job == JobStatus::Succeeded,
            Guard::UpgradeJobFailed => s.upgrade_job == JobStatus::Failed,
            Guard::UpgradeJobAbsent => s.upgrade_job == JobStatus::Absent,
            Guard::BackupJobPresent => s.backup_job != JobStatus::Absent,
            Guard::NoReplicasDesired => desired == 0,
            Guard::ReplicasDesired => desired > 0,
            Guard::AllReady => s.ready_replicas >= desired && desired > 0,
            Guard::EnoughReady => s.ready_replicas >= desired,
            Guard::PartlyReady => s.ready_replicas < desired && s.ready_replicas > 0,
            Guard::LostAll => s.ready_replicas < desired && s.ready_replicas == 0,
            Guard::NoneReady => s.ready_replicas == 0,
            Guard::StorageClassMismatch => s.storage_class_mismatch,
            Guard::BackupSucceededStopped => s.backup_job == JobStatus::Succeeded && desired == 0,
            Guard::BackupSucceededReady => s.backup_job == JobStatus::Succeeded && s.ready_replicas >= desired,
            Guard::BackupSucceededPartly => s.backup_job == JobStatus::Succeeded && s.ready_replicas > 0 && s.ready_replicas < desired,
            Guard::BackupSucceededNone => s.backup_job == JobStatus::Succeeded && s.ready_replicas == 0 && desired > 0,
            Guard::BackupFailedStopped => s.backup_job == JobStatus::Failed && desired == 0,
            Guard::BackupFailedReady => s.backup_job == JobStatus::Failed && s.ready_replicas >= desired,
            Guard::BackupFailedPartly => s.backup_job == JobStatus::Failed && s.ready_replicas > 0 && s.ready_replicas < desired,
            Guard::BackupFailedNone => s.backup_job == JobStatus::Failed && s.ready_replicas == 0 && desired > 0,
            Guard::BackupAbsentStopped => s.backup_job == JobStatus::Absent && desired == 0,
            Guard::BackupAbsentReady => s.backup_job == JobStatus::Absent && s.ready_replicas >= desired && desired > 0,
            Guard::BackupAbsentPartly => s.backup_job == JobStatus::Absent && s.ready_replicas > 0 && s.ready_replicas < desired,
            Guard::BackupAbsentNone => s.backup_job == JobStatus::Absent && s.ready_replicas == 0 && desired > 0,
            Guard::MigrationSucceededStart => s.migration_job == JobStatus::Succeeded && desired > 0,
            Guard::MigrationSucceededStop => s.migration_job == JobStatus::Succeeded && desired == 0,
            Guard::MigrationLostStart => (s.migration_job == JobStatus::Failed || s.migration_job == JobStatus::Absent) && desired > 0,
            Guard::MigrationLostStop => (s.migration_job == JobStatus::Failed || s.migration_job == JobStatus::Absent) && desired == 0,
        }
    }

    /// How the condition is written in diagrams.
    pub fn name(&self) -> (r: &'static str)
        ensures
            r@ == self.text(),
    {
        match self {
            Guard::DbNotInitialized => "!db_initialized",
            Guard::DbInitialized => "db_initialized",
            Guard::InitJobPresent => "init_job present",
            Guard::InitJobSucceeded => "init_job succeeded",
            Guard::InitJobFailed => "init_job failed",
            Guard::InitJobAbsent => "init_job absent",
            Guard::RestoreJobPresent => "restore_job present",
            Guard::RestoreJobSucceeded => "restore_job succeeded",
            Guard::RestoreJobFailed => "restore_job failed",
            Guard::RestoreJobAbsent => "restore_job absent",
            Guard::UpgradeJobReady => "upgrade_job ready",
            Guard::UpgradeJobSucceeded => "upgrade_job succeeded",
            Guard::UpgradeJobFailed => "upgrade_job failed",
            Guard::UpgradeJobAbsent => "upgrade_job absent",
            Guard::BackupJobPresent => "backup_job present",
            Guard::NoReplicasDesired => "replicas == 0",
            Guard::ReplicasDesired => "replicas > 0",
            Guard::AllReady => "ready >= desired",
            Guard::EnoughReady => "ready >= desired",
            Guard::PartlyReady => "ready < desired && ready > 0",
            Guard::LostAll => "ready == 0",
            Guard::NoneReady => "ready == 0",
            Guard::StorageClassMismatch => "storage_class_mismatch",
            Guard::BackupSucceededStopped => "backup succeeded && replicas == 0",
            Guard::BackupSucceededReady => "backup succeeded && ready >= desired",
            Guard::BackupSucceededPartly => "backup succeeded && 0 < ready < desired",
            Guard::BackupSucceededNone => "backup succeeded && ready == 0",
            Guard::BackupFailedStopped => "backup failed && replicas == 0",
            Guard::BackupFailedReady => "backup failed && ready >= desired",
            Guard::BackupFailedPartly => "backup failed && 0 < ready < desired",
            Guard::BackupFailedNone => "backup failed && ready == 0",
            Guard::BackupAbsentStopped => "backup absent && replicas == 0",
            Guard::BackupAbsentReady => "backup absent && ready >= desired",
            Guard::BackupAbsentPartly => "backup absent && 0 < ready < desired",
            Guard::BackupAbsentNone => "backup absent && ready == 0",
            Guard::MigrationSucceededStart => "migration_job succeeded && replicas > 0",
            Guard::MigrationSucceededStop => "migration_job succeeded && replicas == 0",
            Guard::MigrationLostStart => "migration_job failed/absent && replicas > 0",
            Guard::MigrationLostStop => "migration_job failed/absent && replicas == 0",
        }
    }
}

// ── Transition table ─────────────────────────────────────────────────────────

/// One row of the transition table.
#[derive(Clone, Debug)]
pub struct Transition {
    pub from: OdooInstancePhase,
    pub to: OdooInstancePhase,
    pub guard: Guard,
    pub actions: Vec<TransitionAction>,
}

/// The view of a transition.
pub struct TransitionView {
    pub from: OdooInstancePhase,
    pub to: OdooInstancePhase,
    pub guard: Guard,
    pub actions: Seq<TransitionAction>,
}

impl View for Transition {
    type V = TransitionView;

    open spec fn view(&self) -> TransitionView {
        TransitionView {
            from: self.from,
            to: self.to,
            guard: self.guard,
            actions: self.actions@,
        }
    }
}

impl Transition {
    /// How the condition of the transition is written in diagrams.
    pub fn guard_name(&self) -> (r: &'static str)
        ensures
            r@ == self@.guard.text(),
    {
        self.guard.name()
    }
}

/// A row of the table.
pub open spec fn row(
    from: OdooInstancePhase,
    to: OdooInstancePhase,
    guard: Guard,
    actions: Seq<TransitionAction>,
) -> TransitionView {
    TransitionView { from, to, guard, actions }
}

/// The views of a list of transitions.
pub open spec fn transition_views(v: Seq<Transition>) -> Seq<TransitionView> {
    v.map_values(|t: Transition| t@)
}

/// The transitions out of a phase, the more urgent ones first.
pub open spec fn rows_from(from: OdooInstancePhase) -> Seq<TransitionView> {
    match from {
        OdooInstancePhase::Provisioning => seq![
            row(from, OdooInstancePhase::Uninitialized, Guard::DbNotInitialized, seq![]),
            row(from, OdooInstancePhase::Starting, Guard::DbInitialized, seq![]),
        ],
        OdooInstancePhase::Uninitialized => seq![
            row(from, OdooInstancePhase::Initializing, Guard::InitJobPresent, seq![]),
            row(from, OdooInstancePhase::Restoring, Guard::RestoreJobPresent, seq![]),
        ],
        OdooInstancePhase::Initializing => seq![
            row(from, OdooInstancePhase::Starting, Guard::InitJobSucceeded, seq![TransitionAction::CompleteInitJob, TransitionAction::MarkDbInitialized]),
            row(from, OdooInstancePhase::InitFailed, Guard::InitJobFailed, seq![TransitionAction::FailInitJob]),
            row(from, OdooInstancePhase::Uninitialized, Guard::InitJobAbsent, seq![]),
        ],
        OdooInstancePhase::InitFailed => seq![
            row(from, OdooInstancePhase::Initializing, Guard::InitJobPresent, seq![]),
            row(from, OdooInstancePhase::Restoring, Guard::RestoreJobPresent, seq![]),
        ],
        OdooInstancePhase::Starting => seq![
            row(from, OdooInstancePhase::Stopped, Guard::NoReplicasDesired, seq![]),
            row(from, OdooInstancePhase::Restoring, Guard::RestoreJobPresent, seq![]),
            row(from, OdooInstancePhase::Upgrading, Guard::UpgradeJobReady, seq![]),
            row(from, OdooInstancePhase::BackingUp, Guard::BackupJobPresent, seq![]),
            row(from, OdooInstancePhase::Running, Guard::AllReady, seq![]),
        ],
        OdooInstancePhase::Running => seq![
            row(from, OdooInstancePhase::MigratingFilestore, Guard::StorageClassMismatch, seq![TransitionAction::BeginFilestoreMigration]),
            row(from, OdooInstancePhase::Stopped, Guard::NoReplicasDesired, seq![]),
            row(from, OdooInstancePhase::Restoring, Guard::RestoreJobPresent, seq![]),
            row(from, OdooInstancePhase::Upgrading, Guard::UpgradeJobReady, seq![]),
            row(from, OdooInstancePhase::BackingUp, Guard::BackupJobPresent, seq![]),
            row(from, OdooInstancePhase::Degraded, Guard::PartlyReady, seq![]),
            row(from, OdooInstancePhase::Starting, Guard::LostAll, seq![]),
        ],
        OdooInstancePhase::Degraded => seq![
            row(from, OdooInstancePhase::MigratingFilestore, Guard::StorageClassMismatch, seq![TransitionAction::BeginFilestoreMigration]),
            row(from, OdooInstancePhase::Stopped, Guard::NoReplicasDesired, seq![]),
            row(from, OdooInstancePhase::Restoring, Guard::RestoreJobPresent, seq![]),
            row(from, OdooInstancePhase::Upgrading, Guard::UpgradeJobReady, seq![]),
            row(from, OdooInstancePhase::BackingUp, Guard::BackupJobPresent, seq![]),
            row(from, OdooInstancePhase::Running, Guard::EnoughReady, seq![]),
            row(from, OdooInstancePhase::Starting, Guard::NoneReady, seq![]),
        ],
        OdooInstancePhase::BackingUp => seq![
            row(from, OdooInstancePhase::Stopped, Guard::BackupSucceededStopped, seq![TransitionAction::CompleteBackupJob]),
            row(from, OdooInstancePhase::Stopped, Guard::BackupFailedStopped, seq![TransitionAction::FailBackupJob]),
            row(from, OdooInstancePhase::Running, Guard::BackupSucceededReady, seq![TransitionAction::CompleteBackupJob]),
            row(from, OdooInstancePhase::Running, Guard::BackupFailedReady, seq![TransitionAction::FailBackupJob]),
            row(from, OdooInstancePhase::Degraded, Guard::BackupSucceededPartly, seq![TransitionAction::CompleteBackupJob]),
            row(from, OdooInstancePhase::Degraded, Guard::BackupFailedPartly, seq![TransitionAction::FailBackupJob]),
            row(from, OdooInstancePhase::Starting, Guard::BackupSucceededNone, seq![TransitionAction::CompleteBackupJob]),
            row(from, OdooInstancePhase::Starting, Guard::BackupFailedNone, seq![TransitionAction::FailBackupJob]),
            row(from, OdooInstancePhase::Running, Guard::BackupAbsentReady, seq![]),
            row(from, OdooInstancePhase::Degraded, Guard::BackupAbsentPartly, seq![]),
            row(from, OdooInstancePhase::Starting, Guard::BackupAbsentNone, seq![]),
            row(from, OdooInstancePhase::Stopped, Guard::BackupAbsentStopped, seq![]),
        ],
        OdooInstancePhase::Upgrading => seq![
            row(from, OdooInstancePhase::Starting, Guard::UpgradeJobSucceeded, seq![TransitionAction::CompleteUpgradeJob]),
            row(from, OdooInstancePhase::Starting, Guard::UpgradeJobFailed, seq![TransitionAction::FailUpgradeJob]),
            row(from, OdooInstancePhase::Starting, Guard::UpgradeJobAbsent, seq![]),
        ],
        OdooInstancePhase::Restoring => seq![
            row(from, OdooInstancePhase::Starting, Guard::RestoreJobSucceeded, seq![TransitionAction::CompleteRestoreJob, TransitionAction::MarkDbInitialized]),
            row(from, OdooInstancePhase::Starting, Guard::RestoreJobFailed, seq![TransitionAction::FailRestoreJob]),
            row(from, OdooInstancePhase::Starting, Guard::RestoreJobAbsent, seq![]),
        ],
        OdooInstancePhase::Stopped => seq![
            row(from, OdooInstancePhase::MigratingFilestore, Guard::StorageClassMismatch, seq![TransitionAction::BeginFilestoreMigration]),
            row(from, OdooInstancePhase::Restoring, Guard::RestoreJobPresent, seq![]),
            row(from, OdooInstancePhase::Upgrading, Guard::UpgradeJobReady, seq![]),
            row(from, OdooInstancePhase::Starting, Guard::ReplicasDesired, seq![]),
        ],
        OdooInstancePhase::MigratingFilestore => seq![
            row(from, OdooInstancePhase::Starting, Guard::MigrationSucceededStart, seq![TransitionAction::CompleteFilestoreMigration]),
            row(from, OdooInstancePhase::Stopped, Guard::MigrationSucceededStop, seq![TransitionAction::CompleteFilestoreMigration]),
            row(from, OdooInstancePhase::Starting, Guard::MigrationLostStart, seq![TransitionAction::RollbackFilestoreMigration]),
            row(from, OdooInstancePhase::Stopped, Guard::MigrationLostStop, seq![TransitionAction::RollbackFilestoreMigration]),
        ],
        OdooInstancePhase::Error => seq![
            row(from, OdooInstancePhase::Starting, Guard::DbInitialized, seq![]),
            row(from, OdooInstancePhase::Uninitialized, Guard::DbNotInitialized, seq![]),
        ],
    }
}

/// The phases in the order of the table.
pub open spec fn table_order() -> Seq<OdooInstancePhase> {
    seq![
        OdooInstancePhase::Provisioning,
        OdooInstancePhase::Uninitialized,
        OdooInstancePhase::Initializing,
        OdooInstancePhase::InitFailed,
        OdooInstancePhase::Starting,
        OdooInstancePhase::Running,
        OdooInstancePhase::Degraded,
        OdooInstancePhase::BackingUp,
        OdooInstancePhase::Upgrading,
        OdooInstancePhase::Restoring,
        OdooInstancePhase::Stopped,
        OdooInstancePhase::MigratingFilestore,
        OdooInstancePhase::Error,
    ]
}

/// The rows of the first phases of the table.
pub open spec fn table_prefix(n: nat) -> Seq<TransitionView>
    decreases n,
{
    if n == 0 {
        Seq::empty()
    } else {
        table_prefix((n - 1) as nat) + rows_from(table_order()[n - 1])
    }
}

/// The whole transition table.
pub open spec fn transition_table() -> Seq<TransitionView> {
    table_prefix(table_order().len())
}

fn make_row(
    from: OdooInstancePhase,
    to: OdooInstancePhase,
    guard: Guard,
    actions: Vec<TransitionAction>,
) -> (r: Transition)
    ensures
        r@ == row(from, to, guard, actions@),
{
    Transition { from, to, guard, actions }
}

/// The transitions out of a phase.
pub fn transitions_from(from: OdooInstancePhase) -> (r: Vec<Transition>)
    ensures
        transition_views(r@) == rows_from(from),
{
    let r: Vec<Transition> = match from {
        OdooInstancePhase::Provisioning => vec![
            make_row(from, OdooInstancePhase::Uninitialized, Guard::DbNotInitialized, Vec::new()),
            make_row(from, OdooInstancePhase::Starting, Guard::DbInitialized, Vec::new()),
        ],
        OdooInstancePhase::Uninitialized => vec![
            make_row(from, OdooInstancePhase::Initializing, Guard::InitJobPresent, Vec::new()),
            make_row(from, OdooInstancePhase::Restoring, Guard::RestoreJobPresent, Vec::new()),
        ],
        OdooInstancePhase::Initializing => vec![
            make_row(from, OdooInstancePhase::Starting, Guard::InitJobSucceeded, vec![TransitionAction::CompleteInitJob, TransitionAction::MarkDbInitialized]),
            make_row(from, OdooInstancePhase::InitFailed, Guard::InitJobFailed, vec![TransitionAction::FailInitJob]),
            make_row(from, OdooInstancePhase::Uninitialized, Guard::InitJobAbsent, Vec::new()),
        ],
        OdooInstancePhase::InitFailed => vec![
            make_row(from, OdooInstancePhase::Initializing, Guard::InitJobPresent, Vec::new()),
            make_row(from, OdooInstancePhase::Restoring, Guard::RestoreJobPresent, Vec::new()),
        ],
        OdooInstancePhase::Starting => vec![
            make_row(from, OdooInstancePhase::Stopped, Guard::NoReplicasDesired, Vec::new()),
            make_row(from, OdooInstancePhase::Restoring, Guard::RestoreJobPresent, Vec::new()),
            make_row(from, OdooInstancePhase::Upgrading, Guard::UpgradeJobReady, Vec::new()),
            make_row(from, OdooInstancePhase::BackingUp, Guard::BackupJobPresent, Vec::new()),
            make_row(from, OdooInstancePhase::Running, Guard::AllReady, Vec::new()),
        ],
        OdooInstancePhase::Running => vec![
            make_row(from, OdooInstancePhase::MigratingFilestore, Guard::StorageClassMismatch, vec![TransitionAction::BeginFilestoreMigration]),
            make_row(from, OdooInstancePhase::Stopped, Guard::NoReplicasDesired, Vec::new()),
            make_row(from, OdooInstancePhase::Restoring, Guard::RestoreJobPresent, Vec::new()),
            make_row(from, OdooInstancePhase::Upgrading, Guard::UpgradeJobReady, Vec::new()),
            make_row(from, OdooInstancePhase::BackingUp, Guard::BackupJobPresent, Vec::new()),
            make_row(from, OdooInstancePhase::Degraded, Guard::PartlyReady, Vec::new()),
            make_row(from, OdooInstancePhase::Starting, Guard::LostAll, Vec::new()),
        ],
        OdooInstancePhase::Degraded => vec![
            make_row(from, OdooInstancePhase::MigratingFilestore, Guard::StorageClassMismatch, vec![TransitionAction::BeginFilestoreMigration]),
            make_row(from, OdooInstancePhase::Stopped, Guard::NoReplicasDesired, Vec::new()),
            make_row(from, OdooInstancePhase::Restoring, Guard::RestoreJobPresent, Vec::new()),
            make_row(from, OdooInstancePhase::Upgrading, Guard::UpgradeJobReady, Vec::new()),
            make_row(from, OdooInstancePhase::BackingUp, Guard::BackupJobPresent, Vec::new()),
            make_row(from, OdooInstancePhase::Running, Guard::EnoughReady, Vec::new()),
            make_row(from, OdooInstancePhase::Starting, Guard::NoneReady, Vec::new()),
        ],
        OdooInstancePhase::BackingUp => vec![
            make_row(from, OdooInstancePhase::Stopped, Guard::BackupSucceededStopped, vec![TransitionAction::CompleteBackupJob]),
            make_row(from, OdooInstancePhase::Stopped, Guard::BackupFailedStopped, vec![TransitionAction::FailBackupJob]),
            make_row(from, OdooInstancePhase::Running, Guard::BackupSucceededReady, vec![TransitionAction::CompleteBackupJob]),
            make_row(from, OdooInstancePhase::Running, Guard::BackupFailedReady, vec![TransitionAction::FailBackupJob]),
            make_row(from, OdooInstancePhase::Degraded, Guard::BackupSucceededPartly, vec![TransitionAction::CompleteBackupJob]),
            make_row(from, OdooInstancePhase::Degraded, Guard::BackupFailedPartly, vec![TransitionAction::FailBackupJob]),
            make_row(from, OdooInstancePhase::Starting, Guard::BackupSucceededNone, vec![TransitionAction::CompleteBackupJob]),
            make_row(from, OdooInstancePhase::Starting, Guard::BackupFailedNone, vec![TransitionAction::FailBackupJob]),
            make_row(from, OdooInstancePhase::Running, Guard::BackupAbsentReady, Vec::new()),
            make_row(from, OdooInstancePhase::Degraded, Guard::BackupAbsentPartly, Vec::new()),
            make_row(from, OdooInstancePhase::Starting, Guard::BackupAbsentNone, Vec::new()),
            make_row(from, OdooInstancePhase::Stopped, Guard::BackupAbsentStopped, Vec::new()),
        ],
        OdooInstancePhase::Upgrading => vec![
            make_row(from, OdooInstancePhase::Starting, Guard::UpgradeJobSucceeded, vec![TransitionAction::CompleteUpgradeJob]),
            make_row(from, OdooInstancePhase::Starting, Guard::UpgradeJobFailed, vec![TransitionAction::FailUpgradeJob]),
            make_row(from, OdooInstancePhase::Starting, Guard::UpgradeJobAbsent, Vec::new()),
        ],
        OdooInstancePhase::Restoring => vec![
            make_row(from, OdooInstancePhase::Starting, Guard::RestoreJobSucceeded, vec![TransitionAction::CompleteRestoreJob, TransitionAction::MarkDbInitialized]),
            make_row(from, OdooInstancePhase::Starting, Guard::RestoreJobFailed, vec![TransitionAction::FailRestoreJob]),
            make_row(from, OdooInstancePhase::Starting, Guard::RestoreJobAbsent, Vec::new()),
        ],
        OdooInstancePhase::Stopped => vec![
            make_row(from, OdooInstancePhase::MigratingFilestore, Guard::StorageClassMismatch, vec![TransitionAction::BeginFilestoreMigration]),
            make_row(from, OdooInstancePhase::Restoring, Guard::RestoreJobPresent, Vec::new()),
            make_row(from, OdooInstancePhase::Upgrading, Guard::UpgradeJobReady, Vec::new()),
            make_row(from, OdooInstancePhase::Starting, Guard::ReplicasDesired, Vec::new()),
        ],
        OdooInstancePhase::MigratingFilestore => vec![
            make_row(from, OdooInstancePhase::Starting, Guard::MigrationSucceededStart, vec![TransitionAction::CompleteFilestoreMigration]),
            make_row(from, OdooInstancePhase::Stopped, Guard::MigrationSucceededStop, vec![TransitionAction::CompleteFilestoreMigration]),
            make_row(from, OdooInstancePhase::Starting, Guard::MigrationLostStart, vec![TransitionAction::RollbackFilestoreMigration]),
            make_row(from, OdooInstancePhase::Stopped, Guard::MigrationLostStop, vec![TransitionAction::RollbackFilestoreMigration]),
        ],
        OdooInstancePhase::Error => vec![
            make_row(from, OdooInstancePhase::Starting, Guard::DbInitialized, Vec::new()),
            make_row(from, OdooInstancePhase::Uninitialized, Guard::DbNotInitialized, Vec::new()),
        ],
    };
    proof {
        let views = transition_views(r@);
        let rows = rows_from(from);
        assert(views.len() == rows.len());
        assert forall|i: int| 0 <= i < rows.len() implies #[trigger] views[i] == rows[i] by {
            assert(views[i].actions =~= rows[i].actions);
        }
        assert(views =~= rows);
    }
    r
}

/// The whole transition table.
pub fn transitions() -> (r: Vec<Transition>)
    ensures
        transition_views(r@) == transition_table(),
{
    let order = vec![
        OdooInstancePhase::Provisioning,
        OdooInstancePhase::Uninitialized,
        OdooInstancePhase::Initializing,
        OdooInstancePhase::InitFailed,
        OdooInstancePhase::Starting,
        OdooInstancePhase::Running,
        OdooInstancePhase::Degraded,
        OdooInstancePhase::BackingUp,
        OdooInstancePhase::Upgrading,
        OdooInstancePhase::Restoring,
        OdooInstancePhase::Stopped,
        OdooInstancePhase::MigratingFilestore,
        OdooInstancePhase::Error,
    ];
    assert(order@ =~= table_order());
    let mut all: Vec<Transition> = Vec::new();
    assert(transition_views(all@) =~= table_prefix(0));
    let mut i: usize = 0;
    while i < order.len()
        invariant
            i <= order.len(),
            order@ == table_order(),
            transition_views(all@) == table_prefix(i as nat),
        decreases order.len() - i,
    {
        let mut rows = transitions_from(order[i]);
        let ghost before = all@;
        let ghost added = rows@;
        all.append(&mut rows);
        proof {
            assert(all@ == before + added);
            assert(transition_views(all@) =~= transition_views(before) + transition_views(added));
            assert(table_prefix((i + 1) as nat) == table_prefix(i as nat) + rows_from(
                table_order()[i as int],
            ));
        }
        i += 1;
    }
    all
}

// ── Choice of a transition ───────────────────────────────────────────────────

/// The first row whose condition holds.
pub open spec fn first_enabled(
    rows: Seq<TransitionView>,
    desired: int,
    s: ReconcileSnapshot,
    now: Instant,
) -> Option<TransitionView>
    decreases rows.len(),
{
    if rows.len() == 0 {
        None
    } else if rows[0].guard.holds(desired, s, now) {
        Some(rows[0])
    } else {
        first_enabled(rows.drop_first(), desired, s, now)
    }
}

/// The transition that an instance takes, if any.
pub open spec fn chosen_transition(
    phase: OdooInstancePhase,
    desired: int,
    s: ReconcileSnapshot,
    now: Instant,
) -> Option<TransitionView> {
    first_enabled(rows_from(phase), desired, s, now)
}

/// Chooses the transition out of a phase.
pub fn next_transition_at(
    phase: OdooInstancePhase,
    replicas: i32,
    snapshot: &ReconcileSnapshot,
    now: Instant,
) -> (r: Option<Transition>)
    ensures
        match r {
            Some(t) => chosen_transition(phase, replicas as int, *snapshot, now) == Some(t@),
            None => chosen_transition(phase, replicas as int, *snapshot, now) is None,
        },
{
    let mut rows = transitions_from(phase);
    let ghost all = rows_from(phase);
    let mut i: usize = 0;
    assert(all.skip(0) == all);
    while i < rows.len()
        invariant
            i <= rows.len(),
            all == rows_from(phase),
            transition_views(rows@) == all,
            first_enabled(all, replicas as int, *snapshot, now) == first_enabled(
                all.skip(i as int),
                replicas as int,
                *snapshot,
                now,
            ),
        decreases rows.len() - i,
    {
        assert(all.skip(i as int)[0] == rows@[i as int]@);
        assert(all.skip(i as int).drop_first() == all.skip(i + 1));
        if rows[i].guard.check(replicas, snapshot, now) {
            return Some(rows.swap_remove(i));
        }
        i += 1;
    }
    None
}

// ── Requeueing ───────────────────────────────────────────────────────────────

/// When the controller looks at an instance again.
#[derive(Clone, Copy, Debug, PartialEq, Eq, Structural)]
pub enum Action {
    /// When something changes.
    AwaitChange,
    /// After some time, in nanoseconds.
    RequeueAfter { nanos: u128 },
}

/// Ten seconds, in nanoseconds.
pub const POLL_NANOS: u128 = 10_000_000_000;

/// How long to wait for the scheduled time of an active upgrade job, if it is
/// still to come.
pub open spec fn schedule_delay(s: ReconcileSnapshot, now: Instant) -> Option<int> {
    if s.upgrade_job == JobStatus::Absent {
        None
    } else {
        match s.upgrade_schedule() {
            None => None,
            Some(t) => match rfc3339_instant(t) {
                None => None,
                Some(target) => if target.not_after(now) {
                    None
                } else if target.nanos_since(now) < 0 {
                    Some(POLL_NANOS as int)
                } else {
                    Some(target.nanos_since(now))
                },
            },
        }
    }
}

/// The phases in which progress is polled for.
pub open spec fn is_polled(phase: OdooInstancePhase) -> bool {
    ||| phase == OdooInstancePhase::Starting
    ||| phase == OdooInstancePhase::Initializing
    ||| phase == OdooInstancePhase::Restoring
    ||| phase == OdooInstancePhase::Upgrading
    ||| phase == OdooInstancePhase::BackingUp
    ||| phase == OdooInstancePhase::Degraded
    ||| phase == OdooInstancePhase::MigratingFilestore
}

/// When to look at an instance again that stays in its phase.
pub open spec fn requeue_plan(
    phase: OdooInstancePhase,
    s: ReconcileSnapshot,
    now: Instant,
) -> Action {
    match schedule_delay(s, now) {
        Some(d) => Action::RequeueAfter { nanos: d as u128 },
        None => if is_polled(phase) {
            Action::RequeueAfter { nanos: POLL_NANOS }
        } else {
            Action::AwaitChange
        },
    }
}

/// How long to wait for the scheduled time of an active upgrade job.
pub fn scheduled_requeue(snapshot: &ReconcileSnapshot, now: Instant) -> (r: Option<u128>)
    ensures
        match r {
            Some(d) => schedule_delay(*snapshot, now) == Some(d as int),
            None => schedule_delay(*snapshot, now) is None,
        },
{
    if !snapshot.upgrade_job.is_present() {
        return None;
    }
    let scheduled: &String = match &snapshot.active_upgrade_job {
        Some(j) => match &j.spec.scheduled_time {
            Some(t) => t,
            None => return None,
        },
        None => return None,
    };
    let target = match parse_rfc3339(scheduled.as_str()) {
        Some(t) => t,
        None => return None,
    };
    if target.is_not_after(&now) {
        return None;
    }
    let delay: i128 = target.since(&now);
    if delay < 0 {
        Some(POLL_NANOS)
    } else {
        Some(delay as u128)
    }
}

/// When to look at an instance again that stays in its phase.
pub fn requeue_for(phase: OdooInstancePhase, snapshot: &ReconcileSnapshot, now: Instant) -> (r:
    Action)
    ensures
        r == requeue_plan(phase, *snapshot, now),
{
    if let Some(nanos) = scheduled_requeue(snapshot, now) {
        return Action::RequeueAfter { nanos };
    }
    let polled = matches!(
        phase,
        OdooInstancePhase::Starting | OdooInstancePhase::Initializing
            | OdooInstancePhase::Restoring | OdooInstancePhase::Upgrading
            | OdooInstancePhase::BackingUp | OdooInstancePhase::Degraded
            | OdooInstancePhase::MigratingFilestore
    );
    if polled {
        Action::RequeueAfter { nanos: POLL_NANOS }
    } else {
        Action::AwaitChange
    }
}

// ── One cycle ────────────────────────────────────────────────────────────────

/// What one cycle of the state machine comes to, once the outputs of the phase
/// are in place: the transition to take, and when to look again.
#[derive(Clone, Debug)]
pub struct Step {
    pub transition: Option<Transition>,
    pub action: Action,
}

/// Whether a step is the right one: a transition is followed at once by the
/// next cycle, and without one the phase decides.
pub open spec fn is_step(
    step: Step,
    instance: OdooInstance,
    s: ReconcileSnapshot,
    now: Instant,
) -> bool {
    match chosen_transition(instance.phase(), instance.spec.replicas as int, s, now) {
        Some(t) => {
            &&& step.transition matches Some(x)
            &&& x@ == t
            &&& step.action == (Action::RequeueAfter { nanos: 0 })
        },
        None => {
            &&& step.transition is None
            &&& step.action == requeue_plan(instance.phase(), s, now)
        },
    }
}

/// Runs one cycle of the state machine at a given time.
pub fn run_state_machine_at(
    instance: &OdooInstance,
    snapshot: &ReconcileSnapshot,
    now: Instant,
) -> (r: Step)
    ensures
        is_step(r, *instance, *snapshot, now),
{
    let phase = instance.current_phase();
    match next_transition_at(phase, instance.spec.replicas, snapshot, now) {
        Some(t) => Step { transition: Some(t), action: Action::RequeueAfter { nanos: 0 } },
        None => Step { transition: None, action: requeue_for(phase, snapshot, now) },
    }
}

/// Runs one cycle of the state machine.
pub fn run_state_machine(instance: &OdooInstance, snapshot: &ReconcileSnapshot) -> (r: Step)
    ensures
        exists|now: Instant| #[trigger] is_step(r, *instance, *snapshot, now),
{
    let now = utc_now();
    run_state_machine_at(instance, snapshot, now)
}

/// A stage of one cycle: what is due.
#[derive(Clone, Copy, Debug, PartialEq, Eq, Structural)]
pub enum CycleStage {
    /// Put the outputs of the phase in place and choose the transition.
    EnsureOutputs,
    /// Carry out the action at a position of the transition.
    Perform { index: usize },
    /// Write the phase that the transition leads to.
    WritePhase,
    /// The cycle is over.
    Finished,
    /// Something failed: the cycle ends here.
    Failed,
}

/// What is due once the actions before a position are carried out, given how many
/// actions the transition has, if there is one.
pub open spec fn cycle_from(index: int, actions: Option<nat>) -> CycleStage {
    match actions {
        None => CycleStage::Finished,
        Some(n) => if index < n {
            CycleStage::Perform { index: index as usize }
        } else {
            CycleStage::WritePhase
        },
    }
}

/// The stage that follows: the outputs come first, then the actions of the
/// transition in order, then its phase, and nothing follows a failure.
pub open spec fn cycle_after(stage: CycleStage, done: bool, actions: Option<nat>) -> CycleStage {
    match stage {
        CycleStage::Finished => CycleStage::Finished,
        CycleStage::Failed => CycleStage::Failed,
        CycleStage::EnsureOutputs => if done {
            cycle_from(0, actions)
        } else {
            CycleStage::Failed
        },
        CycleStage::Perform { index } => if done {
            cycle_from(index + 1, actions)
        } else {
            CycleStage::Failed
        },
        CycleStage::WritePhase => if done {
            CycleStage::Finished
        } else {
            CycleStage::Failed
        },
    }
}

/// How many actions a transition has, if there is one.
pub open spec fn action_count(transition: Option<Transition>) -> Option<nat> {
    match transition {
        Some(t) => Some(t.actions@.len()),
        None => None,
    }
}

/// Goes on to the stage that follows.
pub fn advance_cycle(stage: CycleStage, done: bool, transition: &Option<Transition>) -> (r:
    CycleStage)
    ensures
        r == cycle_after(stage, done, action_count(*transition)),
{
    if matches!(stage, CycleStage::Finished) {
        return CycleStage::Finished;
    }
    if !done {
        return CycleStage::Failed;
    }
    match stage {
        CycleStage::EnsureOutputs => match transition {
            None => CycleStage::Finished,
            Some(t) => if t.actions.len() > 0 {
                CycleStage::Perform { index: 0 }
            } else {
                CycleStage::WritePhase
            },
        },
        CycleStage::Perform { index } => match transition {
            None => CycleStage::Finished,
            Some(t) => if t.actions.len() > 0 && index < t.actions.len() - 1 {
                CycleStage::Perform { index: index + 1 }
            } else {
                CycleStage::WritePhase
            },
        },
        CycleStage::WritePhase => CycleStage::Finished,
        CycleStage::Finished => CycleStage::Finished,
        CycleStage::Failed => CycleStage::Failed,
    }
}

// ── Actions ──────────────────────────────────────────────────────────────────

/// The end of a job, as it is written to the status of its resource.
#[derive(Clone, Debug)]
pub struct JobPatch {
    pub kind: JobKind,
    pub name: String,
    pub phase: Phase,
    pub completion_time: String,
    pub message: Option<String>,
}

/// A notification about the end of a job.
#[derive(Clone, Debug)]
pub struct JobNotification {
    pub webhook: WebhookConfig,
    pub phase: Phase,
    pub job_name: Option<String>,
    pub message: Option<String>,
    pub completion_time: String,
}

/// What an action comes to.
#[derive(Clone, Debug)]
pub enum ActionPlan {
    /// Nothing: the job that the action is about is not there any more.
    Nothing,
    /// The status of the instance of this name says that the database is
    /// initialised.
    MarkDbInitialized { instance: String },
    /// A job ends: the Deployment of this name restarts, if one is given, then
    /// the status of the job is written, then the notification is sent.
    FinishJob {
        restart: Option<String>,
        patch: JobPatch,
        notification: Option<JobNotification>,
    },
    BeginFilestoreMigration,
    CompleteFilestoreMigration,
    RollbackFilestoreMigration,
}

/// What the status of a job says when it has failed.
pub open spec fn failure_text(kind: JobKind) -> Seq<char> {
    match kind {
        JobKind::Init => "init job failed"@,
        JobKind::Restore => "restore job failed"@,
        JobKind::Upgrade => "upgrade job failed"@,
        JobKind::Backup => "backup job failed"@,
    }
}

/// The phase that a job ends in.
pub open spec fn final_phase(success: bool) -> Phase {
    if success {
        Phase::Completed
    } else {
        Phase::Failed
    }
}

/// The message that a job ends with.
pub open spec fn final_message(kind: JobKind, success: bool) -> Option<Seq<char>> {
    if success {
        None
    } else {
        Some(failure_text(kind))
    }
}

/// Whether a plan ends a job as it should.
pub open spec fn finishes(
    plan: ActionPlan,
    kind: JobKind,
    name: Seq<char>,
    success: bool,
    now: Seq<char>,
    restart: Option<Seq<char>>,
    webhook: Option<WebhookConfig>,
    job_name: Option<String>,
) -> bool {
    match plan {
        ActionPlan::FinishJob { restart: r, patch, notification } => {
            &&& opt_text(r) == restart
            &&& patch.kind == kind
            &&& patch.name@ == name
            &&& patch.phase == final_phase(success)
            &&& patch.completion_time@ == now
            &&& opt_text(patch.message) == final_message(kind, success)
            &&& match webhook {
                None => notification is None,
                Some(w) => {
                    &&& notification matches Some(n)
                    &&& n.webhook == w
                    &&& n.phase == final_phase(success)
                    &&& n.job_name == job_name
                    &&& opt_text(n.message) == final_message(kind, success)
                    &&& n.completion_time@ == now
                },
            }
        },
        _ => false,
    }
}

/// Whether a plan is what an action comes to at a given time.
pub open spec fn is_plan(
    plan: ActionPlan,
    action: TransitionAction,
    instance: OdooInstance,
    s: ReconcileSnapshot,
    now: Seq<char>,
) -> bool {
    match action {
        TransitionAction::MarkDbInitialized => {
            &&& plan matches ActionPlan::MarkDbInitialized { instance: n }
            &&& n@ == instance.metadata.name_text()
        },
        TransitionAction::CompleteInitJob | TransitionAction::FailInitJob => {
            match s.active_init_job {
                None => plan is Nothing,
                Some(j) => finishes(
                    plan,
                    JobKind::Init,
                    j.metadata.name_text(),
                    action == TransitionAction::CompleteInitJob,
                    now,
                    None,
                    j.spec.webhook,
                    status_job_name(j.status),
                ),
            }
        },
        TransitionAction::CompleteRestoreJob | TransitionAction::FailRestoreJob => {
            match s.active_restore_job {
                None => plan is Nothing,
                Some(j) => finishes(
                    plan,
                    JobKind::Restore,
                    j.metadata.name_text(),
                    action == TransitionAction::CompleteRestoreJob,
                    now,
                    None,
                    j.spec.webhook,
                    status_job_name(j.status),
                ),
            }
        },
        TransitionAction::CompleteUpgradeJob | TransitionAction::FailUpgradeJob => {
            match s.active_upgrade_job {
                None => plan is Nothing,
                Some(j) => finishes(
                    plan,
                    JobKind::Upgrade,
                    j.metadata.name_text(),
                    action == TransitionAction::CompleteUpgradeJob,
                    now,
                    if action == TransitionAction::CompleteUpgradeJob {
                        Some(instance.metadata.name_text())
                    } else {
                        None
                    },
                    j.spec.webhook,
                    status_job_name(j.status),
                ),
            }
        },
        TransitionAction::CompleteBackupJob | TransitionAction::FailBackupJob => {
            match s.active_backup_job {
                None => plan is Nothing,
                Some(j) => finishes(
                    plan,
                    JobKind::Backup,
                    j.metadata.name_text(),
                    action == TransitionAction::CompleteBackupJob,
                    now,
                    None,
                    j.spec.webhook,
                    status_job_name(j.status),
                ),
            }
        },
        TransitionAction::BeginFilestoreMigration => plan is BeginFilestoreMigration,
        TransitionAction::CompleteFilestoreMigration => plan is CompleteFilestoreMigration,
        TransitionAction::RollbackFilestoreMigration => plan is RollbackFilestoreMigration,
    }
}

fn failure_message(kind: JobKind, success: bool) -> (r: Option<String>)
    ensures
        opt_text(r) == final_message(kind, success),
{
    if success {
        return None;
    }
    match kind {
        JobKind::Init => Some("init job failed".to_owned()),
        JobKind::Restore => Some("restore job failed".to_owned()),
        JobKind::Upgrade => Some("upgrade job failed".to_owned()),
        JobKind::Backup => Some("backup job failed".to_owned()),
    }
}

fn finish_job(
    kind: JobKind,
    name: String,
    success: bool,
    now: &str,
    restart: Option<String>,
    webhook: &Option<WebhookConfig>,
    job_name: Option<String>,
) -> (r: ActionPlan)
    ensures
        finishes(r, kind, name@, success, now@, opt_text(restart), *webhook, job_name),
{
    let phase = if success {
        Phase::Completed
    } else {
        Phase::Failed
    };
    let patch = JobPatch {
        kind,
        name,
        phase,
        completion_time: now.to_owned(),
        message: failure_message(kind, success),
    };
    let notification = match webhook {
        None => None,
        Some(w) => Some(
            JobNotification {
                webhook: w.copied(),
                phase,
                job_name,
                message: failure_message(kind, success),
                completion_time: now.to_owned(),
            },
        ),
    };
    ActionPlan::FinishJob { restart, patch, notification }
}

/// What an action comes to, with a given text for the current time.
pub fn execute_action_at(
    action: TransitionAction,
    instance: &OdooInstance,
    snapshot: &ReconcileSnapshot,
    now: &str,
) -> (r: ActionPlan)
    ensures
        is_plan(r, action, *instance, *snapshot, now@),
{
    match action {
        TransitionAction::MarkDbInitialized => ActionPlan::MarkDbInitialized {
            instance: instance.metadata.name_any(),
        },
        TransitionAction::CompleteInitJob | TransitionAction::FailInitJob => {
            match &snapshot.active_init_job {
                None => ActionPlan::Nothing,
                Some(j) => finish_job(
                    JobKind::Init,
                    j.metadata.name_any(),
                    action == TransitionAction::CompleteInitJob,
                    now,
                    None,
                    &j.spec.webhook,
                    job_name_of(&j.status),
                ),
            }
        },
        TransitionAction::CompleteRestoreJob | TransitionAction::FailRestoreJob => {
            match &snapshot.active_restore_job {
                None => ActionPlan::Nothing,
                Some(j) => finish_job(
                    JobKind::Restore,
                    j.metadata.name_any(),
                    action == TransitionAction::CompleteRestoreJob,
                    now,
                    None,
                    &j.spec.webhook,
                    job_name_of(&j.status),
                ),
            }
        },
        TransitionAction::CompleteUpgradeJob | TransitionAction::FailUpgradeJob => {
            match &snapshot.active_upgrade_job {
                None => ActionPlan::Nothing,
                Some(j) => {
                    let success = action == TransitionAction::CompleteUpgradeJob;
                    let restart = if success {
                        Some(instance.metadata.name_any())
                    } else {
                        None
                    };
                    finish_job(
                        JobKind::Upgrade,
                        j.metadata.name_any(),
                        success,
                        now,
                        restart,
                        &j.spec.webhook,
                        job_name_of(&j.status),
                    )
                },
            }
        },
        TransitionAction::CompleteBackupJob | TransitionAction::FailBackupJob => {
            match &snapshot.active_backup_job {
                None => ActionPlan::Nothing,
                Some(j) => finish_job(
                    JobKind::Backup,
                    j.metadata.name_any(),
                    action == TransitionAction::CompleteBackupJob,
                    now,
                    None,
                    &j.spec.webhook,
                    job_name_of(&j.status),
                ),
            }
        },
        TransitionAction::BeginFilestoreMigration => ActionPlan::BeginFilestoreMigration,
        TransitionAction::CompleteFilestoreMigration => ActionPlan::CompleteFilestoreMigration,
        TransitionAction::RollbackFilestoreMigration => ActionPlan::RollbackFilestoreMigration,
    }
}

/// What an action comes to now.
pub fn execute_action(
    action: TransitionAction,
    instance: &OdooInstance,
    snapshot: &ReconcileSnapshot,
) -> (r: ActionPlan)
    ensures
        exists|now: Seq<char>|
            is_clock_text(now) && #[trigger] is_plan(r, action, *instance, *snapshot, now),
{
    let now = utc_now_odoo();
    execute_action_at(action, instance, snapshot, now.as_str())
}

// ── Laws ─────────────────────────────────────────────────────────────────────

/// The transition that is taken is a row of its phase whose condition holds, and
/// the condition of no row before it holds.
pub proof fn law_first_match_wins(
    phase: OdooInstancePhase,
    desired: int,
    s: ReconcileSnapshot,
    now: Instant,
)
    ensures
        match chosen_transition(phase, desired, s, now) {
            Some(t) => exists|i: int|
                0 <= i < rows_from(phase).len() && #[trigger] rows_from(phase)[i] == t
                    && t.guard.holds(desired, s, now) && forall|j: int|
                    0 <= j < i ==> !(#[trigger] rows_from(phase)[j]).guard.holds(desired, s, now),
            None => forall|j: int|
                0 <= j < rows_from(phase).len() ==> !(#[trigger] rows_from(
                    phase,
                )[j]).guard.holds(desired, s, now),
        },
{
    lemma_first_enabled(rows_from(phase), desired, s, now);
}

proof fn lemma_first_enabled(
    rows: Seq<TransitionView>,
    desired: int,
    s: ReconcileSnapshot,
    now: Instant,
)
    ensures
        match first_enabled(rows, desired, s, now) {
            Some(t) => exists|i: int|
                0 <= i < rows.len() && #[trigger] rows[i] == t && t.guard.holds(desired, s, now)
                    && forall|j: int| 0 <= j < i ==> !(#[trigger] rows[j]).guard.holds(desired, s, now),
            None => forall|j: int|
                0 <= j < rows.len() ==> !(#[trigger] rows[j]).guard.holds(desired, s, now),
        },
    decreases rows.len(),
{
    if rows.len() > 0 {
        if rows[0].guard.holds(desired, s, now) {
            assert(rows[0] == first_enabled(rows, desired, s, now)->0);
        } else {
            let t = rows.drop_first();
            lemma_first_enabled(t, desired, s, now);
            match first_enabled(t, desired, s, now) {
                Some(x) => {
                    let i = choose|i: int|
                        0 <= i < t.len() && #[trigger] t[i] == x && x.guard.holds(desired, s, now)
                            && forall|j: int|
                            0 <= j < i ==> !(#[trigger] t[j]).guard.holds(desired, s, now);
                    assert(rows[i + 1] == x);
                    assert forall|j: int| 0 <= j < i + 1 implies !(#[trigger] rows[j]).guard.holds(
                        desired,
                        s,
                        now,
                    ) by {
                        if j > 0 {
                            assert(rows[j] == t[j - 1]);
                        }
                    }
                },
                None => {
                    assert forall|j: int| 0 <= j < rows.len() implies !(#[trigger] rows[
                        j
                    ]).guard.holds(desired, s, now) by {
                        if j > 0 {
                            assert(rows[j] == t[j - 1]);
                        }
                    }
                },
            }
        }
    }
}

/// Every row of a phase starts in that phase and leads to another one.
pub proof fn law_transitions_leave_the_phase(phase: OdooInstancePhase, i: int)
    requires
        0 <= i < rows_from(phase).len(),
    ensures
        rows_from(phase)[i].from == phase,
        rows_from(phase)[i].to != phase,
{
}

/// The database is marked as initialised on the success of an init or a restore
/// job only.
pub proof fn law_initialised_on_success_only(phase: OdooInstancePhase, i: int)
    requires
        0 <= i < rows_from(phase).len(),
        rows_from(phase)[i].actions.contains(TransitionAction::MarkDbInitialized),
    ensures
        rows_from(phase)[i].guard == Guard::InitJobSucceeded || rows_from(phase)[i].guard
            == Guard::RestoreJobSucceeded,
        rows_from(phase)[i].to == OdooInstancePhase::Starting,
{
}

/// A filestore migration begins in phases only in which the storage class may
/// be changed.
pub proof fn law_migration_begins_when_admitted(phase: OdooInstancePhase, i: int)
    requires
        0 <= i < rows_from(phase).len(),
        rows_from(phase)[i].actions.contains(TransitionAction::BeginFilestoreMigration),
    ensures
        rows_from(phase)[i].to == OdooInstancePhase::MigratingFilestore,
        !crate::webhook::blocks_storage_class_change(phase),
{
}

/// The phase in which an instance waits for a job of a kind.
pub open spec fn waiting_phase(kind: JobKind) -> OdooInstancePhase {
    match kind {
        JobKind::Init => OdooInstancePhase::Initializing,
        JobKind::Restore => OdooInstancePhase::Restoring,
        JobKind::Upgrade => OdooInstancePhase::Upgrading,
        JobKind::Backup => OdooInstancePhase::BackingUp,
    }
}

/// The status of the job of a kind.
pub open spec fn job_status(s: ReconcileSnapshot, kind: JobKind) -> JobStatus {
    match kind {
        JobKind::Init => s.init_job,
        JobKind::Restore => s.restore_job,
        JobKind::Upgrade => s.upgrade_job,
        JobKind::Backup => s.backup_job,
    }
}

/// While its job is active an instance stays in the phase that waits for it, and
/// once the job has ended or is gone it leaves that phase.
pub proof fn law_waits_for_its_job(
    kind: JobKind,
    desired: int,
    s: ReconcileSnapshot,
    now: Instant,
)
    requires
        desired >= 0,
        s.ready_replicas >= 0,
    ensures
        chosen_transition(waiting_phase(kind), desired, s, now) is None <==> job_status(s, kind)
            == JobStatus::Active,
{
    reveal_with_fuel(first_enabled, 13);
}

/// A filestore migration waits for its job and ends with it.
pub proof fn law_migration_waits_for_its_job(desired: int, s: ReconcileSnapshot, now: Instant)
    requires
        desired >= 0,
    ensures
        chosen_transition(OdooInstancePhase::MigratingFilestore, desired, s, now) is None
            <==> s.migration_job == JobStatus::Active,
        s.migration_job == JobStatus::Succeeded ==> (chosen_transition(
            OdooInstancePhase::MigratingFilestore,
            desired,
            s,
            now,
        ) matches Some(t) && t.actions == seq![TransitionAction::CompleteFilestoreMigration]),
        s.migration_job == JobStatus::Failed || s.migration_job == JobStatus::Absent ==> (
        chosen_transition(OdooInstancePhase::MigratingFilestore, desired, s, now) matches Some(t)
            && t.actions == seq![TransitionAction::RollbackFilestoreMigration]),
{
    reveal_with_fuel(first_enabled, 5);
}

/// Provisioning and the error phase are left at once, and whether the database
/// is initialised decides where to.
pub proof fn law_entry_depends_on_the_database(
    phase: OdooInstancePhase,
    desired: int,
    s: ReconcileSnapshot,
    now: Instant,
)
    requires
        phase == OdooInstancePhase::Provisioning || phase == OdooInstancePhase::Error,
    ensures
        chosen_transition(phase, desired, s, now) matches Some(t) && t.to == if s.db_initialized {
            OdooInstancePhase::Starting
        } else {
            OdooInstancePhase::Uninitialized
        },
{
    reveal_with_fuel(first_enabled, 3);
}

/// Without any job, with the desired storage class and with all desired replicas
/// ready, a running instance keeps running.
pub proof fn law_healthy_instance_keeps_running(
    desired: int,
    s: ReconcileSnapshot,
    now: Instant,
)
    requires
        desired > 0,
        s.ready_replicas >= desired,
        s.restore_job == JobStatus::Absent,
        s.upgrade_job == JobStatus::Absent,
        s.backup_job == JobStatus::Absent,
        !s.storage_class_mismatch,
    ensures
        chosen_transition(OdooInstancePhase::Running, desired, s, now) is None,
{
    lemma_first_enabled(rows_from(OdooInstancePhase::Running), desired, s, now);
}

/// An instance that stays in a phase in which something is going on is looked
/// at again without waiting for a change.
pub proof fn law_busy_phases_are_polled(
    phase: OdooInstancePhase,
    s: ReconcileSnapshot,
    now: Instant,
)
    requires
        is_polled(phase),
    ensures
        requeue_plan(phase, s, now) is RequeueAfter,
{
}

/// Within a cycle the outputs come before everything else, the actions of a
/// transition are carried out in order, the phase is written after the last of
/// them, and nothing follows a failure.
pub proof fn law_phase_is_written_last(stage: CycleStage, done: bool, actions: Option<nat>)
    requires
        actions matches Some(n) ==> n <= usize::MAX,
    ensures
        cycle_after(stage, done, actions) != CycleStage::EnsureOutputs,
        cycle_after(stage, done, actions) matches CycleStage::Perform { index } ==> {
            &&& done
            &&& actions matches Some(n) && index < n
            &&& if index == 0 {
                stage == CycleStage::EnsureOutputs
            } else {
                stage == (CycleStage::Perform { index: (index - 1) as usize })
            }
        },
        cycle_after(stage, done, actions) == CycleStage::WritePhase ==> {
            &&& done
            &&& actions matches Some(n) && match stage {
                CycleStage::EnsureOutputs => n == 0,
                CycleStage::Perform { index } => index + 1 >= n,
                _ => false,
            }
        },
        cycle_after(stage, done, actions) == CycleStage::Finished ==> stage
            == CycleStage::Finished || done,
        !done && stage != CycleStage::Finished ==> cycle_after(stage, done, actions)
            == CycleStage::Failed,
        cycle_after(CycleStage::Failed, done, actions) == CycleStage::Failed,
{
}

/// A wait is asked for exactly while an upgrade job is present and its time has
/// not come, and it lasts until that time.
pub proof fn law_waits_for_the_schedule(s: ReconcileSnapshot, now: Instant)
    requires
        now.nanos < 1_000_000_000,
    ensures
        schedule_delay(s, now) is Some <==> s.upgrade_job != JobStatus::Absent
            && !s.upgrade_ready(now),
        schedule_delay(s, now) matches Some(d) ==> {
            &&& s.upgrade_schedule() matches Some(t)
            &&& rfc3339_instant(t) matches Some(target)
            &&& d == target.nanos_since(now)
            &&& d > 0
        },
{
}

/// The jobs of other instances change no part of a snapshot: with one of them taken
/// out of a list the active job, its status and whether one has completed stay.
pub proof fn law_other_instances_do_not_count<J: JobResource>(
    jobs: Seq<J>,
    i: int,
    instance: Seq<char>,
    lookup: JobLookup,
)
    requires
        0 <= i < jobs.len(),
        jobs[i].target() != instance,
    ensures
        active_of(jobs.remove(i), instance) == active_of(jobs, instance),
        status_of(jobs.remove(i), instance, lookup) == status_of(jobs, instance, lookup),
        some_completed(jobs.remove(i), instance) == some_completed(jobs, instance),
{
    let rest = jobs.remove(i);
    lemma_first_active_without(jobs, i, instance);
    assert forall|k: int| 0 <= k < rest.len() implies #[trigger] rest[k] == jobs[if k < i {
        k
    } else {
        k + 1
    }] by {}
    if some_completed(jobs, instance) {
        let k = choose|k: int|
            0 <= k < jobs.len() && (#[trigger] jobs[k]).target() == instance && jobs[k].phase()
                == Some(Phase::Completed);
        let at = if k < i {
            k
        } else {
            k - 1
        };
        assert(rest[at] == jobs[k]);
    }
}

proof fn lemma_first_active_without<J: JobResource>(jobs: Seq<J>, i: int, instance: Seq<char>)
    requires
        0 <= i < jobs.len(),
        jobs[i].target() != instance,
    ensures
        first_active(jobs.remove(i), instance) == match first_active(jobs, instance) {
            Some(k) => Some(
                if k < i {
                    k
                } else {
                    k - 1
                },
            ),
            None => None,
        },
        first_active(jobs, instance) matches Some(k) ==> 0 <= k < jobs.len() && k != i,
    decreases jobs.len(),
{
    let t = jobs.drop_last();
    crate::controller::jobs::law_first_active_is_first(jobs, instance);
    if i == jobs.len() - 1 {
        assert(jobs.remove(i) =~= t);
    } else {
        lemma_first_active_without(t, i, instance);
        crate::controller::jobs::law_first_active_is_first(t, instance);
        assert(jobs.remove(i).drop_last() =~= t.remove(i));
        assert(jobs.remove(i).last() == jobs.last());
    }
}

// ── What the phases are for ──────────────────────────────────────────────────

/// No phase is entered without its reason.  An instance initialises, restores,
/// upgrades or backs up only for a job of that kind, and upgrades only at the time
/// that is written; it moves its filestore only where the storage class differs; it
/// stops only where no replicas are desired, runs only with all of them ready and is
/// degraded only with some of them.
pub proof fn law_phases_are_entered_for_a_reason(
    phase: OdooInstancePhase,
    desired: int,
    s: ReconcileSnapshot,
    now: Instant,
)
    ensures
        chosen_transition(phase, desired, s, now) matches Some(t) ==> {
            &&& t.from == phase
            &&& t.to == OdooInstancePhase::Initializing ==> s.init_job != JobStatus::Absent
            &&& t.to == OdooInstancePhase::Restoring ==> s.restore_job != JobStatus::Absent
            &&& t.to == OdooInstancePhase::Upgrading ==> s.upgrade_job != JobStatus::Absent
            &&& t.to == OdooInstancePhase::Upgrading && (s.active_upgrade_job matches Some(j)
                && j.spec.scheduled_time is Some) ==> {
                let written = s.active_upgrade_job->0.spec.scheduled_time->0@;
                rfc3339_instant(written) matches Some(at) ==> at.secs < now.secs || (at.secs
                    == now.secs && at.nanos <= now.nanos)
            }
            &&& t.to == OdooInstancePhase::BackingUp ==> s.backup_job != JobStatus::Absent
            &&& t.to == OdooInstancePhase::MigratingFilestore ==> s.storage_class_mismatch
            &&& t.to == OdooInstancePhase::Stopped ==> desired == 0
            &&& t.to == OdooInstancePhase::Running ==> s.ready_replicas >= desired
            &&& t.to == OdooInstancePhase::Degraded ==> 0 < s.ready_replicas < desired
            &&& t.to == OdooInstancePhase::InitFailed ==> s.init_job == JobStatus::Failed
            &&& t.to != OdooInstancePhase::Provisioning
            &&& t.to != OdooInstancePhase::Error
        },
{
    lemma_first_enabled(rows_from(phase), desired, s, now);
}

/// A job that asks for the instance gets it.  With replicas desired and the storage
/// class in place, an instance that starts, runs or is degraded turns to a restore
/// job first, then to an upgrade job whose time has come, then to a backup job; no
/// action goes with it.
pub proof fn law_jobs_are_taken_up(
    phase: OdooInstancePhase,
    desired: int,
    s: ReconcileSnapshot,
    now: Instant,
)
    requires
        phase == OdooInstancePhase::Starting || phase == OdooInstancePhase::Running || phase
            == OdooInstancePhase::Degraded,
        desired > 0,
        !s.storage_class_mismatch,
    ensures
        ({
            let chosen = chosen_transition(phase, desired, s, now);
            let due = s.upgrade_job != JobStatus::Absent && time_reached(s.upgrade_schedule(), now);
            &&& s.restore_job != JobStatus::Absent ==> (chosen matches Some(t) && t.to
                == OdooInstancePhase::Restoring && t.actions.len() == 0)
            &&& s.restore_job == JobStatus::Absent && due ==> (chosen matches Some(t) && t.to
                == OdooInstancePhase::Upgrading && t.actions.len() == 0)
            &&& s.restore_job == JobStatus::Absent && !due && s.backup_job != JobStatus::Absent
                ==> (chosen matches Some(t) && t.to == OdooInstancePhase::BackingUp
                && t.actions.len() == 0)
        }),
{
    reveal_with_fuel(first_enabled, 8);
}

/// A stopped instance turns to restore and upgrade jobs, leaves backup jobs alone,
/// and starts when replicas are desired again.
pub proof fn law_stopped_instances_take_up_jobs(desired: int, s: ReconcileSnapshot, now: Instant)
    requires
        !s.storage_class_mismatch,
    ensures
        ({
            let chosen = chosen_transition(OdooInstancePhase::Stopped, desired, s, now);
            let due = s.upgrade_job != JobStatus::Absent && time_reached(s.upgrade_schedule(), now);
            if s.restore_job != JobStatus::Absent {
                chosen matches Some(t) && t.to == OdooInstancePhase::Restoring && t.actions.len()
                    == 0
            } else if due {
                chosen matches Some(t) && t.to == OdooInstancePhase::Upgrading && t.actions.len()
                    == 0
            } else if desired > 0 {
                chosen matches Some(t) && t.to == OdooInstancePhase::Starting && t.actions.len()
                    == 0
            } else {
                chosen is None
            }
        }),
{
    reveal_with_fuel(first_enabled, 5);
}

/// An instance without a database waits for an init job or a restore job, in this
/// order, and for nothing else.
pub proof fn law_databases_come_from_jobs(
    phase: OdooInstancePhase,
    desired: int,
    s: ReconcileSnapshot,
    now: Instant,
)
    requires
        phase == OdooInstancePhase::Uninitialized || phase == OdooInstancePhase::InitFailed,
    ensures
        ({
            let chosen = chosen_transition(phase, desired, s, now);
            if s.init_job != JobStatus::Absent {
                chosen matches Some(t) && t.to == OdooInstancePhase::Initializing
                    && t.actions.len() == 0
            } else if s.restore_job != JobStatus::Absent {
                chosen matches Some(t) && t.to == OdooInstancePhase::Restoring && t.actions.len()
                    == 0
            } else {
                chosen is None
            }
        }),
{
    reveal_with_fuel(first_enabled, 3);
}

/// A storage class that differs moves the filestore before anything else happens to
/// an instance that runs, is degraded or is stopped; nothing else begins a move.
pub proof fn law_filestores_move_first(
    phase: OdooInstancePhase,
    desired: int,
    s: ReconcileSnapshot,
    now: Instant,
)
    ensures
        s.storage_class_mismatch && (phase == OdooInstancePhase::Running || phase
            == OdooInstancePhase::Degraded || phase == OdooInstancePhase::Stopped) ==> (
        chosen_transition(phase, desired, s, now) matches Some(t) && t.to
            == OdooInstancePhase::MigratingFilestore && t.actions == seq![
            TransitionAction::BeginFilestoreMigration,
        ]),
        chosen_transition(phase, desired, s, now) matches Some(t) ==> (t.to
            == OdooInstancePhase::MigratingFilestore) == t.actions.contains(
            TransitionAction::BeginFilestoreMigration,
        ),
{
    lemma_first_enabled(rows_from(phase), desired, s, now);
    if let Some(t) = chosen_transition(phase, desired, s, now) {
        if t.to == OdooInstancePhase::MigratingFilestore {
            assert(t.actions[0] == TransitionAction::BeginFilestoreMigration);
        }
    }
}

/// Where no replicas are desired, an instance that starts, runs or is degraded
/// stops, unless its filestore has to be moved.
pub proof fn law_unwanted_instances_stop(
    phase: OdooInstancePhase,
    s: ReconcileSnapshot,
    now: Instant,
)
    requires
        phase == OdooInstancePhase::Starting || phase == OdooInstancePhase::Running || phase
            == OdooInstancePhase::Degraded,
        phase == OdooInstancePhase::Starting || !s.storage_class_mismatch,
    ensures
        chosen_transition(phase, 0, s, now) matches Some(t) && t.to == OdooInstancePhase::Stopped
            && t.actions.len() == 0,
{
    reveal_with_fuel(first_enabled, 3);
}

/// Without a job and with the storage class in place the ready replicas alone decide
/// between starting, running and degraded.
pub proof fn law_ready_replicas_decide(
    phase: OdooInstancePhase,
    desired: int,
    s: ReconcileSnapshot,
    now: Instant,
)
    requires
        phase == OdooInstancePhase::Starting || phase == OdooInstancePhase::Running || phase
            == OdooInstancePhase::Degraded,
        desired > 0,
        s.ready_replicas >= 0,
        s.restore_job == JobStatus::Absent,
        s.upgrade_job == JobStatus::Absent,
        s.backup_job == JobStatus::Absent,
        !s.storage_class_mismatch,
    ensures
        ({
            let chosen = chosen_transition(phase, desired, s, now);
            let fit = if s.ready_replicas >= desired {
                OdooInstancePhase::Running
            } else if s.ready_replicas > 0 && phase != OdooInstancePhase::Starting {
                OdooInstancePhase::Degraded
            } else {
                OdooInstancePhase::Starting
            };
            if phase == fit {
                chosen is None
            } else {
                chosen matches Some(t) && t.to == fit && t.actions.len() == 0
            }
        }),
{
    reveal_with_fuel(first_enabled, 8);
}

/// The end of an init, a restore or an upgrade job: success completes the job, and a
/// database that it brought counts as initialised; failure fails it; a job that is
/// gone is not touched.  The instance starts, but for one without a database.
pub proof fn law_jobs_end_as_they_went(desired: int, s: ReconcileSnapshot, now: Instant)
    ensures
        ({
            let init = chosen_transition(OdooInstancePhase::Initializing, desired, s, now);
            &&& s.init_job == JobStatus::Succeeded ==> (init matches Some(t) && t.to
                == OdooInstancePhase::Starting && t.actions == seq![
                TransitionAction::CompleteInitJob,
                TransitionAction::MarkDbInitialized,
            ])
            &&& s.init_job == JobStatus::Failed ==> (init matches Some(t) && t.to
                == OdooInstancePhase::InitFailed && t.actions == seq![
                TransitionAction::FailInitJob,
            ])
            &&& s.init_job == JobStatus::Absent ==> (init matches Some(t) && t.to
                == OdooInstancePhase::Uninitialized && t.actions.len() == 0)
        }),
        ({
            let restore = chosen_transition(OdooInstancePhase::Restoring, desired, s, now);
            &&& restore matches Some(t) ==> t.to == OdooInstancePhase::Starting
            &&& s.restore_job == JobStatus::Succeeded ==> (restore matches Some(t) && t.actions
                == seq![
                TransitionAction::CompleteRestoreJob,
                TransitionAction::MarkDbInitialized,
            ])
            &&& s.restore_job == JobStatus::Failed ==> (restore matches Some(t) && t.actions
                == seq![TransitionAction::FailRestoreJob])
            &&& s.restore_job == JobStatus::Absent ==> (restore matches Some(t)
                && t.actions.len() == 0)
        }),
        ({
            let upgrade = chosen_transition(OdooInstancePhase::Upgrading, desired, s, now);
            &&& upgrade matches Some(t) ==> t.to == OdooInstancePhase::Starting
            &&& s.upgrade_job == JobStatus::Succeeded ==> (upgrade matches Some(t) && t.actions
                == seq![TransitionAction::CompleteUpgradeJob])
            &&& s.upgrade_job == JobStatus::Failed ==> (upgrade matches Some(t) && t.actions
                == seq![TransitionAction::FailUpgradeJob])
            &&& s.upgrade_job == JobStatus::Absent ==> (upgrade matches Some(t)
                && t.actions.len() == 0)
        }),
{
    reveal_with_fuel(first_enabled, 4);
}

/// After a backup the instance goes to the phase that fits its replicas, whatever
/// came of the backup; the job is completed or failed as it went.
pub proof fn law_backups_end_as_they_went(desired: int, s: ReconcileSnapshot, now: Instant)
    requires
        desired >= 0,
        s.ready_replicas >= 0,
        s.backup_job != JobStatus::Active,
    ensures
        chosen_transition(OdooInstancePhase::BackingUp, desired, s, now) matches Some(t) && {
            &&& t.to == if desired == 0 {
                OdooInstancePhase::Stopped
            } else if s.ready_replicas >= desired {
                OdooInstancePhase::Running
            } else if s.ready_replicas > 0 {
                OdooInstancePhase::Degraded
            } else {
                OdooInstancePhase::Starting
            }
            &&& s.backup_job == JobStatus::Succeeded ==> t.actions == seq![
                TransitionAction::CompleteBackupJob,
            ]
            &&& s.backup_job == JobStatus::Failed ==> t.actions == seq![
                TransitionAction::FailBackupJob,
            ]
            &&& s.backup_job == JobStatus::Absent ==> t.actions.len() == 0
        },
{
    reveal_with_fuel(first_enabled, 13);
}

/// After its filestore has been moved, or could not be, an instance starts where
/// replicas are desired and stops where none are.
pub proof fn law_moved_instances_go_on(desired: int, s: ReconcileSnapshot, now: Instant)
    requires
        desired >= 0,
    ensures
        chosen_transition(OdooInstancePhase::MigratingFilestore, desired, s, now) matches Some(t)
            ==> t.to == if desired > 0 {
            OdooInstancePhase::Starting
        } else {
            OdooInstancePhase::Stopped
        },
{
    reveal_with_fuel(first_enabled, 5);
}

/// Entering the lifecycle, or coming back from an error, does nothing to any job.
pub proof fn law_entry_has_no_actions(
    phase: OdooInstancePhase,
    desired: int,
    s: ReconcileSnapshot,
    now: Instant,
)
    requires
        phase == OdooInstancePhase::Provisioning || phase == OdooInstancePhase::Error,
    ensures
        chosen_transition(phase, desired, s, now) matches Some(t) && t.actions.len() == 0,
{
    reveal_with_fuel(first_enabled, 3);
}

/// The table of all transitions holds every row of every phase.
pub proof fn law_the_table_is_complete(phase: OdooInstancePhase, i: int)
    requires
        0 <= i < rows_from(phase).len(),
    ensures
        transition_table().contains(rows_from(phase)[i]),
{
    let order = table_order();
    let k = choose|k: int| 0 <= k < order.len() && order[k] == phase;
    assert(order[0] == OdooInstancePhase::Provisioning && order[1]
        == OdooInstancePhase::Uninitialized && order[2] == OdooInstancePhase::Initializing
        && order[3] == OdooInstancePhase::InitFailed && order[4] == OdooInstancePhase::Starting
        && order[5] == OdooInstancePhase::Running && order[6] == OdooInstancePhase::Degraded
        && order[7] == OdooInstancePhase::BackingUp && order[8] == OdooInstancePhase::Upgrading
        && order[9] == OdooInstancePhase::Restoring && order[10] == OdooInstancePhase::Stopped
        && order[11] == OdooInstancePhase::MigratingFilestore && order[12]
        == OdooInstancePhase::Error);
    assert(0 <= k < order.len() && order[k] == phase);
    lemma_prefix_holds(k, order.len() as int, i);
}

proof fn lemma_prefix_holds(k: int, n: int, i: int)
    requires
        0 <= k < n <= table_order().len(),
        0 <= i < rows_from(table_order()[k]).len(),
    ensures
        table_prefix(n as nat).contains(rows_from(table_order()[k])[i]),
    decreases n,
{
    let before = table_prefix((n - 1) as nat);
    let rows = rows_from(table_order()[n - 1]);
    let all = table_prefix(n as nat);
    assert(all == before + rows);
    if k == n - 1 {
        assert(all[before.len() + i] == rows[i]);
    } else {
        lemma_prefix_holds(k, n - 1, i);
        let x = rows_from(table_order()[k])[i];
        let at = choose|at: int| 0 <= at < before.len() && before[at] == x;
        assert(all[at] == x);
    }
}

// ── What is observed ─────────────────────────────────────────────────────────

/// What a batch job says of its job resource.  Without an active resource there is
/// nothing to say.  A resource that names no batch job, or one that cannot be looked
/// at, is active.  Pods that succeeded count before pods that failed, and a batch job
/// that is gone or goes away has failed.
pub proof fn law_batch_jobs_tell_the_status(
    cr_active: bool,
    job_name: &Option<String>,
    lookup: JobLookup,
    r: JobStatus,
)
    requires
        call_ensures(resolve_job_status, (cr_active, job_name, lookup), r),
    ensures
        r == JobStatus::Absent <==> !cr_active,
        cr_active && *job_name is None ==> r == JobStatus::Active,
        cr_active && *job_name is Some ==> match lookup {
            JobLookup::NotFound => r == JobStatus::Failed,
            JobLookup::Unavailable => r == JobStatus::Active,
            JobLookup::Found { succeeded, failed, deleting } => {
                let won = succeeded matches Some(n) && n > 0;
                let lost = failed matches Some(n) && n > 0;
                &&& won <==> r == JobStatus::Succeeded
                &&& !won && (lost || deleting) <==> r == JobStatus::Failed
                &&& !won && !lost && !deleting <==> r == JobStatus::Active
            },
        },
{
}

/// What is observed of an instance.  The counts come from its Deployments.  Its
/// database counts as initialised once the status says so or an init or restore job
/// for it has completed.  Each kind of job is read from the jobs of that kind, and the
/// storage class differs where both classes are known and are not the same.
pub proof fn law_snapshots_show_what_is_there(
    instance: &OdooInstance,
    seen: Observation,
    r: ReconcileSnapshot,
)
    requires
        call_ensures(ReconcileSnapshot::gather, (instance, seen), r),
    ensures
        seen.web matches Some(d) ==> {
            &&& d.ready matches Some(n) ==> r.ready_replicas == n
            &&& d.desired matches Some(n) ==> r.deployment_replicas == n
        },
        seen.cron matches Some(d) ==> {
            &&& d.ready matches Some(n) ==> r.cron_ready_replicas == n
            &&& d.desired matches Some(n) ==> r.cron_deployment_replicas == n
        },
        seen.web is None ==> r.ready_replicas == 0 && r.deployment_replicas == 0,
        seen.cron is None ==> r.cron_ready_replicas == 0 && r.cron_deployment_replicas == 0,
        instance.status matches Some(st) && st.db_initialized ==> r.db_initialized,
        r.db_initialized && !(instance.status matches Some(st) && st.db_initialized) ==> {
            ||| some_completed(seen.init_jobs@, instance.metadata.name_text())
            ||| some_completed(seen.restore_jobs@, instance.metadata.name_text())
        },
        some_completed(seen.init_jobs@, instance.metadata.name_text()) ==> r.db_initialized,
        some_completed(seen.restore_jobs@, instance.metadata.name_text()) ==> r.db_initialized,
        r.init_job != JobStatus::Absent <==> r.active_init_job is Some,
        r.restore_job != JobStatus::Absent <==> r.active_restore_job is Some,
        r.upgrade_job != JobStatus::Absent <==> r.active_upgrade_job is Some,
        r.backup_job != JobStatus::Absent <==> r.active_backup_job is Some,
        r.active_init_job matches Some(j) ==> {
            &&& j.spec.odoo_instance_ref.name@ == instance.metadata.name_text()
            &&& r.init_job == resolved_status(
                true,
                opt_text(status_job_name(j.status)),
                seen.init_lookup,
            )
        },
        r.active_restore_job matches Some(j) ==> {
            &&& j.spec.odoo_instance_ref.name@ == instance.metadata.name_text()
            &&& r.restore_job == resolved_status(
                true,
                opt_text(status_job_name(j.status)),
                seen.restore_lookup,
            )
        },
        r.active_upgrade_job matches Some(j) ==> {
            &&& j.spec.odoo_instance_ref.name@ == instance.metadata.name_text()
            &&& r.upgrade_job == resolved_status(
                true,
                opt_text(status_job_name(j.status)),
                seen.upgrade_lookup,
            )
        },
        r.active_backup_job matches Some(j) ==> {
            &&& j.spec.odoo_instance_ref.name@ == instance.metadata.name_text()
            &&& r.backup_job == resolved_status(
                true,
                opt_text(status_job_name(j.status)),
                seen.backup_lookup,
            )
        },
        r.storage_class_mismatch <==> (seen.claim matches Some(Some(have))
            && instance.spec.filestore matches Some(f) && f.storage_class matches Some(want)
            && have@ != want@),
        seen.claim matches Some(Some(have)) ==> (r.actual_storage_class matches Some(c) && c@
            == have@),
{
    let name = instance.metadata.name_text();
    crate::controller::jobs::law_first_active_is_first(seen.init_jobs@, name);
    crate::controller::jobs::law_first_active_is_first(seen.restore_jobs@, name);
    crate::controller::jobs::law_first_active_is_first(seen.upgrade_jobs@, name);
    crate::controller::jobs::law_first_active_is_first(seen.backup_jobs@, name);
}

/// The migration job of an instance: none where the status names none or the job is
/// gone, and else what its pods say; a job that cannot be looked at is still active.
pub proof fn law_migration_jobs_tell_the_status(
    instance: &OdooInstance,
    seen: Observation,
    r: ReconcileSnapshot,
)
    requires
        call_ensures(ReconcileSnapshot::gather, (instance, seen), r),
    ensures
        ({
            let named = instance.status matches Some(s) && s.migration_job_name is Some;
            &&& !named ==> r.migration_job == JobStatus::Absent
            &&& named ==> match seen.migration_lookup {
                JobLookup::NotFound => r.migration_job == JobStatus::Absent,
                JobLookup::Unavailable => r.migration_job == JobStatus::Active,
                JobLookup::Found { succeeded, failed, .. } => {
                    let won = succeeded matches Some(n) && n > 0;
                    let lost = failed matches Some(n) && n > 0;
                    r.migration_job == if won {
                        JobStatus::Succeeded
                    } else if lost {
                        JobStatus::Failed
                    } else {
                        JobStatus::Active
                    }
                },
            }
        }),
{
}

/// A job without a time, or with a text that is no time, may run at once; any other
/// may run exactly from its time on.
pub proof fn law_schedules_are_kept(scheduled: &Option<String>, now: Instant, r: bool)
    requires
        call_ensures(scheduled_time_reached_at, (scheduled, now), r),
    ensures
        *scheduled is None ==> r,
        *scheduled matches Some(s) ==> match rfc3339_instant(s@) {
            None => r,
            Some(at) => r == (at.secs < now.secs || (at.secs == now.secs && at.nanos
                <= now.nanos)),
        },
{
}

/// What is not watched from outside is polled every ten seconds: starting, degraded
/// instances and every phase with a job; other phases wait for a change.
pub proof fn law_polling_goes_by_the_phase(
    phase: OdooInstancePhase,
    snapshot: &ReconcileSnapshot,
    now: Instant,
    r: Action,
)
    requires
        call_ensures(requeue_for, (phase, snapshot, now), r),
        snapshot.upgrade_job == JobStatus::Absent,
    ensures
        r == match phase {
            OdooInstancePhase::Starting | OdooInstancePhase::Degraded
            | OdooInstancePhase::Initializing | OdooInstancePhase::Restoring
            | OdooInstancePhase::Upgrading | OdooInstancePhase::BackingUp
            | OdooInstancePhase::MigratingFilestore => (Action::RequeueAfter {
                nanos: 10_000_000_000,
            }),
            _ => Action::AwaitChange,
        },
{
}

/// A cycle takes the transition that its instance is due, in the phase and with the
/// replicas that the instance has, and looks again at once after a transition.
pub proof fn law_cycles_take_the_transition_that_is_due(
    instance: &OdooInstance,
    snapshot: &ReconcileSnapshot,
    now: Instant,
    r: Step,
)
    requires
        call_ensures(run_state_machine_at, (instance, snapshot, now), r),
    ensures
        r.transition matches Some(t) ==> {
            &&& chosen_transition(
                instance.phase(),
                instance.spec.replicas as int,
                *snapshot,
                now,
            ) == Some(t@)
            &&& r.action == (Action::RequeueAfter { nanos: 0 })
        },
        r.transition is None ==> {
            &&& chosen_transition(
                instance.phase(),
                instance.spec.replicas as int,
                *snapshot,
                now,
            ) is None
            &&& snapshot.upgrade_job == JobStatus::Absent && instance.phase()
                == OdooInstancePhase::Running ==> r.action == Action::AwaitChange
        },
{
}

// ── What actions come to ─────────────────────────────────────────────────────

/// Whether an action completes the job of a kind.
pub open spec fn completing(kind: JobKind) -> TransitionAction {
    match kind {
        JobKind::Init => TransitionAction::CompleteInitJob,
        JobKind::Restore => TransitionAction::CompleteRestoreJob,
        JobKind::Upgrade => TransitionAction::CompleteUpgradeJob,
        JobKind::Backup => TransitionAction::CompleteBackupJob,
    }
}

/// Whether an action fails the job of a kind.
pub open spec fn failing(kind: JobKind) -> TransitionAction {
    match kind {
        JobKind::Init => TransitionAction::FailInitJob,
        JobKind::Restore => TransitionAction::FailRestoreJob,
        JobKind::Upgrade => TransitionAction::FailUpgradeJob,
        JobKind::Backup => TransitionAction::FailBackupJob,
    }
}

/// The name of the active job of a kind, and its webhook, if there is such a job.
pub open spec fn active_job(s: ReconcileSnapshot, kind: JobKind) -> Option<
    (Seq<char>, Option<WebhookConfig>),
> {
    match kind {
        JobKind::Init => match s.active_init_job {
            Some(j) => Some((j.metadata.name_text(), j.spec.webhook)),
            None => None,
        },
        JobKind::Restore => match s.active_restore_job {
            Some(j) => Some((j.metadata.name_text(), j.spec.webhook)),
            None => None,
        },
        JobKind::Upgrade => match s.active_upgrade_job {
            Some(j) => Some((j.metadata.name_text(), j.spec.webhook)),
            None => None,
        },
        JobKind::Backup => match s.active_backup_job {
            Some(j) => Some((j.metadata.name_text(), j.spec.webhook)),
            None => None,
        },
    }
}

/// Ending a job writes to the active job of that kind and to no other.  A completed
/// job says so without a message, a failed one says that it failed; both tell the
/// webhook of the job, if it has one, what they write.  Only a completed upgrade
/// restarts the instance.
pub proof fn law_ended_jobs_say_how_they_went(
    kind: JobKind,
    success: bool,
    instance: &OdooInstance,
    snapshot: &ReconcileSnapshot,
    now: &str,
    r: ActionPlan,
)
    requires
        call_ensures(
            execute_action_at,
            (
                if success {
                    completing(kind)
                } else {
                    failing(kind)
                },
                instance,
                snapshot,
                now,
            ),
            r,
        ),
    ensures
        match active_job(*snapshot, kind) {
            None => r is Nothing,
            Some((name, webhook)) => r matches ActionPlan::FinishJob {
                restart,
                patch,
                notification,
            } && {
                &&& patch.kind == kind
                &&& patch.name@ == name
                &&& patch.phase == if success {
                    Phase::Completed
                } else {
                    Phase::Failed
                }
                &&& patch.completion_time@ == now@
                &&& patch.message is None <==> success
                &&& restart is Some <==> success && kind == JobKind::Upgrade
                &&& restart matches Some(n) ==> n@ == instance.metadata.name_text()
                &&& notification is Some <==> webhook is Some
                &&& notification matches Some(n) ==> {
                    &&& Some(n.webhook) == webhook
                    &&& n.phase == patch.phase
                    &&& opt_text(n.message) == opt_text(patch.message)
                    &&& n.completion_time@ == now@
                }
            },
        },
{
}

/// The messages of failed jobs name the kind of job.
pub proof fn law_failures_name_the_job(
    instance: &OdooInstance,
    snapshot: &ReconcileSnapshot,
    now: &str,
    r: ActionPlan,
    kind: JobKind,
)
    requires
        call_ensures(execute_action_at, (failing(kind), instance, snapshot, now), r),
        r is FinishJob,
    ensures
        r matches ActionPlan::FinishJob { patch, .. } && (patch.message matches Some(m) && m@
            == match kind {
            JobKind::Init => "init job failed"@,
            JobKind::Restore => "restore job failed"@,
            JobKind::Upgrade => "upgrade job failed"@,
            JobKind::Backup => "backup job failed"@,
        }),
{
}

/// The actions that are about no job are carried out as they are named; the database
/// is marked as initialised on the instance itself.
pub proof fn law_other_actions_are_themselves(
    action: TransitionAction,
    instance: &OdooInstance,
    snapshot: &ReconcileSnapshot,
    now: &str,
    r: ActionPlan,
)
    requires
        call_ensures(execute_action_at, (action, instance, snapshot, now), r),
    ensures
        action == TransitionAction::MarkDbInitialized ==> (r matches
            ActionPlan::MarkDbInitialized { instance: n } && n@ == instance.metadata.name_text()),
        action == TransitionAction::BeginFilestoreMigration ==> r is BeginFilestoreMigration,
        action == TransitionAction::CompleteFilestoreMigration ==> r is CompleteFilestoreMigration,
        action == TransitionAction::RollbackFilestoreMigration ==> r is RollbackFilestoreMigration,
{
}

/// A cycle goes forward: after the outputs the first action, if there is one, after an
/// action the next, and after the last one the phase is written and the cycle ends.
pub proof fn law_cycles_reach_their_end(
    stage: CycleStage,
    transition: &Option<Transition>,
    r: CycleStage,
)
    requires
        call_ensures(advance_cycle, (stage, true, transition), r),
        *transition matches Some(t) && t.actions@.len() <= usize::MAX,
    ensures
        ({
            let n = (*transition)->0.actions@.len();
            &&& stage == CycleStage::EnsureOutputs ==> r == if n > 0 {
                CycleStage::Perform { index: 0 }
            } else {
                CycleStage::WritePhase
            }
            &&& stage matches CycleStage::Perform { index } ==> r == if index + 1 < n {
                CycleStage::Perform { index: (index + 1) as usize }
            } else {
                CycleStage::WritePhase
            }
            &&& stage == CycleStage::WritePhase ==> r == CycleStage::Finished
        }),
{
}

/// The condition of a transition in words, as the diagram shows it.
pub proof fn law_conditions_are_put_in_words(t: &Transition, r: &'static str)
    requires
        call_ensures(Transition::guard_name, (t,), r),
    ensures
        r@ == match t.guard {
            Guard::DbNotInitialized => "!db_initialized"@,
            Guard::DbInitialized => "db_initialized"@,
            Guard::InitJobPresent => "init_job present"@,
            Guard::InitJobSucceeded => "init_job succeeded"@,
            Guard::InitJobFailed => "init_job failed"@,
            Guard::InitJobAbsent => "init_job absent"@,
            Guard::RestoreJobPresent => "restore_job present"@,
            Guard::RestoreJobSucceeded => "restore_job succeeded"@,
            Guard::RestoreJobFailed => "restore_job failed"@,
            Guard::RestoreJobAbsent => "restore_job absent"@,
            Guard::UpgradeJobReady => "upgrade_job ready"@,
            Guard::UpgradeJobSucceeded => "upgrade_job succeeded"@,
            Guard::UpgradeJobFailed => "upgrade_job failed"@,
            Guard::UpgradeJobAbsent => "upgrade_job absent"@,
            Guard::BackupJobPresent => "backup_job present"@,
            Guard::NoReplicasDesired => "replicas == 0"@,
            Guard::ReplicasDesired => "replicas > 0"@,
            Guard::AllReady => "ready >= desired"@,
            Guard::EnoughReady => "ready >= desired"@,
            Guard::PartlyReady => "ready < desired && ready > 0"@,
            Guard::LostAll => "ready == 0"@,
            Guard::NoneReady => "ready == 0"@,
            Guard::StorageClassMismatch => "storage_class_mismatch"@,
            Guard::BackupSucceededStopped => "backup succeeded && replicas == 0"@,
            Guard::BackupSucceededReady => "backup succeeded && ready >= desired"@,
            Guard::BackupSucceededPartly => "backup succeeded && 0 < ready < desired"@,
            Guard::BackupSucceededNone => "backup succeeded && ready == 0"@,
            Guard::BackupFailedStopped => "backup failed && replicas == 0"@,
            Guard::BackupFailedReady => "backup failed && ready >= desired"@,
            Guard::BackupFailedPartly => "backup failed && 0 < ready < desired"@,
            Guard::BackupFailedNone => "backup failed && ready == 0"@,
            Guard::BackupAbsentStopped => "backup absent && replicas == 0"@,
            Guard::BackupAbsentReady => "backup absent && ready >= desired"@,
            Guard::BackupAbsentPartly => "backup absent && 0 < ready < desired"@,
            Guard::BackupAbsentNone => "backup absent && ready == 0"@,
            Guard::MigrationSucceededStart => "migration_job succeeded && replicas > 0"@,
            Guard::MigrationSucceededStop => "migration_job succeeded && replicas == 0"@,
            Guard::MigrationLostStart => "migration_job failed/absent && replicas > 0"@,
            Guard::MigrationLostStop => "migration_job failed/absent && replicas == 0"@,
        },
{
}

/// The transition that is due is the one that a cycle takes.
pub proof fn law_cycles_and_lookups_agree(
    instance: &OdooInstance,
    snapshot: &ReconcileSnapshot,
    now: Instant,
    step: Step,
    next: Option<Transition>,
)
    requires
        call_ensures(run_state_machine_at, (instance, snapshot, now), step),
        call_ensures(
            next_transition_at,
            (instance.phase(), instance.spec.replicas, snapshot, now),
            next,
        ),
    ensures
        step.transition is Some <==> next is Some,
        step.transition matches Some(a) ==> a.from == next->0.from && a.to == next->0.to
            && a.actions@ == next->0.actions@ && a.guard == next->0.guard,
{
    if let Some(a) = step.transition {
        let b = next->0;
        assert(a@ == b@);
        assert(a@.actions == a.actions@ && b@.actions == b.actions@);
    }
}

/// Without an upgrade job the time does not matter: a cycle takes the same transition at
/// every time, and looks again at the same time.
pub proof fn law_only_upgrades_go_by_the_clock(
    instance: &OdooInstance,
    snapshot: &ReconcileSnapshot,
    now: Instant,
    at: Step,
    whenever: Step,
)
    requires
        call_ensures(run_state_machine_at, (instance, snapshot, now), at),
        call_ensures(run_state_machine, (instance, snapshot), whenever),
        snapshot.upgrade_job == JobStatus::Absent,
    ensures
        at.transition is Some <==> whenever.transition is Some,
        at.transition matches Some(a) ==> a@ == whenever.transition->0@,
        at.action == whenever.action,
{
    let other = choose|other: Instant| #[trigger] is_step(whenever, *instance, *snapshot, other);
    lemma_the_clock_does_not_matter(
        rows_from(instance.phase()),
        instance.spec.replicas as int,
        *snapshot,
        now,
        other,
    );
}

proof fn lemma_the_clock_does_not_matter(
    rows: Seq<TransitionView>,
    desired: int,
    s: ReconcileSnapshot,
    a: Instant,
    b: Instant,
)
    requires
        s.upgrade_job == JobStatus::Absent,
    ensures
        first_enabled(rows, desired, s, a) == first_enabled(rows, desired, s, b),
    decreases rows.len(),
{
    if rows.len() > 0 {
        lemma_the_clock_does_not_matter(rows.drop_first(), desired, s, a, b);
        assert(rows[0].guard.holds(desired, s, a) == rows[0].guard.holds(desired, s, b));
    }
}

/// An upgrade may begin exactly if there is an upgrade job whose time, if it has one, has
/// come; the instance is looked at again when that time comes.
pub proof fn law_upgrades_wait_for_their_time(
    snapshot: &ReconcileSnapshot,
    now: Instant,
    ready: bool,
    wait: Option<u128>,
    whenever: bool,
)
    requires
        call_ensures(ReconcileSnapshot::upgrade_job_ready_at, (snapshot, now), ready),
        call_ensures(scheduled_requeue, (snapshot, now), wait),
        call_ensures(ReconcileSnapshot::upgrade_job_ready, (snapshot,), whenever),
        now.nanos < 1_000_000_000,
    ensures
        ({
            let early = snapshot.active_upgrade_job matches Some(j) && (
            j.spec.scheduled_time matches Some(t) && (rfc3339_instant(t@) matches Some(at) && (
            at.secs > now.secs || (at.secs == now.secs && at.nanos > now.nanos))));
            &&& ready <==> snapshot.upgrade_job != JobStatus::Absent && !early
            &&& wait is Some <==> snapshot.upgrade_job != JobStatus::Absent && early
            &&& wait matches Some(d) ==> {
                let at = rfc3339_instant(
                    snapshot.active_upgrade_job->0.spec.scheduled_time->0@,
                )->0;
                at.nanos < 1_000_000_000 ==> d == (at.secs - now.secs) * 1_000_000_000 + at.nanos
                    - now.nanos
            }
        }),
        snapshot.upgrade_job == JobStatus::Absent ==> !whenever,
        snapshot.upgrade_job != JobStatus::Absent && snapshot.active_upgrade_job is None
            ==> whenever,
{
}

/// What an action comes to does not depend on the time, but for the times that it writes.
pub proof fn law_actions_only_write_the_time(
    action: TransitionAction,
    instance: &OdooInstance,
    snapshot: &ReconcileSnapshot,
    now: &str,
    at: ActionPlan,
    whenever: ActionPlan,
)
    requires
        call_ensures(execute_action_at, (action, instance, snapshot, now), at),
        call_ensures(execute_action, (action, instance, snapshot), whenever),
    ensures
        at is Nothing <==> whenever is Nothing,
        at is FinishJob <==> whenever is FinishJob,
        at is MarkDbInitialized <==> whenever is MarkDbInitialized,
        at is BeginFilestoreMigration <==> whenever is BeginFilestoreMigration,
        at is CompleteFilestoreMigration <==> whenever is CompleteFilestoreMigration,
        at is RollbackFilestoreMigration <==> whenever is RollbackFilestoreMigration,
        at matches ActionPlan::MarkDbInitialized { instance: a } ==> (whenever matches
            ActionPlan::MarkDbInitialized { instance: b } && a@ == b@),
        at matches ActionPlan::FinishJob { restart: r1, patch: p1, notification: n1 } ==> (
        whenever matches ActionPlan::FinishJob { restart: r2, patch: p2, notification: n2 } && {
            &&& opt_text(r1) == opt_text(r2)
            &&& p1.kind == p2.kind && p1.name@ == p2.name@ && p1.phase == p2.phase
            &&& opt_text(p1.message) == opt_text(p2.message)
            &&& is_clock_text(p2.completion_time@)
            &&& n1 is Some <==> n2 is Some
            &&& n1 matches Some(a) ==> (n2 matches Some(b) && a.webhook == b.webhook && a.phase
                == b.phase && a.job_name == b.job_name && opt_text(a.message) == opt_text(b.message)
                && b.completion_time@ == p2.completion_time@)
        }),
{
    let t = choose|t: Seq<char>|
        is_clock_text(t) && #[trigger] is_plan(whenever, action, *instance, *snapshot, t);
    assert(is_plan(at, action, *instance, *snapshot, now@));
}

/// The notification about a job names the batch job that its status names.
pub proof fn law_notifications_name_the_batch_job(
    instance: &OdooInstance,
    snapshot: &ReconcileSnapshot,
    now: &str,
    r: ActionPlan,
)
    requires
        call_ensures(
            execute_action_at,
            (TransitionAction::CompleteBackupJob, instance, snapshot, now),
            r,
        ),
    ensures
        r matches ActionPlan::FinishJob { notification: Some(n), .. } ==> n.job_name
            == match snapshot.active_backup_job->0.status {
            Some(s) => s.job_name,
            None => None,
        },
{
}

/// The job of a kind that counts is the first one of the instance that has not come to its
/// end, and there is one wherever there is such a job.
pub proof fn law_the_first_unfinished_job_counts(
    instance: &OdooInstance,
    seen: Observation,
    r: ReconcileSnapshot,
)
    requires
        call_ensures(ReconcileSnapshot::gather, (instance, seen), r),
    ensures
        is_first_unfinished(r.active_init_job, seen.init_jobs@, instance.metadata.name_text()),
        is_first_unfinished(
            r.active_restore_job,
            seen.restore_jobs@,
            instance.metadata.name_text(),
        ),
        is_first_unfinished(
            r.active_upgrade_job,
            seen.upgrade_jobs@,
            instance.metadata.name_text(),
        ),
        is_first_unfinished(r.active_backup_job, seen.backup_jobs@, instance.metadata.name_text()),
{
    let name = instance.metadata.name_text();
    lemma_first_unfinished(seen.init_jobs@, name);
    lemma_first_unfinished(seen.restore_jobs@, name);
    lemma_first_unfinished(seen.upgrade_jobs@, name);
    lemma_first_unfinished(seen.backup_jobs@, name);
}

/// Whether a job is the first one of an instance that has not come to its end, or none is
/// where there is none.
pub open spec fn is_first_unfinished<J: JobResource>(
    job: Option<J>,
    jobs: Seq<J>,
    instance: Seq<char>,
) -> bool {
    match job {
        Some(j) => exists|i: int| #[trigger] is_unfinished_at(jobs, instance, i) && jobs[i] == j
            && forall|k: int| 0 <= k < i ==> !(#[trigger] is_unfinished_at(jobs, instance, k)),
        None => forall|i: int| !(#[trigger] is_unfinished_at(jobs, instance, i)),
    }
}

/// Whether the job at a place is one of an instance that has neither completed nor failed.
pub open spec fn is_unfinished_at<J: JobResource>(
    jobs: Seq<J>,
    instance: Seq<char>,
    i: int,
) -> bool {
    &&& 0 <= i < jobs.len()
    &&& jobs[i].target() == instance
    &&& jobs[i].phase() != Some(Phase::Completed)
    &&& jobs[i].phase() != Some(Phase::Failed)
}

proof fn lemma_first_unfinished<J: JobResource>(jobs: Seq<J>, instance: Seq<char>)
    ensures
        is_first_unfinished(active_of(jobs, instance), jobs, instance),
{
    crate::controller::jobs::law_first_active_is_first(jobs, instance);
    match first_active(jobs, instance) {
        Some(i) => {
            assert(is_unfinished_at(jobs, instance, i));
            assert forall|k: int| 0 <= k < i implies !(#[trigger] is_unfinished_at(
                jobs,
                instance,
                k,
            )) by {
                assert(!crate::controller::jobs::is_active_for(jobs[k], instance));
            }
        },
        None => {
            assert forall|k: int| !(#[trigger] is_unfinished_at(jobs, instance, k)) by {
                if 0 <= k < jobs.len() {
                    assert(!crate::controller::jobs::is_active_for(jobs[k], instance));
                }
            }
        },
    }
}

/// A job without a time may run whenever it is looked at, and so may one with a text that is
/// no time; a job that may run at one time may run at every later one.
pub proof fn law_times_that_have_come_stay(
    scheduled: &Option<String>,
    now: Instant,
    later: Instant,
    r: bool,
    then: bool,
    whenever: bool,
)
    requires
        call_ensures(scheduled_time_reached_at, (scheduled, now), r),
        call_ensures(scheduled_time_reached_at, (scheduled, later), then),
        call_ensures(scheduled_time_reached, (scheduled,), whenever),
        now.secs < later.secs,
    ensures
        r ==> then,
        *scheduled is None ==> whenever,
        *scheduled matches Some(s) ==> rfc3339_instant(s@) is None ==> whenever,
{
}

/// A cycle without a transition is over once the outputs are in place, and a failure ends
/// every cycle.
pub proof fn law_idle_cycles_end(
    transition: &Option<Transition>,
    stage: CycleStage,
    r: CycleStage,
    failed: CycleStage,
)
    requires
        call_ensures(advance_cycle, (CycleStage::EnsureOutputs, true, transition), r),
        call_ensures(advance_cycle, (stage, false, transition), failed),
    ensures
        *transition is None ==> r == CycleStage::Finished,
        stage != CycleStage::Finished ==> failed == CycleStage::Failed,
        stage == CycleStage::Finished ==> failed == CycleStage::Finished,
{
}

} // verus!
