//! The lifecycle of an instance.

use odoo_operator::controller::jobs::{
    any_completed, batch_job_to_look_up, find_active, JobKind, JobResource,
};
use odoo_operator::controller::state_machine::{
    advance_cycle, execute_action, execute_action_at, next_transition_at, requeue_for,
    resolve_job_status, run_state_machine, run_state_machine_at, scheduled_requeue,
    scheduled_time_reached, scheduled_time_reached_at, transitions, transitions_from, Action,
    ActionPlan, CycleStage, DeploymentReplicas, Guard, JobLookup, JobStatus, Observation,
    ReconcileSnapshot, TransitionAction, POLL_NANOS,
};
use odoo_operator::crd::meta::ObjectMeta;
use odoo_operator::crd::odoo_backup_job::{BackupDestination, OdooBackupJob, OdooBackupJobSpec};
use odoo_operator::crd::odoo_init_job::{OdooInitJob, OdooInitJobSpec};
use odoo_operator::crd::odoo_instance::{
    FilestoreSpec, OdooInstance, OdooInstancePhase, OdooInstanceSpec, OdooInstanceStatus,
};
use odoo_operator::crd::odoo_restore_job::{
    OdooRestoreJob, OdooRestoreJobSpec, RestoreSource, RestoreSourceType,
};
use odoo_operator::crd::odoo_upgrade_job::{OdooUpgradeJob, OdooUpgradeJobSpec};
use odoo_operator::crd::shared::{
    BackupFormat, JobResourceStatus, OdooInstanceRef, Phase, WebhookConfig,
};
use odoo_operator::helpers::Instant;

const NOW: Instant = Instant { secs: 1_767_225_600, nanos: 0 };

fn instance(phase: Option<OdooInstancePhase>, replicas: i32) -> OdooInstance {
    let spec = OdooInstanceSpec::minimal("admin", replicas, vec!["a.example.com".to_string()]);
    let mut inst = OdooInstance::new("prod", spec);
    inst.metadata.namespace = Some("erp".to_string());
    inst.metadata.uid = Some("u-1".to_string());
    let mut status = OdooInstanceStatus::default();
    status.phase = phase;
    inst.status = Some(status);
    inst
}

fn quiet() -> ReconcileSnapshot {
    ReconcileSnapshot {
        ready_replicas: 0,
        deployment_replicas: 0,
        cron_ready_replicas: 0,
        cron_deployment_replicas: 0,
        db_initialized: true,
        init_job: JobStatus::Absent,
        restore_job: JobStatus::Absent,
        upgrade_job: JobStatus::Absent,
        backup_job: JobStatus::Absent,
        active_init_job: None,
        active_restore_job: None,
        active_upgrade_job: None,
        active_backup_job: None,
        storage_class_mismatch: false,
        actual_storage_class: None,
        migration_job: JobStatus::Absent,
    }
}

fn reference(name: &str) -> OdooInstanceRef {
    OdooInstanceRef { name: name.to_string(), namespace: None }
}

fn status(phase: Option<Phase>, job: Option<&str>) -> Option<JobResourceStatus> {
    let mut s = JobResourceStatus::default();
    s.phase = phase;
    s.job_name = job.map(|j| j.to_string());
    Some(s)
}

fn hook() -> Option<WebhookConfig> {
    Some(WebhookConfig {
        url: "https://hook".to_string(),
        token: None,
        secret_token_secret_ref: None,
    })
}

fn init_job(name: &str, instance: &str, phase: Option<Phase>, job: Option<&str>) -> OdooInitJob {
    OdooInitJob {
        metadata: ObjectMeta::named(name),
        spec: OdooInitJobSpec {
            odoo_instance_ref: reference(instance),
            modules: vec![],
            demo: false,
            webhook: hook(),
        },
        status: status(phase, job),
    }
}

fn restore_job(name: &str, phase: Option<Phase>) -> OdooRestoreJob {
    OdooRestoreJob {
        metadata: ObjectMeta::named(name),
        spec: OdooRestoreJobSpec {
            odoo_instance_ref: reference("prod"),
            source: RestoreSource { source_type: RestoreSourceType::S3, s3: None, odoo: None },
            format: BackupFormat::Zip,
            neutralize: true,
            webhook: hook(),
        },
        status: status(phase, Some("restore-x")),
    }
}

fn upgrade_job(name: &str, at: Option<&str>) -> OdooUpgradeJob {
    OdooUpgradeJob {
        metadata: ObjectMeta::named(name),
        spec: OdooUpgradeJobSpec {
            odoo_instance_ref: reference("prod"),
            modules: vec![],
            modules_install: vec![],
            scheduled_time: at.map(|t| t.to_string()),
            webhook: None,
        },
        status: None,
    }
}

fn backup_job(name: &str, namespace: Option<&str>) -> OdooBackupJob {
    let mut metadata = ObjectMeta::named(name);
    metadata.namespace = namespace.map(|n| n.to_string());
    OdooBackupJob {
        metadata,
        spec: OdooBackupJobSpec {
            odoo_instance_ref: reference("prod"),
            destination: BackupDestination {
                bucket: "b".to_string(),
                object_key: "k".to_string(),
                endpoint: "e".to_string(),
                region: None,
                insecure: false,
                s3_credentials_secret_ref: None,
            },
            format: BackupFormat::Zip,
            with_filestore: true,
            webhook: hook(),
        },
        status: None,
    }
}

fn nothing_seen() -> Observation {
    Observation {
        web: None,
        cron: None,
        init_jobs: vec![],
        restore_jobs: vec![],
        upgrade_jobs: vec![],
        backup_jobs: vec![],
        init_lookup: JobLookup::NotFound,
        restore_lookup: JobLookup::NotFound,
        upgrade_lookup: JobLookup::NotFound,
        backup_lookup: JobLookup::NotFound,
        claim: None,
        migration_lookup: JobLookup::NotFound,
    }
}

fn found(succeeded: i32, failed: i32, deleting: bool) -> JobLookup {
    JobLookup::Found { succeeded: Some(succeeded), failed: Some(failed), deleting }
}

fn next(from: OdooInstancePhase, replicas: i32, s: &ReconcileSnapshot) -> Option<OdooInstancePhase> {
    next_transition_at(from, replicas, s, NOW).map(|t| t.to)
}

#[test]
fn job_statuses_are_resolved() {
    let named = Some("j".to_string());
    assert_eq!(resolve_job_status(false, &named, found(1, 0, false)), JobStatus::Absent);
    assert_eq!(resolve_job_status(true, &None, JobLookup::NotFound), JobStatus::Active);
    assert_eq!(resolve_job_status(true, &named, found(1, 1, true)), JobStatus::Succeeded);
    assert_eq!(resolve_job_status(true, &named, found(0, 1, false)), JobStatus::Failed);
    assert_eq!(resolve_job_status(true, &named, found(0, 0, true)), JobStatus::Failed);
    assert_eq!(resolve_job_status(true, &named, found(0, 0, false)), JobStatus::Active);
    assert_eq!(resolve_job_status(true, &named, JobLookup::NotFound), JobStatus::Failed);
    assert_eq!(resolve_job_status(true, &named, JobLookup::Unavailable), JobStatus::Active);
    assert!(JobStatus::Failed.is_present());
    assert!(!JobStatus::Absent.is_present());
}

#[test]
fn schedules_are_reached() {
    assert!(scheduled_time_reached_at(&None, NOW));
    assert!(scheduled_time_reached_at(&Some("tomorrow".to_string()), NOW));
    assert!(scheduled_time_reached_at(&Some("2026-01-01T00:00:00Z".to_string()), NOW));
    assert!(!scheduled_time_reached_at(&Some("2026-01-01T00:00:01Z".to_string()), NOW));
    assert!(scheduled_time_reached(&Some("2000-01-01T00:00:00Z".to_string())));
    assert!(!scheduled_time_reached(&Some("9999-01-01T00:00:00Z".to_string())));
}

#[test]
fn jobs_are_found_by_instance() {
    let jobs = vec![
        init_job("other", "test", None, None),
        init_job("done", "prod", Some(Phase::Completed), Some("done-x")),
        init_job("failed", "prod", Some(Phase::Failed), None),
        init_job("pending", "prod", Some(Phase::Pending), Some("pending-x")),
        init_job("later", "prod", None, None),
    ];
    assert_eq!(find_active(&jobs, "prod"), Some(3));
    assert_eq!(find_active(&jobs, "none"), None);
    assert!(any_completed(&jobs, "prod"));
    assert!(!any_completed(&jobs, "test"));
    assert_eq!(batch_job_to_look_up(&jobs, "prod").as_deref(), Some("pending-x"));
    assert_eq!(batch_job_to_look_up(&jobs, "test"), None);
}

#[test]
fn jobs_lead_to_their_instance() {
    let own = backup_job("b", Some("erp"));
    assert_eq!(own.instance_key(), Some(("erp".to_string(), "prod".to_string())));
    let mut foreign = backup_job("b", Some("erp"));
    foreign.spec.odoo_instance_ref.namespace = Some("other".to_string());
    assert_eq!(foreign.instance_key(), Some(("other".to_string(), "prod".to_string())));
    assert_eq!(backup_job("b", None).instance_key(), None);
}

#[test]
fn snapshots_hold_what_was_seen() {
    let mut inst = instance(None, 2);
    inst.spec.filestore = Some(FilestoreSpec {
        storage_size: None,
        storage_class: Some("juicefs".to_string()),
    });
    if let Some(s) = &mut inst.status {
        s.migration_job_name = Some("m".to_string());
    }
    let seen = Observation {
        web: Some(DeploymentReplicas { desired: Some(2), ready: None }),
        cron: Some(DeploymentReplicas { desired: None, ready: Some(1) }),
        init_jobs: vec![init_job("i", "prod", Some(Phase::Running), Some("i-x"))],
        restore_jobs: vec![restore_job("r", Some(Phase::Completed))],
        upgrade_jobs: vec![upgrade_job("u", None)],
        backup_jobs: vec![backup_job("b", None)],
        init_lookup: found(0, 1, false),
        claim: Some(Some("cephfs".to_string())),
        migration_lookup: found(0, 0, true),
        ..nothing_seen()
    };
    let s = ReconcileSnapshot::gather(&inst, seen);
    assert_eq!((s.deployment_replicas, s.ready_replicas), (2, 0));
    assert_eq!((s.cron_deployment_replicas, s.cron_ready_replicas), (0, 1));
    assert!(s.db_initialized);
    assert_eq!(s.init_job, JobStatus::Failed);
    assert_eq!(s.restore_job, JobStatus::Absent);
    assert_eq!(s.upgrade_job, JobStatus::Active);
    assert_eq!(s.backup_job, JobStatus::Active);
    assert!(s.active_init_job.is_some());
    assert!(s.active_restore_job.is_none());
    assert!(s.storage_class_mismatch);
    assert_eq!(s.actual_storage_class.as_deref(), Some("cephfs"));
    assert_eq!(s.migration_job, JobStatus::Active);
}

#[test]
fn unknown_classes_are_no_mismatch() {
    let inst = instance(None, 1);
    let seen = Observation { claim: Some(Some("cephfs".to_string())), ..nothing_seen() };
    let s = ReconcileSnapshot::gather(&inst, seen);
    assert!(!s.storage_class_mismatch);
    assert!(!s.db_initialized);
    assert_eq!(s.migration_job, JobStatus::Absent);
    let s = ReconcileSnapshot::gather(&inst, nothing_seen());
    assert_eq!(s.actual_storage_class, None);
}

#[test]
fn the_database_decides_the_entry() {
    let s = quiet();
    assert_eq!(next(OdooInstancePhase::Provisioning, 1, &s), Some(OdooInstancePhase::Starting));
    assert_eq!(next(OdooInstancePhase::Error, 1, &s), Some(OdooInstancePhase::Starting));
    let s = ReconcileSnapshot { db_initialized: false, ..quiet() };
    assert_eq!(
        next(OdooInstancePhase::Provisioning, 1, &s),
        Some(OdooInstancePhase::Uninitialized)
    );
    assert_eq!(next(OdooInstancePhase::Error, 1, &s), Some(OdooInstancePhase::Uninitialized));
}

#[test]
fn initialisation_runs_its_course() {
    let s = ReconcileSnapshot { init_job: JobStatus::Active, ..quiet() };
    assert_eq!(
        next(OdooInstancePhase::Uninitialized, 1, &s),
        Some(OdooInstancePhase::Initializing)
    );
    assert_eq!(next(OdooInstancePhase::Initializing, 1, &s), None);
    let s = ReconcileSnapshot { init_job: JobStatus::Succeeded, ..quiet() };
    let t = next_transition_at(OdooInstancePhase::Initializing, 1, &s, NOW).unwrap();
    assert_eq!(t.to, OdooInstancePhase::Starting);
    assert_eq!(
        t.actions,
        vec![TransitionAction::CompleteInitJob, TransitionAction::MarkDbInitialized]
    );
    assert_eq!(t.guard_name(), "init_job succeeded");
    let s = ReconcileSnapshot { init_job: JobStatus::Failed, ..quiet() };
    let t = next_transition_at(OdooInstancePhase::Initializing, 1, &s, NOW).unwrap();
    assert_eq!(t.to, OdooInstancePhase::InitFailed);
    assert_eq!(t.actions, vec![TransitionAction::FailInitJob]);
    assert_eq!(
        next(OdooInstancePhase::Initializing, 1, &quiet()),
        Some(OdooInstancePhase::Uninitialized)
    );
    assert_eq!(
        next(OdooInstancePhase::InitFailed, 1, &s),
        Some(OdooInstancePhase::Initializing)
    );
}

#[test]
fn replicas_decide_between_running_and_degraded() {
    let ready = |n: i32| ReconcileSnapshot { ready_replicas: n, ..quiet() };
    assert_eq!(next(OdooInstancePhase::Starting, 2, &ready(2)), Some(OdooInstancePhase::Running));
    assert_eq!(next(OdooInstancePhase::Starting, 2, &ready(1)), None);
    assert_eq!(next(OdooInstancePhase::Starting, 0, &ready(1)), Some(OdooInstancePhase::Stopped));
    assert_eq!(next(OdooInstancePhase::Running, 2, &ready(2)), None);
    assert_eq!(next(OdooInstancePhase::Running, 2, &ready(1)), Some(OdooInstancePhase::Degraded));
    assert_eq!(next(OdooInstancePhase::Running, 2, &ready(0)), Some(OdooInstancePhase::Starting));
    assert_eq!(next(OdooInstancePhase::Running, 0, &ready(2)), Some(OdooInstancePhase::Stopped));
    assert_eq!(next(OdooInstancePhase::Degraded, 2, &ready(2)), Some(OdooInstancePhase::Running));
    assert_eq!(next(OdooInstancePhase::Degraded, 2, &ready(0)), Some(OdooInstancePhase::Starting));
    assert_eq!(next(OdooInstancePhase::Degraded, 2, &ready(1)), None);
    assert_eq!(next(OdooInstancePhase::Stopped, 1, &ready(0)), Some(OdooInstancePhase::Starting));
    assert_eq!(next(OdooInstancePhase::Stopped, 0, &ready(0)), None);
}

#[test]
fn migrations_come_before_everything_else() {
    let s = ReconcileSnapshot {
        storage_class_mismatch: true,
        restore_job: JobStatus::Active,
        ..quiet()
    };
    for from in [
        OdooInstancePhase::Running,
        OdooInstancePhase::Degraded,
        OdooInstancePhase::Stopped,
    ] {
        let t = next_transition_at(from, 0, &s, NOW).unwrap();
        assert_eq!(t.to, OdooInstancePhase::MigratingFilestore);
        assert_eq!(t.actions, vec![TransitionAction::BeginFilestoreMigration]);
    }
    assert_eq!(next(OdooInstancePhase::Starting, 1, &s), Some(OdooInstancePhase::Restoring));
}

#[test]
fn migrations_wait_for_their_job() {
    let with = |j: JobStatus| ReconcileSnapshot { migration_job: j, ..quiet() };
    let from = OdooInstancePhase::MigratingFilestore;
    assert_eq!(next(from, 1, &with(JobStatus::Active)), None);
    let t = next_transition_at(from, 1, &with(JobStatus::Succeeded), NOW).unwrap();
    assert_eq!(t.to, OdooInstancePhase::Starting);
    assert_eq!(t.actions, vec![TransitionAction::CompleteFilestoreMigration]);
    let t = next_transition_at(from, 0, &with(JobStatus::Absent), NOW).unwrap();
    assert_eq!(t.to, OdooInstancePhase::Stopped);
    assert_eq!(t.actions, vec![TransitionAction::RollbackFilestoreMigration]);
    assert_eq!(next(from, -1, &with(JobStatus::Failed)), None);
}

#[test]
fn backups_end_where_the_replicas_say() {
    let with = |j: JobStatus, ready: i32| ReconcileSnapshot {
        backup_job: j,
        ready_replicas: ready,
        ..quiet()
    };
    let from = OdooInstancePhase::BackingUp;
    assert_eq!(next(from, 2, &with(JobStatus::Active, 2)), None);
    let t = next_transition_at(from, 2, &with(JobStatus::Succeeded, 2), NOW).unwrap();
    assert_eq!(t.to, OdooInstancePhase::Running);
    assert_eq!(t.actions, vec![TransitionAction::CompleteBackupJob]);
    let t = next_transition_at(from, 2, &with(JobStatus::Failed, 1), NOW).unwrap();
    assert_eq!(t.to, OdooInstancePhase::Degraded);
    assert_eq!(t.actions, vec![TransitionAction::FailBackupJob]);
    assert_eq!(next(from, 2, &with(JobStatus::Failed, 0)), Some(OdooInstancePhase::Starting));
    assert_eq!(next(from, 0, &with(JobStatus::Succeeded, 0)), Some(OdooInstancePhase::Stopped));
    let t = next_transition_at(from, 0, &with(JobStatus::Absent, 0), NOW).unwrap();
    assert_eq!(t.to, OdooInstancePhase::Stopped);
    assert!(t.actions.is_empty());
}

#[test]
fn upgrades_wait_for_their_time() {
    let due = ReconcileSnapshot {
        upgrade_job: JobStatus::Active,
        active_upgrade_job: Some(upgrade_job("u", Some("2026-01-01T00:00:00Z"))),
        ready_replicas: 1,
        ..quiet()
    };
    assert!(due.upgrade_job_ready_at(NOW));
    assert!(due.upgrade_job_ready());
    assert_eq!(next(OdooInstancePhase::Running, 1, &due), Some(OdooInstancePhase::Upgrading));
    let later = ReconcileSnapshot {
        upgrade_job: JobStatus::Active,
        active_upgrade_job: Some(upgrade_job("u", Some("2026-01-01T00:01:00.25Z"))),
        ready_replicas: 1,
        ..quiet()
    };
    assert!(!later.upgrade_job_ready_at(NOW));
    assert_eq!(next(OdooInstancePhase::Running, 1, &later), None);
    assert_eq!(
        requeue_for(OdooInstancePhase::Running, &later, NOW),
        Action::RequeueAfter { nanos: 60_250_000_000 }
    );
    assert!(!quiet().upgrade_job_ready_at(NOW));
}

#[test]
fn upgrades_end_in_starting() {
    let with = |j: JobStatus| ReconcileSnapshot { upgrade_job: j, ..quiet() };
    let t = next_transition_at(OdooInstancePhase::Upgrading, 1, &with(JobStatus::Succeeded), NOW);
    assert_eq!(t.unwrap().actions, vec![TransitionAction::CompleteUpgradeJob]);
    let t = next_transition_at(OdooInstancePhase::Upgrading, 1, &with(JobStatus::Failed), NOW);
    assert_eq!(t.unwrap().actions, vec![TransitionAction::FailUpgradeJob]);
    let t = next_transition_at(OdooInstancePhase::Upgrading, 1, &quiet(), NOW).unwrap();
    assert_eq!(t.to, OdooInstancePhase::Starting);
    assert!(t.actions.is_empty());
    assert_eq!(next(OdooInstancePhase::Upgrading, 1, &with(JobStatus::Active)), None);
}

#[test]
fn restores_initialise_the_database() {
    let s = ReconcileSnapshot { restore_job: JobStatus::Succeeded, ..quiet() };
    let t = next_transition_at(OdooInstancePhase::Restoring, 1, &s, NOW).unwrap();
    assert_eq!(
        t.actions,
        vec![TransitionAction::CompleteRestoreJob, TransitionAction::MarkDbInitialized]
    );
    let s = ReconcileSnapshot { restore_job: JobStatus::Failed, ..quiet() };
    let t = next_transition_at(OdooInstancePhase::Restoring, 1, &s, NOW).unwrap();
    assert_eq!(t.actions, vec![TransitionAction::FailRestoreJob]);
}

#[test]
fn waiting_phases_are_polled() {
    for phase in [
        OdooInstancePhase::Starting,
        OdooInstancePhase::Initializing,
        OdooInstancePhase::Restoring,
        OdooInstancePhase::Upgrading,
        OdooInstancePhase::BackingUp,
        OdooInstancePhase::Degraded,
        OdooInstancePhase::MigratingFilestore,
    ] {
        assert_eq!(requeue_for(phase, &quiet(), NOW), Action::RequeueAfter { nanos: POLL_NANOS });
    }
    for phase in [
        OdooInstancePhase::Provisioning,
        OdooInstancePhase::Uninitialized,
        OdooInstancePhase::InitFailed,
        OdooInstancePhase::Running,
        OdooInstancePhase::Stopped,
        OdooInstancePhase::Error,
    ] {
        assert_eq!(requeue_for(phase, &quiet(), NOW), Action::AwaitChange);
    }
}

#[test]
fn cycles_start_from_the_recorded_phase() {
    let s = ReconcileSnapshot { ready_replicas: 1, ..quiet() };
    let step = run_state_machine_at(&instance(Some(OdooInstancePhase::Running), 1), &s, NOW);
    assert!(step.transition.is_none());
    assert_eq!(step.action, Action::AwaitChange);
    let step = run_state_machine_at(&instance(None, 1), &s, NOW);
    assert_eq!(step.transition.unwrap().to, OdooInstancePhase::Starting);
    assert_eq!(step.action, Action::RequeueAfter { nanos: 0 });
    let step = run_state_machine(&instance(Some(OdooInstancePhase::Starting), 2), &s);
    assert!(step.transition.is_none());
    assert_eq!(step.action, Action::RequeueAfter { nanos: POLL_NANOS });
}

#[test]
fn rows_of_a_phase_are_consecutive() {
    let all = transitions();
    let mut rows = 0;
    for phase in [
        OdooInstancePhase::Provisioning,
        OdooInstancePhase::Uninitialized,
        OdooInstancePhase::Initializing,
        OdooInstancePhase::InitFailed,
        OdooInstancePhase::Starting,
        OdooInstancePhase::Running,
        OdooInstancePhase::Degraded,
        OdooInstancePhase::BackingUp,
        OdooInstancePhase::Upgrading,
        OdooInstancePhase::Restoring,
        OdooInstancePhase::Stopped,
        OdooInstancePhase::MigratingFilestore,
        OdooInstancePhase::Error,
    ] {
        for t in transitions_from(phase) {
            assert_eq!(all[rows].from, phase);
            assert_eq!(all[rows].to, t.to);
            assert_eq!(all[rows].guard, t.guard);
            assert_ne!(t.from, t.to);
            rows += 1;
        }
    }
    assert_eq!(rows, all.len());
    assert_eq!(rows, 56);
}

#[test]
fn guards_have_names() {
    assert_eq!(Guard::DbNotInitialized.name(), "!db_initialized");
    assert_eq!(Guard::UpgradeJobReady.name(), "upgrade_job ready");
    assert_eq!(Guard::PartlyReady.name(), "ready < desired && ready > 0");
    assert_eq!(
        Guard::MigrationLostStop.name(),
        "migration_job failed/absent && replicas == 0"
    );
    assert!(Guard::NoReplicasDesired.check(0, &quiet(), NOW));
    assert!(!Guard::ReplicasDesired.check(0, &quiet(), NOW));
}

#[test]
fn finished_jobs_are_patched_and_announced() {
    let inst = instance(Some(OdooInstancePhase::Restoring), 1);
    let s = ReconcileSnapshot {
        active_restore_job: Some(restore_job("r", Some(Phase::Running))),
        ..quiet()
    };
    match execute_action_at(TransitionAction::FailRestoreJob, &inst, &s, "2026-01-01 00:00:00") {
        ActionPlan::FinishJob { restart, patch, notification } => {
            assert_eq!(restart, None);
            assert_eq!(patch.kind, JobKind::Restore);
            assert_eq!(patch.name, "r");
            assert_eq!(patch.phase, Phase::Failed);
            assert_eq!(patch.completion_time, "2026-01-01 00:00:00");
            assert_eq!(patch.message.as_deref(), Some("restore job failed"));
            let n = notification.unwrap();
            assert_eq!(n.webhook.url, "https://hook");
            assert_eq!(n.phase, Phase::Failed);
            assert_eq!(n.job_name.as_deref(), Some("restore-x"));
            assert_eq!(n.message.as_deref(), Some("restore job failed"));
            assert_eq!(n.completion_time, "2026-01-01 00:00:00");
        }
        _ => panic!("the restore job is finished"),
    }
}

#[test]
fn init_jobs_notify_their_webhook() {
    let inst = instance(Some(OdooInstancePhase::Initializing), 1);
    let s = ReconcileSnapshot {
        active_init_job: Some(init_job("i", "prod", Some(Phase::Running), Some("i-x"))),
        ..quiet()
    };
    match execute_action_at(TransitionAction::FailInitJob, &inst, &s, "t") {
        ActionPlan::FinishJob { restart, patch, notification } => {
            assert!(restart.is_none());
            assert_eq!(patch.kind, JobKind::Init);
            assert_eq!(patch.phase, Phase::Failed);
            assert_eq!(patch.message.as_deref(), Some("init job failed"));
            let n = notification.unwrap();
            assert_eq!(n.webhook.url, "https://hook");
            assert_eq!(n.phase, Phase::Failed);
            assert_eq!(n.job_name.as_deref(), Some("i-x"));
            assert_eq!(n.message.as_deref(), Some("init job failed"));
            assert_eq!(n.completion_time, "t");
        }
        _ => panic!("the init job is finished"),
    }
}

#[test]
fn init_jobs_without_a_webhook_end_quietly() {
    let inst = instance(Some(OdooInstancePhase::Initializing), 1);
    let mut job = init_job("i", "prod", Some(Phase::Running), Some("i-x"));
    job.spec.webhook = None;
    let s = ReconcileSnapshot { active_init_job: Some(job), ..quiet() };
    match execute_action(TransitionAction::CompleteInitJob, &inst, &s) {
        ActionPlan::FinishJob { restart, patch, notification } => {
            assert!(restart.is_none());
            assert_eq!(patch.phase, Phase::Completed);
            assert_eq!(patch.message, None);
            assert!(notification.is_none());
        }
        _ => panic!("the init job is finished"),
    }
}

#[test]
fn a_cycle_writes_the_phase_last() {
    let s = ReconcileSnapshot { init_job: JobStatus::Succeeded, ..quiet() };
    let step = run_state_machine_at(&instance(Some(OdooInstancePhase::Initializing), 1), &s, NOW);
    let t = step.transition;
    let mut stage = CycleStage::EnsureOutputs;
    let mut seen: Vec<CycleStage> = vec![];
    while stage != CycleStage::Finished {
        seen.push(stage);
        stage = advance_cycle(stage, true, &t);
    }
    assert_eq!(
        seen,
        vec![
            CycleStage::EnsureOutputs,
            CycleStage::Perform { index: 0 },
            CycleStage::Perform { index: 1 },
            CycleStage::WritePhase,
        ]
    );
    let failed = advance_cycle(CycleStage::Perform { index: 0 }, false, &t);
    assert_eq!(failed, CycleStage::Failed);
    assert_eq!(advance_cycle(failed, true, &t), CycleStage::Failed);
    assert_eq!(advance_cycle(CycleStage::EnsureOutputs, true, &None), CycleStage::Finished);
    assert_eq!(advance_cycle(CycleStage::EnsureOutputs, false, &t), CycleStage::Failed);
}

#[test]
fn a_scheduled_upgrade_is_waited_for() {
    let later = Instant { secs: NOW.secs + 90, nanos: NOW.nanos };
    let s = ReconcileSnapshot {
        upgrade_job: JobStatus::Active,
        active_upgrade_job: Some(upgrade_job("u", Some("2999-01-01T00:00:00Z"))),
        ..quiet()
    };
    let first = scheduled_requeue(&s, NOW).unwrap();
    let second = scheduled_requeue(&s, later).unwrap();
    assert_eq!(first - second, 90_000_000_000);
    assert!(!s.upgrade_job_ready_at(NOW));
    let due = ReconcileSnapshot {
        upgrade_job: JobStatus::Active,
        active_upgrade_job: Some(upgrade_job("u", Some("1970-01-01T00:00:00Z"))),
        ..quiet()
    };
    assert!(scheduled_requeue(&due, NOW).is_none());
    assert!(due.upgrade_job_ready_at(NOW));
}

#[test]
fn completed_upgrades_restart_the_deployment() {
    let inst = instance(Some(OdooInstancePhase::Upgrading), 1);
    let s = ReconcileSnapshot { active_upgrade_job: Some(upgrade_job("u", None)), ..quiet() };
    match execute_action_at(TransitionAction::CompleteUpgradeJob, &inst, &s, "t") {
        ActionPlan::FinishJob { restart, patch, notification } => {
            assert_eq!(restart.as_deref(), Some("prod"));
            assert_eq!(patch.phase, Phase::Completed);
            assert!(notification.is_none());
        }
        _ => panic!("the upgrade job is finished"),
    }
    match execute_action_at(TransitionAction::FailUpgradeJob, &inst, &s, "t") {
        ActionPlan::FinishJob { restart, patch, .. } => {
            assert!(restart.is_none());
            assert_eq!(patch.message.as_deref(), Some("upgrade job failed"));
        }
        _ => panic!("the upgrade job is finished"),
    }
}

#[test]
fn actions_without_a_job_do_nothing() {
    let inst = instance(None, 1);
    for a in [
        TransitionAction::CompleteInitJob,
        TransitionAction::FailRestoreJob,
        TransitionAction::CompleteUpgradeJob,
        TransitionAction::FailBackupJob,
    ] {
        assert!(matches!(execute_action_at(a, &inst, &quiet(), "t"), ActionPlan::Nothing));
    }
    match execute_action_at(TransitionAction::MarkDbInitialized, &inst, &quiet(), "t") {
        ActionPlan::MarkDbInitialized { instance } => assert_eq!(instance, "prod"),
        _ => panic!("the database is marked"),
    }
    assert!(matches!(
        execute_action_at(TransitionAction::BeginFilestoreMigration, &inst, &quiet(), "t"),
        ActionPlan::BeginFilestoreMigration
    ));
}

/// A new instance is initialised, started, scaled down and up again.
#[test]
fn an_instance_lives_through_its_phases() {
    let mut phase: Option<OdooInstancePhase> = None;
    let mut seen: Vec<OdooInstancePhase> = vec![];
    let story: Vec<(i32, ReconcileSnapshot)> = vec![
        (1, ReconcileSnapshot { db_initialized: false, ..quiet() }),
        (1, ReconcileSnapshot { db_initialized: false, init_job: JobStatus::Active, ..quiet() }),
        (1, ReconcileSnapshot { db_initialized: false, init_job: JobStatus::Succeeded, ..quiet() }),
        (1, quiet()),
        (1, ReconcileSnapshot { ready_replicas: 1, ..quiet() }),
        (0, ReconcileSnapshot { ready_replicas: 1, ..quiet() }),
        (0, quiet()),
        (2, quiet()),
        (2, ReconcileSnapshot { ready_replicas: 2, ..quiet() }),
        (2, ReconcileSnapshot { ready_replicas: 1, ..quiet() }),
        (2, ReconcileSnapshot { ready_replicas: 2, ..quiet() }),
    ];
    for (replicas, s) in story.iter() {
        let step = run_state_machine_at(&instance(phase, *replicas), s, NOW);
        if let Some(t) = step.transition {
            phase = Some(t.to);
            seen.push(t.to);
        }
    }
    assert_eq!(
        seen,
        vec![
            OdooInstancePhase::Uninitialized,
            OdooInstancePhase::Initializing,
            OdooInstancePhase::Starting,
            OdooInstancePhase::Running,
            OdooInstancePhase::Stopped,
            OdooInstancePhase::Starting,
            OdooInstancePhase::Running,
            OdooInstancePhase::Degraded,
            OdooInstancePhase::Running,
        ]
    );
}

#[test]
fn other_instances_do_not_count() {
    let seen = |jobs: Vec<OdooInitJob>| Observation {
        web: None,
        cron: None,
        init_jobs: jobs,
        restore_jobs: vec![],
        upgrade_jobs: vec![],
        backup_jobs: vec![],
        init_lookup: JobLookup::NotFound,
        restore_lookup: JobLookup::NotFound,
        upgrade_lookup: JobLookup::NotFound,
        backup_lookup: JobLookup::NotFound,
        claim: None,
        migration_lookup: JobLookup::NotFound,
    };
    let own = init_job("own", "prod", Some(Phase::Running), Some("own-x"));
    let other = init_job("other", "test", Some(Phase::Completed), Some("other-x"));
    let inst = instance(None, 1);
    let both = ReconcileSnapshot::gather(&inst, seen(vec![other, own.clone()]));
    let alone = ReconcileSnapshot::gather(&inst, seen(vec![own]));
    assert_eq!(both.init_job, alone.init_job);
    assert_eq!(both.db_initialized, alone.db_initialized);
    assert_eq!(
        both.active_init_job.map(|j| j.name()),
        alone.active_init_job.map(|j| j.name())
    );
}

#[test]
fn phase_names_are_distinct() {
    assert_eq!(OdooInstancePhase::InitFailed.as_str(), "InitFailed");
    let mut names: Vec<&str> = transitions().iter().map(|t| t.from.as_str()).collect();
    names.dedup();
    assert_eq!(names.len(), 13);
    names.sort();
    names.dedup();
    assert_eq!(names.len(), 13);
}
