//! The preview state machine.

use odoo_operator::controller::state_machine::{Action, POLL_NANOS};
use odoo_operator::crd::meta::ObjectMeta;
use odoo_operator::crd::odoo_backup_job::{BackupDestination, OdooBackupJob, OdooBackupJobSpec};
use odoo_operator::crd::odoo_init_job::{OdooInitJob, OdooInitJobSpec};
use odoo_operator::crd::odoo_instance::{
    OdooInstance, OdooInstancePhase, OdooInstanceSpec, OdooInstanceStatus,
};
use odoo_operator::crd::odoo_restore_job::{
    OdooRestoreJob, OdooRestoreJobSpec, RestoreSource, RestoreSourceType,
};
use odoo_operator::crd::odoo_upgrade_job::{OdooUpgradeJob, OdooUpgradeJobSpec};
use odoo_operator::crd::shared::{BackupFormat, JobResourceStatus, OdooInstanceRef, Phase};
use odoo_operator::preview::odoo_instance::owner_ref;
use odoo_operator::preview::state_machine::{
    advance_cycle, entered, first_transition as next_row, generate, requeue_for,
    run_state_machine, start_cycle, transitions, CycleStage, Observation, ReconcileSnapshot,
    TransitionAction,
};

fn make_instance(replicas: i32) -> OdooInstance {
    let mut spec =
        OdooInstanceSpec::minimal("admin", replicas, vec!["test.example.com".to_string()]);
    spec.image = Some("odoo:18.0".to_string());
    let mut inst = OdooInstance::new("test-instance", spec);
    inst.metadata.namespace = Some("default".to_string());
    inst.metadata.uid = Some("test-uid-1234".to_string());
    inst
}

fn default_snapshot() -> ReconcileSnapshot {
    ReconcileSnapshot {
        ready_replicas: 0,
        db_initialized: false,
        init_job_phase: None,
        restore_job_phase: None,
        upgrade_job_phase: None,
        backup_job_active: false,
        restore_job_active: false,
        upgrade_job_active: false,
        active_init_job: None,
        active_restore_job: None,
        active_upgrade_job: None,
        active_backup_job: None,
    }
}

fn first_transition(
    from: &OdooInstancePhase,
    inst: &OdooInstance,
    snap: &ReconcileSnapshot,
) -> Option<OdooInstancePhase> {
    next_row(*from, inst, snap).map(|t| t.to)
}

#[test]
fn provisioning_to_uninitialized_when_db_not_init() {
    let inst = make_instance(1);
    let snap = default_snapshot();
    assert_eq!(
        first_transition(&OdooInstancePhase::Provisioning, &inst, &snap),
        Some(OdooInstancePhase::Uninitialized)
    );
}

#[test]
fn provisioning_to_starting_when_db_initialized() {
    let inst = make_instance(1);
    let snap = ReconcileSnapshot { db_initialized: true, ..default_snapshot() };
    assert_eq!(
        first_transition(&OdooInstancePhase::Provisioning, &inst, &snap),
        Some(OdooInstancePhase::Starting)
    );
}

#[test]
fn uninitialized_to_initializing_when_init_running() {
    let inst = make_instance(1);
    let snap =
        ReconcileSnapshot { init_job_phase: Some(Phase::Running), ..default_snapshot() };
    assert_eq!(
        first_transition(&OdooInstancePhase::Uninitialized, &inst, &snap),
        Some(OdooInstancePhase::Initializing)
    );
}

#[test]
fn uninitialized_to_restoring_when_restore_active() {
    let inst = make_instance(1);
    let snap = ReconcileSnapshot { restore_job_active: true, ..default_snapshot() };
    assert_eq!(
        first_transition(&OdooInstancePhase::Uninitialized, &inst, &snap),
        Some(OdooInstancePhase::Restoring)
    );
}

#[test]
fn initializing_to_starting_when_init_completed() {
    let inst = make_instance(1);
    let snap =
        ReconcileSnapshot { init_job_phase: Some(Phase::Completed), ..default_snapshot() };
    assert_eq!(
        first_transition(&OdooInstancePhase::Initializing, &inst, &snap),
        Some(OdooInstancePhase::Starting)
    );
}

#[test]
fn initializing_to_init_failed_when_init_failed() {
    let inst = make_instance(1);
    let snap = ReconcileSnapshot { init_job_phase: Some(Phase::Failed), ..default_snapshot() };
    assert_eq!(
        first_transition(&OdooInstancePhase::Initializing, &inst, &snap),
        Some(OdooInstancePhase::InitFailed)
    );
}

#[test]
fn starting_to_running_when_all_ready() {
    let inst = make_instance(2);
    let snap = ReconcileSnapshot {
        ready_replicas: 2,
        db_initialized: true,
        ..default_snapshot()
    };
    assert_eq!(
        first_transition(&OdooInstancePhase::Starting, &inst, &snap),
        Some(OdooInstancePhase::Running)
    );
}

#[test]
fn starting_to_stopped_when_replicas_zero() {
    let inst = make_instance(0);
    let snap = ReconcileSnapshot { db_initialized: true, ..default_snapshot() };
    assert_eq!(
        first_transition(&OdooInstancePhase::Starting, &inst, &snap),
        Some(OdooInstancePhase::Stopped)
    );
}

#[test]
fn starting_stays_when_not_ready() {
    let inst = make_instance(2);
    let snap = ReconcileSnapshot {
        ready_replicas: 0,
        db_initialized: true,
        ..default_snapshot()
    };
    assert_eq!(first_transition(&OdooInstancePhase::Starting, &inst, &snap), None);
}

#[test]
fn running_to_degraded_when_partial_ready() {
    let inst = make_instance(3);
    let snap = ReconcileSnapshot {
        ready_replicas: 1,
        db_initialized: true,
        ..default_snapshot()
    };
    assert_eq!(
        first_transition(&OdooInstancePhase::Running, &inst, &snap),
        Some(OdooInstancePhase::Degraded)
    );
}

#[test]
fn running_to_stopped_when_replicas_zero() {
    let inst = make_instance(0);
    let snap = ReconcileSnapshot {
        ready_replicas: 0,
        db_initialized: true,
        ..default_snapshot()
    };
    assert_eq!(
        first_transition(&OdooInstancePhase::Running, &inst, &snap),
        Some(OdooInstancePhase::Stopped)
    );
}

#[test]
fn running_to_restoring_when_restore_active() {
    let inst = make_instance(1);
    let snap = ReconcileSnapshot {
        ready_replicas: 1,
        db_initialized: true,
        restore_job_active: true,
        ..default_snapshot()
    };
    assert_eq!(
        first_transition(&OdooInstancePhase::Running, &inst, &snap),
        Some(OdooInstancePhase::Restoring)
    );
}

#[test]
fn running_to_upgrading_when_upgrade_active() {
    let inst = make_instance(1);
    let snap = ReconcileSnapshot {
        ready_replicas: 1,
        db_initialized: true,
        upgrade_job_active: true,
        ..default_snapshot()
    };
    assert_eq!(
        first_transition(&OdooInstancePhase::Running, &inst, &snap),
        Some(OdooInstancePhase::Upgrading)
    );
}

#[test]
fn running_to_backing_up_when_backup_active() {
    let inst = make_instance(1);
    let snap = ReconcileSnapshot {
        ready_replicas: 1,
        db_initialized: true,
        backup_job_active: true,
        ..default_snapshot()
    };
    assert_eq!(
        first_transition(&OdooInstancePhase::Running, &inst, &snap),
        Some(OdooInstancePhase::BackingUp)
    );
}

#[test]
fn running_stays_when_healthy() {
    let inst = make_instance(2);
    let snap = ReconcileSnapshot {
        ready_replicas: 2,
        db_initialized: true,
        ..default_snapshot()
    };
    assert_eq!(first_transition(&OdooInstancePhase::Running, &inst, &snap), None);
}

#[test]
fn backing_up_to_running_when_backup_done() {
    let inst = make_instance(1);
    let snap = ReconcileSnapshot {
        ready_replicas: 1,
        db_initialized: true,
        backup_job_active: false,
        ..default_snapshot()
    };
    assert_eq!(
        first_transition(&OdooInstancePhase::BackingUp, &inst, &snap),
        Some(OdooInstancePhase::Running)
    );
}

#[test]
fn upgrading_to_starting_when_upgrade_completed() {
    let inst = make_instance(1);
    let snap = ReconcileSnapshot {
        upgrade_job_phase: Some(Phase::Completed),
        db_initialized: true,
        ..default_snapshot()
    };
    assert_eq!(
        first_transition(&OdooInstancePhase::Upgrading, &inst, &snap),
        Some(OdooInstancePhase::Starting)
    );
}

#[test]
fn upgrading_to_starting_when_upgrade_failed() {
    let inst = make_instance(1);
    let snap = ReconcileSnapshot {
        upgrade_job_phase: Some(Phase::Failed),
        db_initialized: true,
        ..default_snapshot()
    };
    assert_eq!(
        first_transition(&OdooInstancePhase::Upgrading, &inst, &snap),
        Some(OdooInstancePhase::Starting)
    );
}

#[test]
fn restoring_to_starting_when_restore_completed() {
    let inst = make_instance(1);
    let snap =
        ReconcileSnapshot { restore_job_phase: Some(Phase::Completed), ..default_snapshot() };
    assert_eq!(
        first_transition(&OdooInstancePhase::Restoring, &inst, &snap),
        Some(OdooInstancePhase::Starting)
    );
}

#[test]
fn restoring_to_starting_when_restore_failed() {
    let inst = make_instance(1);
    let snap =
        ReconcileSnapshot { restore_job_phase: Some(Phase::Failed), ..default_snapshot() };
    assert_eq!(
        first_transition(&OdooInstancePhase::Restoring, &inst, &snap),
        Some(OdooInstancePhase::Starting)
    );
}

#[test]
fn stopped_to_starting_when_replicas_positive() {
    let inst = make_instance(2);
    let snap = ReconcileSnapshot { db_initialized: true, ..default_snapshot() };
    assert_eq!(
        first_transition(&OdooInstancePhase::Stopped, &inst, &snap),
        Some(OdooInstancePhase::Starting)
    );
}

#[test]
fn stopped_stays_when_replicas_zero() {
    let inst = make_instance(0);
    let snap = ReconcileSnapshot { db_initialized: true, ..default_snapshot() };
    assert_eq!(first_transition(&OdooInstancePhase::Stopped, &inst, &snap), None);
}

#[test]
fn init_failed_to_initializing_on_retry() {
    let inst = make_instance(1);
    let snap =
        ReconcileSnapshot { init_job_phase: Some(Phase::Running), ..default_snapshot() };
    assert_eq!(
        first_transition(&OdooInstancePhase::InitFailed, &inst, &snap),
        Some(OdooInstancePhase::Initializing)
    );
}

#[test]
fn init_failed_to_restoring_on_restore() {
    let inst = make_instance(1);
    let snap = ReconcileSnapshot { restore_job_active: true, ..default_snapshot() };
    assert_eq!(
        first_transition(&OdooInstancePhase::InitFailed, &inst, &snap),
        Some(OdooInstancePhase::Restoring)
    );
}

#[test]
fn degraded_to_running_when_all_ready() {
    let inst = make_instance(2);
    let snap = ReconcileSnapshot {
        ready_replicas: 2,
        db_initialized: true,
        ..default_snapshot()
    };
    assert_eq!(
        first_transition(&OdooInstancePhase::Degraded, &inst, &snap),
        Some(OdooInstancePhase::Running)
    );
}

#[test]
fn degraded_to_starting_when_zero_ready() {
    let inst = make_instance(2);
    let snap = ReconcileSnapshot {
        ready_replicas: 0,
        db_initialized: true,
        ..default_snapshot()
    };
    assert_eq!(
        first_transition(&OdooInstancePhase::Degraded, &inst, &snap),
        Some(OdooInstancePhase::Starting)
    );
}

#[test]
fn starting_to_restoring_when_restore_active() {
    let inst = make_instance(1);
    let snap = ReconcileSnapshot {
        restore_job_active: true,
        db_initialized: true,
        ..default_snapshot()
    };
    assert_eq!(
        first_transition(&OdooInstancePhase::Starting, &inst, &snap),
        Some(OdooInstancePhase::Restoring)
    );
}

#[test]
fn starting_to_upgrading_when_upgrade_active() {
    let inst = make_instance(1);
    let snap = ReconcileSnapshot {
        upgrade_job_active: true,
        db_initialized: true,
        ..default_snapshot()
    };
    assert_eq!(
        first_transition(&OdooInstancePhase::Starting, &inst, &snap),
        Some(OdooInstancePhase::Upgrading)
    );
}

#[test]
fn starting_to_backing_up_when_backup_active() {
    let inst = make_instance(1);
    let snap = ReconcileSnapshot {
        backup_job_active: true,
        db_initialized: true,
        ..default_snapshot()
    };
    assert_eq!(
        first_transition(&OdooInstancePhase::Starting, &inst, &snap),
        Some(OdooInstancePhase::BackingUp)
    );
}

#[test]
fn degraded_to_backing_up_when_backup_active() {
    let inst = make_instance(2);
    let snap = ReconcileSnapshot {
        ready_replicas: 1,
        db_initialized: true,
        backup_job_active: true,
        ..default_snapshot()
    };
    assert_eq!(
        first_transition(&OdooInstancePhase::Degraded, &inst, &snap),
        Some(OdooInstancePhase::BackingUp)
    );
}

#[test]
fn backing_up_to_stopped_when_replicas_zero() {
    let inst = make_instance(0);
    let snap = ReconcileSnapshot {
        backup_job_active: true,
        db_initialized: true,
        ..default_snapshot()
    };
    assert_eq!(
        first_transition(&OdooInstancePhase::BackingUp, &inst, &snap),
        Some(OdooInstancePhase::Stopped)
    );
}

#[test]
fn backing_up_to_degraded_when_partial_ready() {
    let inst = make_instance(3);
    let snap = ReconcileSnapshot {
        ready_replicas: 1,
        db_initialized: true,
        backup_job_active: true,
        ..default_snapshot()
    };
    assert_eq!(
        first_transition(&OdooInstancePhase::BackingUp, &inst, &snap),
        Some(OdooInstancePhase::Degraded)
    );
}

#[test]
fn backing_up_to_starting_when_zero_ready() {
    let inst = make_instance(2);
    let snap = ReconcileSnapshot {
        ready_replicas: 0,
        db_initialized: true,
        backup_job_active: true,
        ..default_snapshot()
    };
    assert_eq!(
        first_transition(&OdooInstancePhase::BackingUp, &inst, &snap),
        Some(OdooInstancePhase::Starting)
    );
}

#[test]
fn stopped_to_restoring_when_restore_active() {
    let inst = make_instance(0);
    let snap = ReconcileSnapshot {
        restore_job_active: true,
        db_initialized: true,
        ..default_snapshot()
    };
    assert_eq!(
        first_transition(&OdooInstancePhase::Stopped, &inst, &snap),
        Some(OdooInstancePhase::Restoring)
    );
}

#[test]
fn stopped_to_upgrading_when_upgrade_active() {
    let inst = make_instance(0);
    let snap = ReconcileSnapshot {
        upgrade_job_active: true,
        db_initialized: true,
        ..default_snapshot()
    };
    assert_eq!(
        first_transition(&OdooInstancePhase::Stopped, &inst, &snap),
        Some(OdooInstancePhase::Upgrading)
    );
}

#[test]
fn error_to_starting_when_db_initialized() {
    let inst = make_instance(1);
    let snap = ReconcileSnapshot { db_initialized: true, ..default_snapshot() };
    assert_eq!(
        first_transition(&OdooInstancePhase::Error, &inst, &snap),
        Some(OdooInstancePhase::Starting)
    );
}

#[test]
fn error_to_uninitialized_when_db_not_initialized() {
    let inst = make_instance(1);
    let snap = default_snapshot();
    assert_eq!(
        first_transition(&OdooInstancePhase::Error, &inst, &snap),
        Some(OdooInstancePhase::Uninitialized)
    );
}

#[test]
fn owner_ref_has_correct_fields() {
    let inst = make_instance(1);
    let oref = owner_ref(&inst);
    assert_eq!(oref.kind, "OdooInstance");
    assert_eq!(oref.api_version, "bemade.org/v1alpha1");
    assert_eq!(oref.name, "test-instance");
    assert_eq!(oref.uid, "test-uid-1234");
    assert_eq!(oref.controller, Some(true));
    assert_eq!(oref.block_owner_deletion, Some(true));
}

fn reference(name: &str) -> OdooInstanceRef {
    OdooInstanceRef { name: name.to_string(), namespace: None }
}

fn status(phase: Option<Phase>) -> Option<JobResourceStatus> {
    let mut s = JobResourceStatus::default();
    s.phase = phase;
    Some(s)
}

fn init_job(name: &str, instance: &str, phase: Option<Phase>) -> OdooInitJob {
    OdooInitJob {
        metadata: ObjectMeta::named(name),
        spec: OdooInitJobSpec {
            odoo_instance_ref: reference(instance),
            modules: vec![],
            demo: false,
            webhook: None,
        },
        status: status(phase),
    }
}

fn restore_job(name: &str, phase: Option<Phase>) -> OdooRestoreJob {
    OdooRestoreJob {
        metadata: ObjectMeta::named(name),
        spec: OdooRestoreJobSpec {
            odoo_instance_ref: reference("test-instance"),
            source: RestoreSource { source_type: RestoreSourceType::S3, s3: None, odoo: None },
            format: BackupFormat::Zip,
            neutralize: true,
            webhook: None,
        },
        status: status(phase),
    }
}

fn upgrade_job(name: &str, phase: Option<Phase>) -> OdooUpgradeJob {
    OdooUpgradeJob {
        metadata: ObjectMeta::named(name),
        spec: OdooUpgradeJobSpec {
            odoo_instance_ref: reference("test-instance"),
            modules: vec![],
            modules_install: vec![],
            scheduled_time: None,
            webhook: None,
        },
        status: status(phase),
    }
}

fn backup_job(name: &str, phase: Option<Phase>) -> OdooBackupJob {
    OdooBackupJob {
        metadata: ObjectMeta::named(name),
        spec: OdooBackupJobSpec {
            odoo_instance_ref: reference("test-instance"),
            destination: BackupDestination {
                bucket: "b".to_string(),
                object_key: "k".to_string(),
                endpoint: "e".to_string(),
                region: None,
                insecure: false,
                s3_credentials_secret_ref: None,
            },
            format: BackupFormat::Zip,
            with_filestore: true,
            webhook: None,
        },
        status: status(phase),
    }
}

fn nothing_seen() -> Observation {
    Observation {
        ready_replicas: None,
        init_jobs: vec![],
        restore_jobs: vec![],
        upgrade_jobs: vec![],
        backup_jobs: vec![],
    }
}

#[test]
fn a_running_init_job_ends_the_count() {
    let inst = make_instance(1);
    let seen = Observation {
        init_jobs: vec![
            init_job("other", "another", Some(Phase::Running)),
            init_job("failed", "test-instance", Some(Phase::Failed)),
            init_job("pending", "test-instance", Some(Phase::Pending)),
            init_job("done", "test-instance", Some(Phase::Completed)),
        ],
        ..nothing_seen()
    };
    let s = ReconcileSnapshot::gather(&inst, seen);
    assert_eq!(s.init_job_phase, Some(Phase::Running));
    assert_eq!(s.active_init_job.unwrap().metadata.name_any(), "pending");
    assert!(!s.db_initialized);
}

#[test]
fn completed_init_jobs_count_more_than_failed_ones() {
    let inst = make_instance(1);
    let seen = Observation {
        init_jobs: vec![
            init_job("failed", "test-instance", Some(Phase::Failed)),
            init_job("done", "test-instance", Some(Phase::Completed)),
            init_job("again", "test-instance", Some(Phase::Failed)),
        ],
        ..nothing_seen()
    };
    let s = ReconcileSnapshot::gather(&inst, seen);
    assert_eq!(s.init_job_phase, Some(Phase::Completed));
    assert!(s.db_initialized);
    assert_eq!(s.active_init_job.unwrap().metadata.name_any(), "again");
}

#[test]
fn the_last_running_restore_job_is_worked_on() {
    let inst = make_instance(1);
    let seen = Observation {
        restore_jobs: vec![
            restore_job("first", Some(Phase::Running)),
            restore_job("second", Some(Phase::Pending)),
            restore_job("done", Some(Phase::Completed)),
            restore_job("new", None),
        ],
        ready_replicas: Some(3),
        ..nothing_seen()
    };
    let s = ReconcileSnapshot::gather(&inst, seen);
    assert!(s.restore_job_active);
    assert_eq!(s.restore_job_phase, Some(Phase::Running));
    assert_eq!(s.active_restore_job.unwrap().metadata.name_any(), "second");
    assert!(s.db_initialized);
    assert_eq!(s.ready_replicas, 3);
}

#[test]
fn the_first_end_of_an_upgrade_counts() {
    let inst = make_instance(1);
    let seen = Observation {
        upgrade_jobs: vec![
            upgrade_job("failed", Some(Phase::Failed)),
            upgrade_job("done", Some(Phase::Completed)),
        ],
        backup_jobs: vec![backup_job("done", Some(Phase::Completed))],
        ..nothing_seen()
    };
    let s = ReconcileSnapshot::gather(&inst, seen);
    assert_eq!(s.upgrade_job_phase, Some(Phase::Failed));
    assert!(!s.upgrade_job_active);
    assert_eq!(s.active_upgrade_job.unwrap().metadata.name_any(), "done");
    assert!(!s.backup_job_active);
    assert_eq!(s.active_backup_job.unwrap().metadata.name_any(), "done");
    assert!(!s.db_initialized);
}

#[test]
fn a_status_that_says_so_counts_as_initialised() {
    let mut inst = make_instance(1);
    let mut status = OdooInstanceStatus::default();
    status.db_initialized = true;
    inst.status = Some(status);
    assert!(ReconcileSnapshot::gather(&inst, nothing_seen()).db_initialized);
}

#[test]
fn preview_cycles_follow_the_table() {
    let mut inst = make_instance(1);
    let step = run_state_machine(&inst, &default_snapshot());
    assert_eq!(step.transition.unwrap().to, OdooInstancePhase::Uninitialized);
    assert_eq!(step.action, Action::RequeueAfter { nanos: 0 });
    let mut status = OdooInstanceStatus::default();
    status.phase = Some(OdooInstancePhase::Starting);
    inst.status = Some(status);
    let step = run_state_machine(&inst, &default_snapshot());
    assert!(step.transition.is_none());
    assert_eq!(step.action, Action::RequeueAfter { nanos: POLL_NANOS });
    assert_eq!(requeue_for(OdooInstancePhase::Running), Action::AwaitChange);
    assert_eq!(requeue_for(OdooInstancePhase::MigratingFilestore), Action::AwaitChange);
}

#[test]
fn preview_rows_lead_on() {
    let rows = transitions();
    assert_eq!(rows.len(), 37);
    for t in rows.iter() {
        assert_ne!(t.from, t.to);
    }
    let marking: Vec<_> =
        rows.iter().filter(|t| t.action == Some(TransitionAction::MarkDbInitialized)).collect();
    assert_eq!(marking.len(), 2);
}

#[test]
fn preview_diagram_has_no_guards() {
    let text = generate();
    assert!(text.contains("    Initializing --> Starting : / MarkDbInitialized\n"));
    assert!(text.contains("    Provisioning --> Uninitialized\n"));
    assert!(text.contains("    Provisioning --> Starting\n\n    Uninitialized --> Initializing\n"));
    assert!(text.ends_with("    Error --> Uninitialized\n```\n"));
    assert!(!text.contains('[') || text.contains("[*]"));
}

#[test]
fn phases_are_entered_with_their_replicas() {
    let spec = OdooInstanceSpec::minimal("admin", 3, vec!["a.example.com".to_string()]);
    let inst = OdooInstance::new("prod", spec);
    assert_eq!(entered(OdooInstancePhase::Starting, &inst).web, Some(3));
    assert_eq!(entered(OdooInstancePhase::Upgrading, &inst).web, Some(0));
    assert_eq!(entered(OdooInstancePhase::Stopped, &inst).web, Some(0));
    assert_eq!(entered(OdooInstancePhase::BackingUp, &inst).web, None);
    assert_eq!(entered(OdooInstancePhase::Starting, &inst).cron, None);
}

#[test]
fn the_action_comes_before_the_phase() {
    let rows = transitions();
    let marked = rows.iter().find(|t| t.action.is_some()).copied();
    let mut stage = start_cycle(&marked);
    assert_eq!(stage, CycleStage::MarkDbInitialized);
    stage = advance_cycle(stage, true);
    assert_eq!(stage, CycleStage::WritePhase);
    stage = advance_cycle(stage, true);
    assert_eq!(stage, CycleStage::EnterPhase);
    assert_eq!(advance_cycle(stage, false), CycleStage::Failed);
    assert_eq!(advance_cycle(stage, true), CycleStage::Finished);
    let plain = rows.iter().find(|t| t.action.is_none()).copied();
    assert_eq!(start_cycle(&plain), CycleStage::WritePhase);
    assert_eq!(start_cycle(&None), CycleStage::Finished);
}
