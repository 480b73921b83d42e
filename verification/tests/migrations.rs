//! Moving the filestore and the database.

use odoo_operator::controller::filestore_migration::{
    advance_begin, advance_completion, advance_rollback, begin_filestore_migration,
    build_final_claim, build_rsync_job, build_temp_claim, rollback_filestore_migration,
    start_completion, start_rollback, BeginOutcome, BeginStage, CallOutcome, CompletionStage,
    FilestoreRollbackStage, MigrationError,
};
use odoo_operator::controller::manifests::{EnvSource, VolumeSource};
use odoo_operator::controller::state_machine::{JobStatus, ReconcileSnapshot};
use odoo_operator::controller::states::finalizing_database_migration::{
    advance_switch, complete_database_migration, FinalizingDatabaseMigration, SwitchOutcome,
    SwitchStage,
};
use odoo_operator::controller::states::finalizing_filestore_migration::{
    advance_rebind, complete_filestore_migration, FinalizingFilestoreMigration, RebindStage,
};
use odoo_operator::controller::states::migrating_database;
use odoo_operator::controller::states::migrating_filestore::{
    DeletionDecision, FinalClaimLookup, MigratingFilestore, MigrationStep, RebindDecision,
    RsyncDecision, TempClaimLookup,
};
use odoo_operator::controller::states::steady::Scaling;
use odoo_operator::crd::odoo_instance::{
    FilestoreSpec, OdooInstance, OdooInstanceSpec, OdooInstanceStatus,
};
use odoo_operator::error::Error;
use odoo_operator::postgres::PostgresClusterConfig;

fn instance() -> OdooInstance {
    let mut spec = OdooInstanceSpec::minimal("admin", 1, vec![]);
    spec.image_pull_secret = Some("reg".to_string());
    spec.filestore = Some(FilestoreSpec {
        storage_size: Some("4Gi".to_string()),
        storage_class: Some("juicefs".to_string()),
    });
    let mut inst = OdooInstance::new("prod", spec);
    inst.metadata.namespace = Some("erp".to_string());
    inst.metadata.uid = Some("u-1".to_string());
    inst.status = Some(OdooInstanceStatus::default());
    inst
}

fn with_volume(volume: &str) -> OdooInstance {
    let mut inst = instance();
    if let Some(s) = &mut inst.status {
        s.migration_pv_name = Some(volume.to_string());
        s.migration_job_name = Some("m".to_string());
    }
    inst
}

fn snapshot(job: JobStatus) -> ReconcileSnapshot {
    ReconcileSnapshot {
        ready_replicas: 0,
        deployment_replicas: 0,
        cron_ready_replicas: 0,
        cron_deployment_replicas: 0,
        db_initialized: true,
        init_job: JobStatus::Absent,
        restore_job: JobStatus::Absent,
        upgrade_job: JobStatus::Absent,
        backup_job: JobStatus::Absent,
        active_init_job: None,
        active_restore_job: None,
        active_upgrade_job: None,
        active_backup_job: None,
        storage_class_mismatch: true,
        actual_storage_class: Some("cephfs".to_string()),
        migration_job: job,
    }
}

fn done() -> CallOutcome {
    CallOutcome::Done { volume: None }
}

fn cluster(host: &str) -> PostgresClusterConfig {
    PostgresClusterConfig {
        host: host.to_string(),
        port: 5432,
        admin_user: "root".to_string(),
        admin_password: format!("{}-secret", host),
        default: false,
    }
}

#[test]
fn copies_run_between_two_claims() {
    let job = build_rsync_job("prod", "erp", &instance(), "copy");
    assert_eq!(job.generate_name, "prod-migrate-");
    assert_eq!(job.app_label.as_deref(), Some("prod"));
    assert_eq!(job.backoff_limit, Some(3));
    assert_eq!(job.active_deadline_seconds, Some(3600));
    assert_eq!(job.ttl_seconds_after_finished, Some(300));
    assert_eq!(job.restart_policy.as_deref(), Some("Never"));
    assert_eq!(job.image_pull_secret.as_deref(), Some("reg"));
    let c = &job.containers[0];
    assert_eq!(c.image, "instrumentisto/rsync-ssh:latest");
    assert_eq!(c.args, vec!["copy".to_string()]);
    assert!(c.volume_mounts[0].read_only);
    assert!(!c.volume_mounts[1].read_only);
    match (&job.volumes[0].source, &job.volumes[1].source) {
        (
            VolumeSource::Claim { claim_name: old, read_only: true },
            VolumeSource::Claim { claim_name: new, read_only: false },
        ) => {
            assert_eq!(old, "prod-filestore-pvc");
            assert_eq!(new, "prod-filestore-pvc-temp");
        }
        _ => panic!("both volumes are claims"),
    }
}

#[test]
fn claims_take_size_and_class() {
    let temp = build_temp_claim(&instance(), "standard", &Some("9Gi".to_string()));
    assert_eq!(temp.name, "prod-filestore-pvc-temp");
    assert_eq!(temp.storage_class, "juicefs");
    assert_eq!(temp.access_mode, "ReadWriteMany");
    assert_eq!(temp.storage_size, "9Gi");
    assert!(temp.owner.is_none());
    assert_eq!(build_temp_claim(&instance(), "standard", &None).storage_size, "2Gi");
    let last = build_final_claim(&instance(), "pv-1");
    assert_eq!(last.name, "prod-filestore-pvc");
    assert_eq!(last.storage_size, "4Gi");
    assert_eq!(last.volume_name.as_deref(), Some("pv-1"));
    assert!(last.owner.is_some());
    let mut plain = instance();
    plain.spec.filestore = None;
    assert_eq!(build_temp_claim(&plain, "standard", &None).storage_class, "standard");
    assert_eq!(build_final_claim(&plain, "pv-1").storage_class, "");
}

#[test]
fn migrations_begin_with_scaling_down() {
    let ok = || BeginOutcome::Done { text: None };
    let mut stage = BeginStage::ScaleWeb;
    stage = advance_begin(stage, ok());
    assert!(matches!(stage, BeginStage::ScaleCron));
    stage = advance_begin(stage, ok());
    assert!(matches!(stage, BeginStage::ReadOldClaim));
    stage = advance_begin(stage, BeginOutcome::Done { text: Some("9Gi".to_string()) });
    match &stage {
        BeginStage::CreateTempClaim { size } => assert_eq!(size.as_deref(), Some("9Gi")),
        _ => panic!("the temporary claim comes next"),
    }
    stage = advance_begin(stage, ok());
    assert!(matches!(stage, BeginStage::CreateJob));
    stage = advance_begin(stage, BeginOutcome::Done { text: Some("m".to_string()) });
    match &stage {
        BeginStage::Record { job_name } => assert_eq!(job_name, "m"),
        _ => panic!("the job is recorded"),
    }
    assert!(matches!(advance_begin(stage, ok()), BeginStage::Begun));
    assert!(matches!(
        advance_begin(BeginStage::ScaleWeb, BeginOutcome::Failed),
        BeginStage::Failed
    ));
    match advance_begin(BeginStage::ReadOldClaim, BeginOutcome::Failed) {
        BeginStage::CreateTempClaim { size } => assert_eq!(size, None),
        _ => panic!("the size falls back"),
    }
}

#[test]
fn beginnings_are_recorded() {
    let r = begin_filestore_migration(&instance(), &snapshot(JobStatus::Absent), "m");
    assert_eq!(r.job_name, "m");
    assert_eq!(r.previous_class, "cephfs");
    assert_eq!(r.message, "Migrating filestore from cephfs to juicefs");
    let mut blind = snapshot(JobStatus::Absent);
    blind.actual_storage_class = None;
    let mut plain = instance();
    plain.spec.filestore = None;
    let r = begin_filestore_migration(&plain, &blind, "m");
    assert_eq!(r.previous_class, "unknown");
    assert_eq!(r.message, "Migrating filestore from unknown to ?");
}

#[test]
fn rollbacks_restore_the_class() {
    let mut inst = with_volume("pv");
    if let Some(s) = &mut inst.status {
        s.migration_previous_storage_class = Some("cephfs".to_string());
    }
    let r = rollback_filestore_migration(&inst);
    assert_eq!(r.temp_claim, "prod-filestore-pvc-temp");
    assert_eq!(r.job.as_deref(), Some("m"));
    assert_eq!(r.revert_class.as_deref(), Some("cephfs"));
    assert_eq!(r.message, "Filestore migration rolled back to cephfs");
    let r = rollback_filestore_migration(&instance());
    assert_eq!(r.revert_class, None);
    assert_eq!(r.message, "Filestore migration rolled back to unknown");
}

#[test]
fn filestore_rollbacks_forget_the_migration_last() {
    let mut inst = with_volume("pv");
    if let Some(s) = &mut inst.status {
        s.migration_previous_storage_class = Some("cephfs".to_string());
    }
    let plan = rollback_filestore_migration(&inst);
    let order = [
        FilestoreRollbackStage::DeleteTempClaim,
        FilestoreRollbackStage::DeleteJob,
        FilestoreRollbackStage::RevertSpec,
        FilestoreRollbackStage::ClearStatus,
        FilestoreRollbackStage::Finished,
    ];
    assert_eq!(start_rollback(), order[0]);
    for i in 0..order.len() - 1 {
        assert_eq!(advance_rollback(order[i], true, &plan), order[i + 1]);
        let failed = if i < 2 { order[i + 1] } else { FilestoreRollbackStage::Failed };
        assert_eq!(advance_rollback(order[i], false, &plan), failed);
    }
    let mut short = plan.clone();
    short.job = None;
    assert_eq!(advance_rollback(order[0], false, &short), FilestoreRollbackStage::RevertSpec);
    short.revert_class = None;
    assert_eq!(advance_rollback(order[0], true, &short), FilestoreRollbackStage::ClearStatus);
    assert_eq!(advance_rollback(order[1], true, &short), FilestoreRollbackStage::ClearStatus);
}

#[test]
fn completions_rebind_the_volume() {
    let mut stage = start_completion(&instance());
    assert!(matches!(stage, CompletionStage::ReadTempClaim));
    stage = advance_completion(stage, CallOutcome::Done { volume: Some("pv".to_string()) });
    assert!(matches!(stage, CompletionStage::StoreVolume { .. }));
    stage = advance_completion(stage, done());
    assert!(matches!(stage, CompletionStage::CheckBound { .. }));
    let old = CallOutcome::Done { volume: Some("pv-old".to_string()) };
    stage = advance_completion(stage, old);
    assert!(matches!(stage, CompletionStage::DeleteOldClaim { .. }));
    stage = advance_completion(stage, CallOutcome::NotFound);
    assert!(matches!(stage, CompletionStage::CheckOldClaim { .. }));
    stage = advance_completion(stage, CallOutcome::NotFound);
    assert!(matches!(stage, CompletionStage::ReleaseVolume { .. }));
    stage = advance_completion(stage, done());
    assert!(matches!(stage, CompletionStage::DeleteTempClaim { .. }));
    stage = advance_completion(stage, done());
    assert!(matches!(stage, CompletionStage::CheckFinalClaim { .. }));
    stage = advance_completion(stage, CallOutcome::Failed);
    match &stage {
        CompletionStage::CreateFinalClaim { volume } => assert_eq!(volume, "pv"),
        _ => panic!("the final claim is created"),
    }
    stage = advance_completion(stage, done());
    assert!(matches!(stage, CompletionStage::DeleteJob));
    stage = advance_completion(stage, CallOutcome::Failed);
    assert!(matches!(stage, CompletionStage::ClearStatus));
    stage = advance_completion(stage, done());
    assert!(matches!(stage, CompletionStage::Finished));
}

#[test]
fn completions_can_be_retried() {
    let bound = CallOutcome::Done { volume: Some("pv".to_string()) };
    let again = start_completion(&with_volume("pv"));
    assert!(matches!(again, CompletionStage::CheckBound { .. }));
    assert!(matches!(advance_completion(again, bound), CompletionStage::DeleteJob));
    let unseen = start_completion(&with_volume("pv"));
    assert!(matches!(
        advance_completion(unseen, CallOutcome::Failed),
        CompletionStage::DeleteOldClaim { .. }
    ));
    let unknown = CompletionStage::CheckOldClaim { volume: "pv".to_string() };
    assert!(matches!(
        advance_completion(unknown, CallOutcome::Failed),
        CompletionStage::ReleaseVolume { .. }
    ));
    let unbound = advance_completion(CompletionStage::ReadTempClaim, done());
    assert!(matches!(unbound, CompletionStage::Failed { error: MigrationError::NotBound }));
    let held = CompletionStage::CheckOldClaim { volume: "pv".to_string() };
    let held = advance_completion(held, done());
    assert!(matches!(held, CompletionStage::Failed { error: MigrationError::StillTerminating }));
    let refused = CompletionStage::ReleaseVolume { volume: "pv".to_string() };
    let refused = advance_completion(refused, CallOutcome::Failed);
    assert!(matches!(refused, CompletionStage::Failed { error: MigrationError::Api }));
    assert_eq!(
        MigrationError::NotBound.message(),
        "temp PVC has no volumeName — not bound yet"
    );
    assert_eq!(
        MigrationError::StillTerminating.message(),
        "old PVC still terminating — will retry"
    );
    assert_eq!(MigrationError::NoVolume.message(), "migrationPvName not set in status");
}

#[test]
fn rebinding_releases_the_volume_last() {
    let (scaling, mut stage) = FinalizingFilestoreMigration.ensure(&with_volume("pv"));
    assert_eq!(scaling, Scaling { web: Some(0), cron: Some(0) });
    let mut names = vec![];
    for outcome in [
        CallOutcome::Done { volume: Some("pv-old".to_string()) },
        CallOutcome::NotFound,
        CallOutcome::NotFound,
        done(),
        done(),
        CallOutcome::NotFound,
        done(),
    ] {
        names.push(match &stage {
            RebindStage::CheckBound { .. } => "check bound",
            RebindStage::DeleteOldClaim { .. } => "delete old",
            RebindStage::CheckOldClaim { .. } => "check old",
            RebindStage::DeleteTempClaim { .. } => "delete temp",
            RebindStage::ReleaseVolume { .. } => "release",
            RebindStage::CheckFinalClaim { .. } => "check final",
            RebindStage::CreateFinalClaim { .. } => "create final",
            RebindStage::Finished => "finished",
            RebindStage::Failed { .. } => "failed",
        });
        stage = advance_rebind(stage, &outcome);
    }
    assert_eq!(
        names,
        vec![
            "check bound",
            "delete old",
            "check old",
            "delete temp",
            "release",
            "check final",
            "create final",
        ]
    );
    assert!(matches!(stage, RebindStage::Finished));
    let waiting = RebindStage::CheckOldClaim { volume: "pv".to_string() };
    assert!(matches!(advance_rebind(waiting, &done()), RebindStage::Finished));
    let unknown = RebindStage::CheckOldClaim { volume: "pv".to_string() };
    assert!(matches!(
        advance_rebind(unknown, &CallOutcome::Failed),
        RebindStage::DeleteTempClaim { .. }
    ));
    let (_, stage) = FinalizingFilestoreMigration.ensure(&instance());
    assert!(matches!(stage, RebindStage::Failed { error: MigrationError::NoVolume }));
}

#[test]
fn a_second_rebind_leaves_the_claim_alone() {
    let (_, stage) = FinalizingFilestoreMigration.ensure(&with_volume("pv"));
    let made = build_final_claim(&with_volume("pv"), "pv");
    let look = CallOutcome::Done { volume: made.volume_name };
    assert!(matches!(advance_rebind(stage, &look), RebindStage::Finished));
    let (_, stage) = FinalizingFilestoreMigration.ensure(&with_volume("pv"));
    assert!(matches!(
        advance_rebind(stage, &CallOutcome::Failed),
        RebindStage::DeleteOldClaim { .. }
    ));
}

#[test]
fn entering_the_rebind_records_the_volume() {
    let look = CallOutcome::Done { volume: Some("pv".to_string()) };
    let entry = complete_filestore_migration(&instance(), &look).unwrap();
    assert_eq!(entry.record.as_deref(), Some("pv"));
    assert_eq!(entry.job, None);
    let entry = complete_filestore_migration(&with_volume("pv"), &CallOutcome::Failed).unwrap();
    assert_eq!(entry.record, None);
    assert_eq!(entry.job.as_deref(), Some("m"));
    assert!(matches!(
        complete_filestore_migration(&instance(), &done()),
        Err(MigrationError::NotBound)
    ));
    assert!(matches!(
        complete_filestore_migration(&instance(), &CallOutcome::NotFound),
        Err(MigrationError::Api)
    ));
}

#[test]
fn steps_are_read_from_the_status() {
    let m = MigratingFilestore;
    let mut inst = instance();
    assert_eq!(m.ensure(&inst), Some(MigrationStep::ScalingDown));
    for step in [
        MigrationStep::ScalingDown,
        MigrationStep::CreatingTempPvc,
        MigrationStep::RsyncRunning,
        MigrationStep::DeletingOldPvc,
        MigrationStep::RebindingPv,
        MigrationStep::Complete,
    ] {
        if let Some(s) = &mut inst.status {
            s.migration_step = Some(step.as_str().to_string());
        }
        assert_eq!(m.ensure(&inst), Some(step));
    }
    if let Some(s) = &mut inst.status {
        s.migration_step = Some("Elsewhere".to_string());
    }
    assert_eq!(m.ensure(&inst), None);
}

#[test]
fn scaling_down_is_waited_for() {
    let m = MigratingFilestore;
    let quiet = snapshot(JobStatus::Absent);
    assert_eq!(m.ensure_scaling_down(&quiet), Some(MigrationStep::CreatingTempPvc));
    let busy = ReconcileSnapshot { cron_ready_replicas: 1, ..snapshot(JobStatus::Absent) };
    assert_eq!(m.ensure_scaling_down(&busy), None);
}

#[test]
fn temporary_claims_are_created_once() {
    let m = MigratingFilestore;
    let (claim, next) = m.ensure_creating_temp_pvc(&instance(), "standard", true, &None);
    assert!(claim.is_none());
    assert_eq!(next, MigrationStep::RsyncRunning);
    let (claim, next) = m.ensure_creating_temp_pvc(&instance(), "standard", false, &None);
    assert_eq!(claim.unwrap().storage_size, "2Gi");
    assert_eq!(next, MigrationStep::RsyncRunning);
}

#[test]
fn copies_are_retried() {
    let m = MigratingFilestore;
    let running = with_volume("pv");
    match m.ensure_rsync_running(&instance(), &snapshot(JobStatus::Absent), "s") {
        RsyncDecision::Create { manifest } => assert_eq!(manifest.generate_name, "prod-migrate-"),
        _ => panic!("the job is created"),
    }
    match m.ensure_rsync_running(&running, &snapshot(JobStatus::Succeeded), "s") {
        RsyncDecision::Advance { job, next } => {
            assert_eq!(job, "m");
            assert_eq!(next, MigrationStep::DeletingOldPvc);
        }
        _ => panic!("the next step is due"),
    }
    match m.ensure_rsync_running(&running, &snapshot(JobStatus::Failed), "s") {
        RsyncDecision::Retry { job } => assert_eq!(job, "m"),
        _ => panic!("the copy is retried"),
    }
    assert!(matches!(
        m.ensure_rsync_running(&running, &snapshot(JobStatus::Active), "s"),
        RsyncDecision::Wait
    ));
}

#[test]
fn old_claims_are_deleted() {
    let m = MigratingFilestore;
    assert_eq!(m.ensure_deleting_old_pvc(&done()), DeletionDecision::DeleteAndLook);
    assert_eq!(
        m.ensure_deleting_old_pvc(&CallOutcome::NotFound),
        DeletionDecision::Advance { next: MigrationStep::RebindingPv }
    );
    assert_eq!(m.ensure_deleting_old_pvc(&CallOutcome::Failed), DeletionDecision::Fail);
    assert_eq!(m.after_deletion(&CallOutcome::NotFound), Some(MigrationStep::RebindingPv));
    assert_eq!(m.after_deletion(&done()), None);
}

#[test]
fn volumes_are_rebound() {
    let m = MigratingFilestore;
    let bound = TempClaimLookup::Found { volume: Some("pv".to_string()) };
    match m.ensure_rebinding_pv(&instance(), &bound, None) {
        RebindDecision::Release { volume, record } => {
            assert_eq!(volume, "pv");
            assert!(record);
        }
        _ => panic!("the volume is released"),
    }
    match m.ensure_rebinding_pv(&with_volume("old"), &TempClaimLookup::Found { volume: None }, None)
    {
        RebindDecision::Release { volume, record } => {
            assert_eq!(volume, "old");
            assert!(!record);
        }
        _ => panic!("the recorded volume is released"),
    }
    assert!(matches!(
        m.ensure_rebinding_pv(&instance(), &TempClaimLookup::Found { volume: None }, None),
        RebindDecision::Wait
    ));
    assert!(matches!(
        m.ensure_rebinding_pv(&instance(), &TempClaimLookup::Gone, None),
        RebindDecision::Stuck
    ));
    let gone = TempClaimLookup::Gone;
    let inst = with_volume("pv");
    assert!(matches!(
        m.ensure_rebinding_pv(&inst, &gone, None),
        RebindDecision::LookAtFinalClaim
    ));
    match m.ensure_rebinding_pv(&inst, &gone, Some(FinalClaimLookup::NotFound)) {
        RebindDecision::Create { claim } => assert_eq!(claim.volume_name.as_deref(), Some("pv")),
        _ => panic!("the final claim is created"),
    }
    assert!(matches!(
        m.ensure_rebinding_pv(&inst, &gone, Some(FinalClaimLookup::Found { bound: true })),
        RebindDecision::Advance { next: MigrationStep::Complete }
    ));
    assert!(matches!(
        m.ensure_rebinding_pv(&inst, &gone, Some(FinalClaimLookup::Found { bound: false })),
        RebindDecision::Wait
    ));
    assert!(matches!(
        m.ensure_rebinding_pv(&inst, &gone, Some(FinalClaimLookup::Unavailable)),
        RebindDecision::Fail
    ));
}

#[test]
fn databases_move_with_their_passwords_hidden() {
    let (old, new) = (cluster("old"), cluster("new"));
    let creds = migrating_database::migration_credentials(&old, &new);
    assert_eq!(
        creds,
        vec![
            ("SRC_ADMIN_PASSWORD".to_string(), "old-secret".to_string()),
            ("DST_ADMIN_PASSWORD".to_string(), "new-secret".to_string()),
        ]
    );
    let name = migrating_database::migration_creds_secret_name("prod");
    assert_eq!(name, "prod-migrate-db-creds");
    let env =
        migrating_database::build_migration_env(&old, &new, "prod-odoo-conf", "odoo_x", &name);
    let names: Vec<&str> = env.iter().map(|e| e.name.as_str()).collect();
    assert_eq!(
        names,
        vec![
            "SRC_HOST", "SRC_PORT", "SRC_ADMIN_USER", "SRC_ADMIN_PASSWORD", "DST_HOST",
            "DST_PORT", "DST_ADMIN_USER", "DST_ADMIN_PASSWORD", "DB_USER", "DB_PASSWORD",
            "DB_NAME",
        ]
    );
    for e in env.iter() {
        if let EnvSource::Value(v) = &e.source {
            assert!(!v.contains("secret"));
        }
    }
    assert!(matches!(&env[3].source, EnvSource::SecretKey { name, key }
        if name == "prod-migrate-db-creds" && key == "SRC_ADMIN_PASSWORD"));
    let job = migrating_database::build_migration_job(
        "prod", "erp", &instance(), "postgres:17", env, "move",
    );
    assert_eq!(job.generate_name, "prod-migrate-db-");
    assert_eq!(job.backoff_limit, Some(0));
    assert_eq!(job.active_deadline_seconds, Some(7200));
    assert_eq!(job.containers[0].name, "migrate-db");
    assert_eq!(job.containers[0].env.len(), 11);
    assert_eq!(migrating_database::tools_major(16, 18), 18);
    assert_eq!(migrating_database::tools_major(17, 15), 17);
}

#[test]
fn database_migrations_wait_for_the_pods() {
    let order = [
        migrating_database::BeginStage::ScaleWeb,
        migrating_database::BeginStage::ScaleCron,
        migrating_database::BeginStage::AwaitPods,
        migrating_database::BeginStage::LoadSource,
        migrating_database::BeginStage::LoadTarget,
        migrating_database::BeginStage::StoreCredentials,
        migrating_database::BeginStage::DetectSource,
        migrating_database::BeginStage::DetectTarget,
        migrating_database::BeginStage::CreateJob,
        migrating_database::BeginStage::Record,
        migrating_database::BeginStage::Begun,
    ];
    for i in 0..order.len() - 1 {
        assert_eq!(migrating_database::advance_begin(order[i], true), order[i + 1]);
        assert_eq!(
            migrating_database::advance_begin(order[i], false),
            migrating_database::BeginStage::Failed
        );
    }
    assert_eq!(migrating_database::POD_TERMINATION_NANOS, 120_000_000_000);
}

#[test]
fn database_migrations_need_a_source() {
    match migrating_database::source_cluster(&instance()) {
        Err(Error::Config(m)) => {
            assert_eq!(m, "cannot begin database migration: activeCluster not set")
        }
        _ => panic!("there is no source"),
    }
    let mut inst = instance();
    if let Some(s) = &mut inst.status {
        s.active_cluster = Some("a".to_string());
    }
    assert_eq!(migrating_database::source_cluster(&inst).ok().as_deref(), Some("a"));
    let r = migrating_database::begin_database_migration("j", "a", "b");
    assert_eq!(r.job_name, "j");
    assert_eq!(r.previous_cluster, "a");
    assert_eq!(r.message, "Migrating database from cluster a to b");
}

#[test]
fn database_migrations_end_either_way() {
    let mut inst = instance();
    if let Some(s) = &mut inst.status {
        s.db_migration_job_name = Some("j".to_string());
        s.migration_previous_cluster = Some("a".to_string());
    }
    let back = migrating_database::rollback_database_migration(&inst);
    assert_eq!(back.job.as_deref(), Some("j"));
    assert_eq!(back.creds_secret, "prod-migrate-db-creds");
    assert_eq!(back.revert_cluster.as_deref(), Some("a"));
    assert_eq!(back.message, "Database migration rolled back to cluster a");
    let back = migrating_database::rollback_database_migration(&instance());
    assert_eq!(back.revert_cluster, None);
    assert_eq!(FinalizingDatabaseMigration.ensure(), Scaling { web: Some(0), cron: Some(0) });
    assert_eq!(
        migrating_database::MigratingDatabase.ensure(),
        Scaling { web: Some(0), cron: Some(0) }
    );
}

#[test]
fn database_rollbacks_forget_the_migration_last() {
    let mut inst = instance();
    if let Some(s) = &mut inst.status {
        s.db_migration_job_name = Some("j".to_string());
        s.migration_previous_cluster = Some("a".to_string());
    }
    let plan = migrating_database::rollback_database_migration(&inst);
    let order = [
        migrating_database::DatabaseRollbackStage::DeleteJob,
        migrating_database::DatabaseRollbackStage::DeleteSecret,
        migrating_database::DatabaseRollbackStage::RevertSpec,
        migrating_database::DatabaseRollbackStage::ClearStatus,
        migrating_database::DatabaseRollbackStage::Finished,
    ];
    assert_eq!(migrating_database::start_rollback(&plan), order[0]);
    for i in 0..order.len() - 1 {
        assert_eq!(migrating_database::advance_rollback(order[i], true, &plan), order[i + 1]);
        let failed =
            if i < 2 { order[i + 1] } else { migrating_database::DatabaseRollbackStage::Failed };
        assert_eq!(migrating_database::advance_rollback(order[i], false, &plan), failed);
    }
    let short = migrating_database::DatabaseRollback {
        job: None,
        creds_secret: plan.creds_secret,
        revert_cluster: None,
        message: plan.message,
    };
    assert_eq!(migrating_database::start_rollback(&short), order[1]);
    assert_eq!(migrating_database::advance_rollback(order[1], false, &short), order[3]);
}

#[test]
fn migration_tools_come_from_the_later_server() {
    assert_eq!(migrating_database::tools_image(16, 18), "postgres:18");
    assert_eq!(migrating_database::tools_image(17, 15), "postgres:17");
    let secret = migrating_database::build_credentials_secret(
        &instance(), &cluster("old"), &cluster("new"),
    );
    assert_eq!(secret.name, "prod-migrate-db-creds");
    assert_eq!(secret.namespace, "erp");
    assert_eq!(secret.owner.name, "prod");
    assert_eq!(
        secret.string_data,
        migrating_database::migration_credentials(&cluster("old"), &cluster("new"))
    );
}

#[test]
fn the_new_cluster_is_recorded_last() {
    let mut inst = instance();
    if let Some(s) = &mut inst.status {
        s.db_migration_job_name = Some("j".to_string());
        s.migration_previous_cluster = Some("a".to_string());
    }
    let mut stage = complete_database_migration(&inst);
    match &stage {
        SwitchStage::DeleteJob { job } => assert_eq!(job, "j"),
        _ => panic!("the job is deleted first"),
    }
    stage = advance_switch(stage, SwitchOutcome::Failed, &inst);
    match &stage {
        SwitchStage::DeleteOldRole { cluster, username } => {
            assert_eq!(cluster, "a");
            assert_eq!(username, "odoo.erp.prod");
        }
        _ => panic!("the old role is deleted"),
    }
    stage = advance_switch(stage, SwitchOutcome::Failed, &inst);
    assert!(matches!(stage, SwitchStage::LoadCluster));
    let loaded = SwitchOutcome::Loaded { cluster: "b".to_string() };
    stage = advance_switch(stage, loaded, &inst);
    match &stage {
        SwitchStage::RecordCluster { cluster } => assert_eq!(cluster, "b"),
        _ => panic!("the cluster is recorded"),
    }
    stage = advance_switch(stage, SwitchOutcome::Done, &inst);
    assert!(matches!(stage, SwitchStage::Finished));
    assert!(matches!(complete_database_migration(&instance()), SwitchStage::LoadCluster));
    let lost = advance_switch(SwitchStage::LoadCluster, SwitchOutcome::Failed, &inst);
    assert!(matches!(lost, SwitchStage::Failed));
}
