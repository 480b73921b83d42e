//! What is done in each phase.

use odoo_operator::controller::job_manifests::{BackupScripts, RestoreScripts};
use odoo_operator::controller::state_machine::{JobStatus, ReconcileSnapshot};
use odoo_operator::controller::states::job_states::{
    started_status, BackingUp, Initializing, Restoring, Upgrading,
};
use odoo_operator::controller::states::steady::{
    state_for, PodEvent, Running, Scaling, Starting,
};
use odoo_operator::controller::states::uninitialized::{AutoJob, Uninitialized};
use odoo_operator::crd::meta::ObjectMeta;
use odoo_operator::crd::odoo_backup_job::{BackupDestination, OdooBackupJob, OdooBackupJobSpec};
use odoo_operator::crd::odoo_init_job::{OdooInitJob, OdooInitJobSpec};
use odoo_operator::crd::odoo_instance::{
    Environment, OdooInstance, OdooInstancePhase, OdooInstanceSpec,
};
use odoo_operator::crd::odoo_restore_job::{
    OdooRestoreJob, OdooRestoreJobSpec, RestoreSource, RestoreSourceType,
};
use odoo_operator::crd::shared::{
    BackupFormat, JobResourceStatus, OdooInstanceRef, Phase, S3Config, SecretReference,
};
use odoo_operator::error::Error;

fn instance(replicas: i32) -> OdooInstance {
    let spec = OdooInstanceSpec::minimal("admin", replicas, vec!["a.example.com".to_string()]);
    let mut inst = OdooInstance::new("prod", spec);
    inst.metadata.namespace = Some("erp".to_string());
    inst.metadata.uid = Some("u-1".to_string());
    inst.spec.cron.replicas = 1;
    inst
}

fn quiet() -> ReconcileSnapshot {
    ReconcileSnapshot {
        ready_replicas: 0,
        deployment_replicas: 0,
        cron_ready_replicas: 0,
        cron_deployment_replicas: 0,
        db_initialized: false,
        init_job: JobStatus::Absent,
        restore_job: JobStatus::Absent,
        upgrade_job: JobStatus::Absent,
        backup_job: JobStatus::Absent,
        active_init_job: None,
        active_restore_job: None,
        active_upgrade_job: None,
        active_backup_job: None,
        storage_class_mismatch: false,
        actual_storage_class: None,
        migration_job: JobStatus::Absent,
    }
}

fn reference() -> OdooInstanceRef {
    OdooInstanceRef { name: "prod".to_string(), namespace: None }
}

fn started(job: &str) -> Option<JobResourceStatus> {
    let mut s = JobResourceStatus::default();
    s.job_name = Some(job.to_string());
    Some(s)
}

fn secret_reference() -> Option<SecretReference> {
    Some(SecretReference { name: Some("s3".to_string()), namespace: None })
}

fn restore_job() -> OdooRestoreJob {
    OdooRestoreJob {
        metadata: ObjectMeta::named("r"),
        spec: OdooRestoreJobSpec {
            odoo_instance_ref: reference(),
            source: RestoreSource {
                source_type: RestoreSourceType::S3,
                s3: Some(S3Config {
                    bucket: "b".to_string(),
                    object_key: "k".to_string(),
                    endpoint: "e".to_string(),
                    region: None,
                    insecure: false,
                    s3_credentials_secret_ref: secret_reference(),
                }),
                odoo: None,
            },
            format: BackupFormat::Zip,
            neutralize: true,
            webhook: None,
        },
        status: None,
    }
}

fn backup_job() -> OdooBackupJob {
    OdooBackupJob {
        metadata: ObjectMeta::named("b"),
        spec: OdooBackupJobSpec {
            odoo_instance_ref: reference(),
            destination: BackupDestination {
                bucket: "b".to_string(),
                object_key: "k".to_string(),
                endpoint: "e".to_string(),
                region: None,
                insecure: false,
                s3_credentials_secret_ref: secret_reference(),
            },
            format: BackupFormat::Zip,
            with_filestore: true,
            webhook: None,
        },
        status: None,
    }
}

#[test]
fn phases_scale_the_deployments() {
    let inst = instance(3);
    let s = quiet();
    let scaling = |p: OdooInstancePhase| state_for(p, &inst, &s);
    let alone = Scaling { web: None, cron: None };
    let web_down = Scaling { web: Some(0), cron: None };
    let all_down = Scaling { web: Some(0), cron: Some(0) };
    assert_eq!(scaling(OdooInstancePhase::Provisioning), alone);
    assert_eq!(scaling(OdooInstancePhase::Degraded), alone);
    assert_eq!(scaling(OdooInstancePhase::BackingUp), alone);
    assert_eq!(scaling(OdooInstancePhase::Error), alone);
    assert_eq!(scaling(OdooInstancePhase::InitFailed), web_down);
    assert_eq!(scaling(OdooInstancePhase::Initializing), web_down);
    assert_eq!(scaling(OdooInstancePhase::Restoring), web_down);
    assert_eq!(scaling(OdooInstancePhase::Upgrading), web_down);
    assert_eq!(scaling(OdooInstancePhase::Uninitialized), all_down);
    assert_eq!(scaling(OdooInstancePhase::MigratingFilestore), all_down);
    assert_eq!(
        scaling(OdooInstancePhase::Starting),
        Scaling { web: Some(3), cron: Some(1) }
    );
    assert_eq!(Upgrading.on_enter(), web_down);
}

#[test]
fn starting_follows_the_spec() {
    assert_eq!(Starting.ensure(&instance(0)), Scaling { web: Some(0), cron: Some(1) });
    assert_eq!(Starting.ensure(&instance(2)), Scaling { web: Some(2), cron: Some(1) });
}

#[test]
fn running_follows_the_spec() {
    let s = ReconcileSnapshot { deployment_replicas: 2, ..quiet() };
    assert_eq!(Running.ensure(&instance(2), &s), Scaling { web: None, cron: None });
    assert_eq!(Running.ensure(&instance(3), &s), Scaling { web: Some(3), cron: None });
}

#[test]
fn batch_jobs_are_created_once() {
    let inst = instance(1);
    let job = |status: Option<JobResourceStatus>| OdooInitJob {
        metadata: ObjectMeta::named("i"),
        spec: OdooInitJobSpec {
            odoo_instance_ref: reference(),
            modules: vec!["sale".to_string()],
            demo: false,
            webhook: None,
        },
        status,
    };
    let s = ReconcileSnapshot { active_init_job: Some(job(None)), ..quiet() };
    let made = Initializing.ensure(&inst, &s).unwrap();
    assert_eq!(made.generate_name, "i-");
    assert_eq!(made.namespace, "erp");
    let s = ReconcileSnapshot { active_init_job: Some(job(started("i-x"))), ..quiet() };
    assert!(Initializing.ensure(&inst, &s).is_none());
    assert!(Initializing.ensure(&inst, &quiet()).is_none());
    let status = started_status("i-x", "now");
    assert_eq!(status.phase, Phase::Running);
    assert_eq!(status.job_name, "i-x");
    assert_eq!(status.start_time, "now");
}

#[test]
fn restores_ask_for_credentials() {
    let inst = instance(1);
    let s = ReconcileSnapshot { active_restore_job: Some(restore_job()), ..quiet() };
    assert_eq!(
        Restoring.credentials(&inst, &s),
        Some(("s3".to_string(), "erp".to_string()))
    );
    assert_eq!(Restoring.credentials(&inst, &quiet()), None);
    let scripts = RestoreScripts {
        s3_download: "a".to_string(),
        odoo_download: "b".to_string(),
        restore: "c".to_string(),
    };
    let work = Restoring.ensure(&inst, &s, &None, &scripts).unwrap();
    assert_eq!(work.generate_name, "r-");
    let mut begun = restore_job();
    begun.status = started("r-x");
    let s = ReconcileSnapshot { active_restore_job: Some(begun), ..quiet() };
    assert_eq!(Restoring.credentials(&inst, &s), None);
    assert!(Restoring.ensure(&inst, &s, &None, &scripts).is_none());
    let e = Restoring.started_event("r-x");
    assert_eq!(e.reason, "RestoreStarted");
    assert_eq!(e.note, "Created restore job r-x");
}

#[test]
fn backups_ask_for_credentials() {
    let inst = instance(1);
    let s = ReconcileSnapshot { active_backup_job: Some(backup_job()), ..quiet() };
    assert_eq!(
        BackingUp.credentials(&inst, &s),
        Some(("s3".to_string(), "erp".to_string()))
    );
    let scripts = BackupScripts { backup: "a".to_string(), upload: "b".to_string() };
    assert!(BackingUp.ensure(&inst, &s, &None, &scripts).is_some());
    assert!(BackingUp.ensure(&inst, &quiet(), &None, &scripts).is_none());
    let e = BackingUp.started_event("b-x");
    assert_eq!(e.reason, "BackupStarted");
    assert_eq!(e.note, "Created backup job b-x");
}

#[test]
fn new_instances_are_initialised_on_request() {
    let mut inst = instance(1);
    assert!(matches!(
        Uninitialized.ensure(&inst, &quiet(), JobStatus::Absent),
        Ok(AutoJob::Nothing)
    ));
    inst.spec.init.enabled = true;
    inst.spec.init.modules = vec!["sale".to_string()];
    inst.spec.init.demo = true;
    match Uninitialized.ensure(&inst, &quiet(), JobStatus::Absent) {
        Ok(AutoJob::Init(j)) => {
            assert_eq!(j.name, "prod-auto-init");
            assert_eq!(j.namespace, "erp");
            assert_eq!(j.owner.name, "prod");
            assert_eq!(j.instance_name, "prod");
            assert_eq!(j.modules, vec!["sale".to_string()]);
            assert!(j.demo);
        }
        _ => panic!("an init job is created"),
    }
    assert!(matches!(
        Uninitialized.ensure(&inst, &quiet(), JobStatus::Active),
        Ok(AutoJob::Nothing)
    ));
    let restoring = ReconcileSnapshot { restore_job: JobStatus::Active, ..quiet() };
    assert!(matches!(
        Uninitialized.ensure(&inst, &restoring, JobStatus::Absent),
        Ok(AutoJob::Nothing)
    ));
}

#[test]
fn staging_instances_are_cloned() {
    let mut inst = instance(1);
    inst.spec.init.enabled = true;
    inst.spec.environment = Environment::Staging;
    inst.spec.production_instance_ref = Some(OdooInstanceRef {
        name: "live".to_string(),
        namespace: Some("live-ns".to_string()),
    });
    match Uninitialized.ensure(&inst, &quiet(), JobStatus::Absent) {
        Ok(AutoJob::Refresh(j)) => {
            assert_eq!(j.name, "prod-auto-refresh");
            assert_eq!(j.source_name, "live");
            assert_eq!(j.source_namespace.as_deref(), Some("live-ns"));
            assert_eq!(
                j.labels,
                vec![("bemade.org/auto-refresh".to_string(), "true".to_string())]
            );
        }
        _ => panic!("a refresh job is created"),
    }
    inst.spec.environment = Environment::Production;
    match Uninitialized.ensure(&inst, &quiet(), JobStatus::Absent) {
        Err(Error::Config(m)) => assert_eq!(
            m,
            "spec.productionInstanceRef is forbidden on production instances"
        ),
        _ => panic!("production instances are not cloned"),
    }
}

fn pod_event(pod: &str, reason: &str, count: i32) -> PodEvent {
    PodEvent { pod: pod.to_string(), reason: reason.to_string(), count }
}

#[test]
fn pods_stuck_on_a_mount_are_deleted() {
    let pods = vec!["prod-1".to_string(), "prod-2".to_string(), "prod-3".to_string()];
    let events = vec![
        pod_event("prod-3", "FailedAttachVolume", 4),
        pod_event("prod-2", "BackOff", 9),
        pod_event("prod-1", "FailedMount", 2),
        pod_event("other-1", "FailedMount", 8),
    ];
    let stuck = Starting.recover_stuck_mounts(&pods, &events);
    assert_eq!(stuck, vec!["prod-1".to_string(), "prod-3".to_string()]);
}

#[test]
fn a_first_mount_failure_is_waited_out() {
    let pods = vec!["prod-1".to_string()];
    let events = vec![pod_event("prod-1", "FailedMount", 1)];
    assert!(Starting.recover_stuck_mounts(&pods, &events).is_empty());
    assert!(Starting.recover_stuck_mounts(&pods, &Vec::new()).is_empty());
}
