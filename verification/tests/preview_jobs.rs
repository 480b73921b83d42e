//! The job controllers of the preview.

use odoo_operator::controller::jobs::JobKind;
use odoo_operator::controller::state_machine::{Action, JobLookup};
use odoo_operator::crd::meta::ObjectMeta;
use odoo_operator::crd::odoo_init_job::{OdooInitJob, OdooInitJobSpec};
use odoo_operator::crd::odoo_instance::{
    OdooInstance, OdooInstancePhase, OdooInstanceSpec, OdooInstanceStatus,
};
use odoo_operator::crd::odoo_upgrade_job::{OdooUpgradeJob, OdooUpgradeJobSpec};
use odoo_operator::crd::shared::{JobResourceStatus, OdooInstanceRef, Phase, WebhookConfig};
use odoo_operator::helpers::Instant;
use odoo_operator::preview::job_controller::{
    instance_error, reconcile, reconcile_upgrade, reconcile_upgrade_at, start_job, start_job_at,
    sync_job_status, sync_job_status_at, JobDecision, SyncPlan,
};
use odoo_operator::preview::odoo_instance::{
    phase_to_condition, phase_to_condition_at, status_update, status_update_at,
};
use odoo_operator::preview::state_machine::ReconcileSnapshot;

const NOW: Instant = Instant { secs: 1_767_225_600, nanos: 0 };

fn status(phase: Option<Phase>, job: Option<&str>) -> Option<JobResourceStatus> {
    let mut s = JobResourceStatus::default();
    s.phase = phase;
    s.job_name = job.map(|j| j.to_string());
    Some(s)
}

fn init_job(phase: Option<Phase>, job: Option<&str>) -> OdooInitJob {
    OdooInitJob {
        metadata: ObjectMeta::named("i"),
        spec: OdooInitJobSpec {
            odoo_instance_ref: OdooInstanceRef { name: "prod".to_string(), namespace: None },
            modules: vec![],
            demo: false,
            webhook: None,
        },
        status: status(phase, job),
    }
}

fn upgrade_job(at: Option<&str>, phase: Option<Phase>) -> OdooUpgradeJob {
    OdooUpgradeJob {
        metadata: ObjectMeta::named("u"),
        spec: OdooUpgradeJobSpec {
            odoo_instance_ref: OdooInstanceRef { name: "prod".to_string(), namespace: None },
            modules: vec![],
            modules_install: vec![],
            scheduled_time: at.map(|t| t.to_string()),
            webhook: None,
        },
        status: status(phase, None),
    }
}

#[test]
fn jobs_are_started_synced_and_left() {
    assert!(matches!(reconcile(&init_job(None, None)), JobDecision::Start));
    match reconcile(&init_job(Some(Phase::Running), Some("i-x"))) {
        JobDecision::Sync { job_name } => assert_eq!(job_name, "i-x"),
        _ => panic!("the batch job is looked at"),
    }
    assert!(matches!(
        reconcile(&init_job(Some(Phase::Completed), Some("i-x"))),
        JobDecision::Done
    ));
    assert!(matches!(reconcile(&init_job(Some(Phase::Failed), None)), JobDecision::Done));
}

#[test]
fn upgrades_are_scheduled() {
    match reconcile_upgrade_at(&upgrade_job(Some("2026-01-01T00:00:30Z"), None), NOW) {
        JobDecision::Wait { nanos } => assert_eq!(nanos, 30_000_000_000),
        _ => panic!("the upgrade waits"),
    }
    assert!(matches!(
        reconcile_upgrade_at(&upgrade_job(Some("2026-01-01T00:00:00Z"), None), NOW),
        JobDecision::Start
    ));
    assert!(matches!(
        reconcile_upgrade_at(&upgrade_job(Some("soon"), None), NOW),
        JobDecision::Start
    ));
    assert!(matches!(
        reconcile_upgrade_at(
            &upgrade_job(Some("2026-01-01T00:00:30Z"), Some(Phase::Failed)),
            NOW
        ),
        JobDecision::Done
    ));
    assert!(matches!(reconcile_upgrade(&upgrade_job(None, None)), JobDecision::Start));
}

#[test]
fn starts_are_recorded() {
    let plan = start_job_at(JobKind::Upgrade, "u-x", "now");
    assert_eq!(plan.event.reason, "UpgradeStarted");
    assert_eq!(plan.event.note, "Created upgrade job u-x");
    assert_eq!(plan.status.job_name, "u-x");
    assert_eq!(plan.status.start_time, "now");
    assert_eq!(plan.action, Action::RequeueAfter { nanos: 10_000_000_000 });
    assert_eq!(start_job(JobKind::Init, "i-x").event.reason, "InitStarted");
}

#[test]
fn ends_are_recorded() {
    let hook = Some(WebhookConfig {
        url: "https://hook".to_string(),
        token: None,
        secret_token_secret_ref: None,
    });
    let won = JobLookup::Found { succeeded: Some(1), failed: None, deleting: false };
    match sync_job_status_at(JobKind::Backup, won, &hook, &Some("b-x".to_string()), "now") {
        SyncPlan::Finish { plan } => {
            assert!(!plan.event.warning);
            assert_eq!(plan.event.reason, "BackupCompleted");
            assert_eq!(plan.phase, Phase::Completed);
            assert_eq!(plan.message, None);
            assert_eq!(plan.completion_time, "now");
            let n = plan.notification.unwrap();
            assert_eq!(n.job_name.as_deref(), Some("b-x"));
            assert_eq!(n.phase, Phase::Completed);
        }
        _ => panic!("the job is at its end"),
    }
    let lost = JobLookup::Found { succeeded: Some(0), failed: Some(2), deleting: false };
    match sync_job_status(JobKind::Upgrade, lost, &None, &None) {
        SyncPlan::Finish { plan } => {
            assert!(plan.event.warning);
            assert_eq!(plan.event.reason, "UpgradeFailed");
            assert_eq!(plan.event.note, "Upgrade job failed");
            assert_eq!(plan.phase, Phase::Failed);
            assert_eq!(plan.message.as_deref(), Some("upgrade job failed"));
            assert!(plan.notification.is_none());
        }
        _ => panic!("the job is at its end"),
    }
    let active = JobLookup::Found { succeeded: None, failed: None, deleting: true };
    assert!(matches!(sync_job_status(JobKind::Init, active, &None, &None), SyncPlan::Nothing));
    assert!(matches!(
        sync_job_status(JobKind::Init, JobLookup::NotFound, &None, &None),
        SyncPlan::Nothing
    ));
    assert!(matches!(
        sync_job_status(JobKind::Init, JobLookup::Unavailable, &None, &None),
        SyncPlan::Fail
    ));
}

#[test]
fn missing_instances_are_reported() {
    assert_eq!(
        instance_error("prod", "gone").message(),
        "Reconcile error: OdooInstance prod not found: gone"
    );
}

#[test]
fn one_condition_tells_the_phase() {
    let c = phase_to_condition_at(&OdooInstancePhase::Degraded, 4, NOW);
    assert_eq!(c.type_, "Ready");
    assert_eq!(c.status, "False");
    assert_eq!(c.reason, "Degraded");
    assert_eq!(c.observed_generation, Some(4));
    assert_eq!(c.last_transition_time, NOW);
    assert_eq!(phase_to_condition(&OdooInstancePhase::Running, 1).status, "True");
}

#[test]
fn statuses_are_always_written() {
    let spec = OdooInstanceSpec::minimal("admin", 1, vec!["a".to_string()]);
    let mut inst = OdooInstance::new("prod", spec);
    let mut s = OdooInstanceStatus::default();
    s.phase = Some(OdooInstancePhase::Running);
    inst.status = Some(s);
    let snap = ReconcileSnapshot {
        ready_replicas: 1,
        db_initialized: true,
        init_job_phase: None,
        restore_job_phase: None,
        upgrade_job_phase: None,
        backup_job_active: false,
        restore_job_active: false,
        upgrade_job_active: false,
        active_init_job: None,
        active_restore_job: None,
        active_upgrade_job: None,
        active_backup_job: None,
    };
    let u = status_update_at(&inst, &snap, NOW);
    assert_eq!(u.ready_replicas, 1);
    assert!(u.ready);
    assert_eq!(u.url.as_deref(), Some("https://a"));
    assert_eq!(u.target_replicas, 1);
    assert_eq!(u.condition.reason, "Running");
    assert_eq!(status_update(&inst, &snap).condition.status, "True");
}
