//! The reconciliation of an instance.

use odoo_operator::controller::helpers::controller_owner_ref;
use odoo_operator::controller::odoo_instance::{
    announce_phase, announce_phase_at, cleanup_failed_event, cleanup_instance, clusters_document,
    clusters_secret_name, contains_text, defaults_event, error_policy, kube_object_ref,
    load_postgres_cluster, load_postgres_cluster_by_name, phase_to_conditions, phase_to_conditions_at, reconcile_instance,
    status_update, status_update_at, strip_stale_finalizer, url_of, Child, ReconcileStage,
    StageOutcome, ERROR_NANOS, FINALIZER, KOPF_FINALIZER,
};
use odoo_operator::controller::state_machine::{Action, JobStatus, ReconcileSnapshot};
use odoo_operator::crd::odoo_instance::{
    DatabaseSpec, OdooInstance, OdooInstancePhase, OdooInstanceSpec, OdooInstanceStatus,
    OdooWebhookConfig,
};
use odoo_operator::error::Error;
use odoo_operator::helpers::Instant;
use odoo_operator::postgres::PostgresClusterConfig;
use odoo_operator::preview;

const NOW: Instant = Instant { secs: 1_767_225_600, nanos: 0 };

fn instance() -> OdooInstance {
    let spec = OdooInstanceSpec::minimal("admin", 2, vec!["a.example.com".to_string()]);
    let mut inst = OdooInstance::new("prod", spec);
    inst.metadata.namespace = Some("erp".to_string());
    inst.metadata.uid = Some("u-1".to_string());
    inst.metadata.generation = Some(7);
    inst
}

fn with_status(phase: Option<OdooInstancePhase>) -> OdooInstance {
    let mut inst = instance();
    let mut status = OdooInstanceStatus::default();
    status.phase = phase;
    inst.status = Some(status);
    inst
}

fn ready(n: i32) -> ReconcileSnapshot {
    ReconcileSnapshot {
        ready_replicas: n,
        deployment_replicas: 2,
        cron_ready_replicas: 0,
        cron_deployment_replicas: 0,
        db_initialized: true,
        init_job: JobStatus::Absent,
        restore_job: JobStatus::Absent,
        upgrade_job: JobStatus::Absent,
        backup_job: JobStatus::Absent,
        active_init_job: None,
        active_restore_job: None,
        active_upgrade_job: None,
        active_backup_job: None,
        storage_class_mismatch: false,
        actual_storage_class: None,
        migration_job: JobStatus::Absent,
    }
}

fn cluster(host: &str, default: bool) -> PostgresClusterConfig {
    PostgresClusterConfig {
        host: host.to_string(),
        port: 5432,
        admin_user: "postgres".to_string(),
        admin_password: "pw".to_string(),
        default,
    }
}

fn clusters(v: Vec<(&str, bool)>) -> Vec<(String, PostgresClusterConfig)> {
    v.into_iter().map(|(n, d)| (n.to_string(), cluster(n, d))).collect()
}

#[test]
fn references_point_at_the_object() {
    let mut inst = instance();
    inst.metadata.resource_version = Some("42".to_string());
    let r = kube_object_ref("OdooInstance", &inst.metadata);
    assert_eq!(r.api_version, "bemade.org/v1alpha1");
    assert_eq!(r.kind, "OdooInstance");
    assert_eq!(r.name, "prod");
    assert_eq!(r.namespace.as_deref(), Some("erp"));
    assert_eq!(r.uid.as_deref(), Some("u-1"));
    assert_eq!(r.resource_version.as_deref(), Some("42"));
    let owner = controller_owner_ref(&inst);
    assert_eq!(owner.controller, Some(true));
    assert_eq!(owner.name, "prod");
}

#[test]
fn stale_finalizers_are_stripped() {
    let mut inst = instance();
    inst.metadata.finalizers = vec![FINALIZER.to_string()];
    assert_eq!(strip_stale_finalizer(&inst), None);
    inst.metadata.finalizers = vec![
        KOPF_FINALIZER.to_string(),
        FINALIZER.to_string(),
        KOPF_FINALIZER.to_string(),
    ];
    assert_eq!(strip_stale_finalizer(&inst), Some(vec![FINALIZER.to_string()]));
}

#[test]
fn texts_are_searched() {
    assert!(contains_text("xObjectNotFound!", "ObjectNotFound"));
    assert!(contains_text("aab", "ab"));
    assert!(contains_text("", ""));
    assert!(!contains_text("", "a"));
    assert!(!contains_text("aba", "abb"));
}

#[test]
fn errors_are_waited_out() {
    let gone = Error::Finalizer("object: ObjectNotFound".to_string());
    assert_eq!(error_policy(&gone), Action::AwaitChange);
    let again = Action::RequeueAfter { nanos: ERROR_NANOS };
    assert_eq!(error_policy(&Error::Finalizer("refused".to_string())), again);
    assert_eq!(error_policy(&Error::Kube("ObjectNotFound".to_string())), again);
    assert_eq!(preview::job_controller::error_policy(), again);
}

#[test]
fn reconciliations_go_step_by_step() {
    let mut stage = ReconcileStage::ApplyDefaults;
    let mut seen = vec![];
    while !matches!(stage, ReconcileStage::Finished { .. }) {
        seen.push(stage);
        stage = reconcile_instance(stage, StageOutcome::Done { changed: false });
    }
    assert_eq!(
        seen,
        vec![
            ReconcileStage::ApplyDefaults,
            ReconcileStage::LoadCluster,
            ReconcileStage::Ensure { child: Child::ImagePullSecret },
            ReconcileStage::Ensure { child: Child::UserSecret },
            ReconcileStage::Ensure { child: Child::PostgresRole },
            ReconcileStage::Ensure { child: Child::FilestoreClaim },
            ReconcileStage::Ensure { child: Child::ConfigMap },
            ReconcileStage::Ensure { child: Child::Service },
            ReconcileStage::Ensure { child: Child::Ingress },
            ReconcileStage::Ensure { child: Child::Deployment },
            ReconcileStage::Gather,
            ReconcileStage::UpdateStatus,
            ReconcileStage::RunStateMachine,
            ReconcileStage::ReadPhase,
            ReconcileStage::AnnouncePhase,
        ]
    );
    assert_eq!(stage, ReconcileStage::Finished { at_once: false });
}

#[test]
fn written_defaults_start_over() {
    let changed = StageOutcome::Done { changed: true };
    let stage = reconcile_instance(ReconcileStage::ApplyDefaults, changed);
    assert_eq!(stage, ReconcileStage::AnnounceDefaults);
    let stage = reconcile_instance(stage, StageOutcome::Failed);
    assert_eq!(stage, ReconcileStage::Finished { at_once: true });
    let stage = reconcile_instance(ReconcileStage::Gather, StageOutcome::Failed);
    assert_eq!(stage, ReconcileStage::Failed);
    let e = defaults_event();
    assert!(!e.warning);
    assert_eq!(e.reason, "DefaultsApplied");
    assert_eq!(e.action, "Reconcile");
    assert_eq!(e.note, "Operator defaults applied to spec");
}

#[test]
fn statuses_are_written_when_they_change() {
    let update = status_update_at(&instance(), &ready(2), NOW).unwrap();
    assert_eq!(update.ready_replicas, 2);
    assert!(!update.ready);
    assert_eq!(update.url.as_deref(), Some("https://a.example.com"));
    assert_eq!(update.target_replicas, 2);
    assert!(update.db_initialized);
    assert_eq!(update.conditions.len(), 2);
    assert_eq!(update.conditions[0].observed_generation, Some(7));
    let running = with_status(Some(OdooInstancePhase::Running));
    assert!(status_update(&running, &ready(2)).unwrap().ready);
}

#[test]
fn unchanged_statuses_are_left_alone() {
    let mut inst = with_status(Some(OdooInstancePhase::Running));
    if let Some(s) = &mut inst.status {
        s.ready_replicas = 2;
        s.ready = true;
        s.url = Some("https://a.example.com".to_string());
        s.target_replicas = Some(2);
        s.db_initialized = true;
    }
    assert!(status_update_at(&inst, &ready(2), NOW).is_none());
    assert!(status_update_at(&inst, &ready(1), NOW).is_some());
    inst.spec.ingress.hosts = vec![];
    assert_eq!(url_of(&inst), None);
    assert!(status_update_at(&inst, &ready(2), NOW).is_some());
}

#[test]
fn updates_settle() {
    let mut inst = with_status(Some(OdooInstancePhase::Starting));
    let update = status_update_at(&inst, &ready(2), NOW).unwrap();
    assert!(!update.ready);
    if let Some(s) = &mut inst.status {
        s.ready_replicas = update.ready_replicas;
        s.ready = update.ready;
        s.url = update.url;
        s.target_replicas = Some(update.target_replicas);
        s.db_initialized = update.db_initialized;
    }
    assert!(status_update_at(&inst, &ready(2), NOW).is_none());
    if let Some(s) = &mut inst.status {
        s.phase = Some(OdooInstancePhase::Running);
    }
    assert!(status_update_at(&inst, &ready(2), NOW).unwrap().ready);
}

#[test]
fn phases_become_conditions() {
    let c = phase_to_conditions_at(&OdooInstancePhase::Running, 3, NOW);
    assert_eq!(c[0].type_, "Ready");
    assert_eq!(c[0].status, "True");
    assert_eq!(c[0].reason, "Running");
    assert_eq!(c[0].message, "Instance is running");
    assert_eq!(c[0].observed_generation, Some(3));
    assert_eq!(c[0].last_transition_time, NOW);
    assert_eq!(c[1].type_, "Progressing");
    assert_eq!(c[1].status, "False");
    let c = phase_to_conditions(&OdooInstancePhase::BackingUp, 0);
    assert_eq!(c[0].status, "False");
    assert_eq!(c[0].message, "Backup in progress");
    assert_eq!(c[1].status, "True");
    let c = phase_to_conditions(&OdooInstancePhase::Uninitialized, 0);
    assert_eq!(c[0].message, "Waiting for database initialization");
    assert_eq!(c[1].status, "False");
}

#[test]
fn new_phases_are_announced() {
    let mut inst = with_status(Some(OdooInstancePhase::Starting));
    inst.spec.webhook = Some(OdooWebhookConfig { url: "https://hook".to_string() });
    assert!(announce_phase_at(&inst, Some(OdooInstancePhase::Starting), "t").is_none());
    let change = announce_phase_at(&inst, Some(OdooInstancePhase::Running), "t").unwrap();
    assert_eq!(change.event.reason, "PhaseChanged");
    assert_eq!(change.event.note, "Phase changed from Starting to Running");
    let notice = change.notice.unwrap();
    assert_eq!(notice.callback, "https://hook");
    assert_eq!(notice.name, "prod");
    assert_eq!(notice.namespace, "erp");
    assert_eq!(notice.phase, "Running");
    assert_eq!(notice.previous_phase, "Starting");
    assert_eq!(notice.url.as_deref(), Some("https://a.example.com"));
    assert_eq!(notice.timestamp, "t");
    let first = announce_phase(&instance(), Some(OdooInstancePhase::Uninitialized)).unwrap();
    assert_eq!(first.event.note, "Phase changed from  to Uninitialized");
    assert!(first.notice.is_none());
}

#[test]
fn deletions_clean_up_the_role() {
    let plan = cleanup_instance(&instance(), true);
    assert_eq!(plan.event.reason, "Cleanup");
    assert_eq!(plan.event.action, "Finalize");
    assert_eq!(plan.event.note, "Deleting postgres role");
    assert_eq!(plan.role.as_deref(), Some("odoo.erp.prod"));
    assert_eq!(plan.action, Action::AwaitChange);
    assert_eq!(cleanup_instance(&instance(), false).role, None);
    let failed = cleanup_failed_event(&Error::Postgres("down".to_string()));
    assert!(failed.warning);
    assert_eq!(failed.note, "Failed to delete postgres role: PostgreSQL error: down");
}

fn config_message<T>(r: Result<T, Error>) -> String {
    match r {
        Err(Error::Config(m)) => m,
        _ => panic!("a configuration error is expected"),
    }
}

#[test]
fn cluster_secrets_are_read() {
    assert_eq!(clusters_secret_name(""), "postgres-clusters");
    assert_eq!(clusters_secret_name("mine"), "mine");
    let data = vec![("clusters.yaml".to_string(), b"a: 1".to_vec())];
    assert_eq!(clusters_document("s", Ok(data)).ok().as_deref(), Some("a: 1"));
    assert_eq!(
        config_message(clusters_document("s", Ok(vec![]))),
        "postgres-clusters secret missing clusters.yaml key"
    );
    assert_eq!(
        config_message(clusters_document("s", Err("gone".to_string()))),
        "reading s secret: gone"
    );
}

#[test]
fn clusters_are_named_or_default() {
    let all = clusters(vec![("a", false), ("b", true), ("c", true)]);
    let (name, pg) = load_postgres_cluster(&instance(), &all, "s").ok().unwrap();
    assert_eq!((name.as_str(), pg.host.as_str()), ("b", "b"));
    let mut inst = instance();
    inst.spec.database = Some(DatabaseSpec { cluster: Some("a".to_string()) });
    let (name, _) = load_postgres_cluster(&inst, &all, "s").ok().unwrap();
    assert_eq!(name, "a");
    inst.spec.database = Some(DatabaseSpec { cluster: Some("".to_string()) });
    let (name, _) = load_postgres_cluster(&inst, &all, "s").ok().unwrap();
    assert_eq!(name, "b");
    inst.spec.database = Some(DatabaseSpec { cluster: Some("q\"x".to_string()) });
    assert_eq!(
        config_message(load_postgres_cluster(&inst, &all, "s")),
        "postgres cluster \"q\\\"x\" not found"
    );
    assert_eq!(
        config_message(load_postgres_cluster(&instance(), &clusters(vec![("a", false)]), "s")),
        "no default postgres cluster configured in s secret"
    );
}

#[test]
fn a_recorded_name_never_means_the_default() {
    let all = clusters(vec![("a", false), ("b", true)]);
    assert_eq!(load_postgres_cluster_by_name(&all, "a").ok().unwrap().host, "a");
    match load_postgres_cluster_by_name(&all, "") {
        Err(Error::Config(m)) => assert_eq!(m, "postgres cluster \"\" not found"),
        _ => panic!("an empty name is no cluster"),
    }
}

#[test]
fn defaults_are_the_first_in_order_of_name() {
    let all = clusters(vec![("z", true), ("m", true), ("a", false)]);
    let (name, _) = load_postgres_cluster(&instance(), &all, "s").ok().unwrap();
    assert_eq!(name, "m");
}
