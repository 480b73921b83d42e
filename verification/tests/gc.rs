//! Bounding the history of finished jobs.

use odoo_operator::controller::gc::{
    count_deletions, garbage_collect_job_crs, next_deletion, prune, DeletionOutcome,
};
use odoo_operator::crd::meta::ObjectMeta;
use odoo_operator::crd::odoo_init_job::{OdooInitJob, OdooInitJobSpec};
use odoo_operator::crd::odoo_instance::{OdooInstance, OdooInstanceSpec};
use odoo_operator::crd::shared::{JobResourceStatus, OdooInstanceRef, Phase};
use odoo_operator::helpers::Instant;

fn job(name: &str, instance: &str, phase: Option<Phase>, secs: Option<i64>) -> OdooInitJob {
    let mut metadata = ObjectMeta::named(name);
    metadata.creation_timestamp = secs.map(|s| Instant { secs: s, nanos: 0 });
    let mut status = JobResourceStatus::default();
    status.phase = phase;
    OdooInitJob {
        metadata,
        spec: OdooInitJobSpec {
            odoo_instance_ref: OdooInstanceRef { name: instance.to_string(), namespace: None },
            modules: vec![],
            demo: false,
            webhook: None,
        },
        status: Some(status),
    }
}

fn texts(v: &[&str]) -> Vec<String> {
    v.iter().map(|s| s.to_string()).collect()
}

#[test]
fn the_newest_jobs_are_kept() {
    let jobs = vec![
        job("old", "prod", Some(Phase::Completed), Some(1)),
        job("newest", "prod", Some(Phase::Failed), Some(9)),
        job("undated", "prod", Some(Phase::Completed), None),
        job("middle", "prod", Some(Phase::Completed), Some(5)),
    ];
    assert_eq!(prune(&jobs, "prod", 2), texts(&["old", "undated"]));
    assert_eq!(prune(&jobs, "prod", 1), texts(&["middle", "old", "undated"]));
    assert!(prune(&jobs, "prod", 4).is_empty());
}

#[test]
fn running_jobs_are_never_deleted() {
    let jobs = vec![
        job("running", "prod", Some(Phase::Running), Some(1)),
        job("pending", "prod", Some(Phase::Pending), Some(1)),
        job("new", "prod", None, Some(1)),
        job("foreign", "test", Some(Phase::Completed), Some(1)),
        job("done", "prod", Some(Phase::Completed), Some(2)),
        job("failed", "prod", Some(Phase::Failed), Some(3)),
    ];
    assert_eq!(prune(&jobs, "prod", 1), texts(&["done"]));
    assert_eq!(prune(&jobs, "prod", 0), texts(&["failed", "done"]));
}

#[test]
fn equal_ages_keep_their_order() {
    let jobs = vec![
        job("a", "prod", Some(Phase::Completed), Some(1)),
        job("b", "prod", Some(Phase::Completed), Some(1)),
        job("c", "prod", Some(Phase::Completed), Some(1)),
    ];
    assert_eq!(prune(&jobs, "prod", 1), texts(&["b", "c"]));
}

#[test]
fn a_limit_of_zero_disables_collection() {
    let mut inst = OdooInstance::new("prod", OdooInstanceSpec::minimal("a", 1, vec![]));
    assert_eq!(garbage_collect_job_crs(&inst, 3), None);
    inst.metadata.namespace = Some("erp".to_string());
    assert_eq!(garbage_collect_job_crs(&inst, 0), None);
    assert_eq!(garbage_collect_job_crs(&inst, 3).as_deref(), Some("erp"));
}

#[test]
fn sweeps_go_on_after_a_failure() {
    let names = vec!["a".to_string(), "b".to_string(), "c".to_string()];
    let mut outcomes = vec![];
    assert_eq!(next_deletion(&names, &outcomes).as_deref(), Some("a"));
    outcomes.push(DeletionOutcome::Failed);
    assert_eq!(next_deletion(&names, &outcomes).as_deref(), Some("b"));
    outcomes.push(DeletionOutcome::Gone);
    assert_eq!(count_deletions(&outcomes), 0);
    assert_eq!(next_deletion(&names, &outcomes).as_deref(), Some("c"));
    outcomes.push(DeletionOutcome::Deleted);
    assert_eq!(next_deletion(&names, &outcomes), None);
    assert_eq!(count_deletions(&outcomes), 1);
    assert_eq!(next_deletion(&vec![], &vec![]), None);
    assert_eq!(count_deletions(&vec![]), 0);
}
