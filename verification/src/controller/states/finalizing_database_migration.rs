//! Switching an instance over to the cluster that its database was copied to.

use vstd::prelude::*;

use crate::controller::states::migrating_database::db_migration_job;
use crate::controller::states::steady::{all_down, Scaling};
use crate::crd::meta::clone_opt;
use crate::crd::odoo_instance::OdooInstance;
use crate::helpers::{odoo_username, username_text};

verus! {

/// Switching over: the instance and its scheduled actions are down.
pub struct FinalizingDatabaseMigration;

impl FinalizingDatabaseMigration {
    /// The outputs of the phase.
    pub fn ensure(&self) -> (r: Scaling)
        ensures
            r == all_down(),
    {
        Scaling { web: Some(0), cron: Some(0) }
    }
}

/// The cluster that the database came from.
pub open spec fn previous_cluster(instance: OdooInstance) -> Option<String> {
    match instance.status {
        Some(s) => s.migration_previous_cluster,
        None => None,
    }
}

/// A stage of the switch: the call that is due.
#[derive(Clone, Debug)]
pub enum SwitchStage {
    /// Delete the job that made the copy.
    DeleteJob { job: String },
    /// Delete the role, and what it owns, on the old cluster.
    DeleteOldRole { cluster: String, username: String },
    /// Find out which cluster the instance asks for.
    LoadCluster,
    /// Make the cluster the active one.
    RecordCluster { cluster: String },
    /// Everything is done.
    Finished,
    /// The switch cannot go on for now.
    Failed,
}

/// The outcome of a call.
#[derive(Clone, Debug)]
pub enum SwitchOutcome {
    Done,
    /// The cluster that the instance asks for.
    Loaded { cluster: String },
    Failed,
}

/// Whether a stage is what is due once there is no job any more: the role on the
/// old cluster goes, if one is recorded.
pub open spec fn is_after_job(r: SwitchStage, instance: OdooInstance) -> bool {
    match previous_cluster(instance) {
        Some(c) => {
            &&& r matches SwitchStage::DeleteOldRole { cluster, username }
            &&& cluster@ == c@
            &&& username@ == username_text(
                instance.metadata.namespace_text(),
                instance.metadata.name_text(),
            )
        },
        None => r is LoadCluster,
    }
}

/// Whether a stage is the first one.
pub open spec fn is_switch_start(r: SwitchStage, instance: OdooInstance) -> bool {
    match db_migration_job(instance) {
        Some(j) => r matches SwitchStage::DeleteJob { job } && job@ == j@,
        None => is_after_job(r, instance),
    }
}

/// Whether a stage is the one that follows a call.  The job and the old role are
/// deleted as far as that is possible: a failure there blocks nothing.
pub open spec fn is_switch_after(
    r: SwitchStage,
    stage: SwitchStage,
    outcome: SwitchOutcome,
    instance: OdooInstance,
) -> bool {
    match stage {
        SwitchStage::DeleteJob { .. } => is_after_job(r, instance),
        SwitchStage::DeleteOldRole { .. } => r is LoadCluster,
        SwitchStage::LoadCluster => match outcome {
            SwitchOutcome::Loaded { cluster: c } => r matches SwitchStage::RecordCluster {
                cluster,
            } && cluster@ == c@,
            _ => r is Failed,
        },
        SwitchStage::RecordCluster { .. } => if outcome is Failed {
            r is Failed
        } else {
            r is Finished
        },
        SwitchStage::Finished => r is Finished,
        SwitchStage::Failed => r is Failed,
    }
}

fn after_job(instance: &OdooInstance) -> (r: SwitchStage)
    ensures
        is_after_job(r, *instance),
{
    let previous = match &instance.status {
        Some(s) => clone_opt(&s.migration_previous_cluster),
        None => None,
    };
    match previous {
        Some(cluster) => {
            let name = instance.metadata.name_any();
            let ns = instance.metadata.namespace_or_default();
            let username = odoo_username(ns.as_str(), name.as_str());
            SwitchStage::DeleteOldRole { cluster, username }
        },
        None => SwitchStage::LoadCluster,
    }
}

/// Starts the switch to the cluster that the instance asks for.
pub fn complete_database_migration(instance: &OdooInstance) -> (r: SwitchStage)
    ensures
        is_switch_start(r, *instance),
{
    let job = match &instance.status {
        Some(s) => clone_opt(&s.db_migration_job_name),
        None => None,
    };
    match job {
        Some(job) => SwitchStage::DeleteJob { job },
        None => after_job(instance),
    }
}

/// Goes on to the stage that follows a call.
pub fn advance_switch(stage: SwitchStage, outcome: SwitchOutcome, instance: &OdooInstance) -> (r:
    SwitchStage)
    ensures
        is_switch_after(r, stage, outcome, *instance),
{
    match stage {
        SwitchStage::DeleteJob { .. } => after_job(instance),
        SwitchStage::DeleteOldRole { .. } => SwitchStage::LoadCluster,
        SwitchStage::LoadCluster => match outcome {
            SwitchOutcome::Loaded { cluster } => SwitchStage::RecordCluster { cluster },
            _ => SwitchStage::Failed,
        },
        SwitchStage::RecordCluster { .. } => match outcome {
            SwitchOutcome::Failed => SwitchStage::Failed,
            _ => SwitchStage::Finished,
        },
        SwitchStage::Finished => SwitchStage::Finished,
        SwitchStage::Failed => SwitchStage::Failed,
    }
}

/// What fails while the old cluster is cleaned up keeps no instance from its new
/// cluster: the switch only fails where the new cluster cannot be found or
/// recorded.
pub proof fn law_cleaning_up_blocks_nothing(
    r: SwitchStage,
    stage: SwitchStage,
    outcome: SwitchOutcome,
    instance: OdooInstance,
)
    requires
        is_switch_after(r, stage, outcome, instance),
        r is Failed,
    ensures
        stage is LoadCluster || stage is RecordCluster || stage is Failed,
{
}

/// The old role goes where the database came from: on the cluster that the status
/// remembers, under the name that the instance has there, once the job is gone.
pub proof fn law_the_old_role_is_deleted_where_it_was(
    outcome: SwitchOutcome,
    instance: &OdooInstance,
    stage: SwitchStage,
    r: SwitchStage,
)
    requires
        call_ensures(advance_switch, (stage, outcome, instance), r),
    ensures
        stage is DeleteJob && (instance.status matches Some(s)
            && s.migration_previous_cluster is Some) ==> {
            &&& r matches SwitchStage::DeleteOldRole { cluster, username }
            &&& cluster@ == instance.status->0.migration_previous_cluster->0@
            &&& username@ == "odoo."@ + instance.metadata.namespace_text() + "."@
                + instance.metadata.name_text()
        },
        r is DeleteOldRole ==> stage is DeleteJob,
        stage is DeleteOldRole ==> r is LoadCluster,
{
}

/// The switch first deletes the job that the status names, and without one goes on
/// with what comes after it.
pub proof fn law_switches_start_with_the_job(instance: &OdooInstance, r: SwitchStage)
    requires
        call_ensures(complete_database_migration, (instance,), r),
    ensures
        instance.status matches Some(s) ==> s.db_migration_job_name matches Some(j) ==> (r matches
            SwitchStage::DeleteJob { job } && job@ == j@),
        !(instance.status matches Some(s) && s.db_migration_job_name is Some) ==> r
            is DeleteOldRole || r is LoadCluster,
        r is DeleteOldRole || r is LoadCluster || r is DeleteJob,
        r is LoadCluster ==> !(instance.status matches Some(s)
            && s.migration_previous_cluster is Some),
{
}

/// The cluster that becomes the active one is the one that was found, and the switch
/// is over once it is recorded.
pub proof fn law_the_cluster_that_was_found_becomes_active(
    stage: SwitchStage,
    outcome: SwitchOutcome,
    instance: &OdooInstance,
    r: SwitchStage,
)
    requires
        call_ensures(advance_switch, (stage, outcome, instance), r),
    ensures
        r matches SwitchStage::RecordCluster { cluster } ==> stage is LoadCluster && (outcome
            matches SwitchOutcome::Loaded { cluster: c } && cluster@ == c@),
        stage is LoadCluster && outcome is Loaded ==> r is RecordCluster,
        stage is LoadCluster && !(outcome is Loaded) ==> r is Failed,
        r is Finished ==> stage is Finished || (stage is RecordCluster && !(outcome is Failed)),
        stage is RecordCluster && outcome is Done ==> r is Finished,
        stage is RecordCluster && outcome is Failed ==> r is Failed,
{
}

/// While an instance is switched over, neither it nor its scheduled actions run.
pub proof fn law_nothing_runs_while_clusters_are_switched(
    phase: &FinalizingDatabaseMigration,
    r: Scaling,
)
    requires
        call_ensures(FinalizingDatabaseMigration::ensure, (phase,), r),
    ensures
        r.web == Some(0i32),
        r.cron == Some(0i32),
{
}

} // verus!
