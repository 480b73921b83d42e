//! Moving the filestore step by step, as the status of the instance records.

use vstd::prelude::*;

use crate::controller::filestore_migration::{
    build_final_claim, build_rsync_job, build_temp_claim, final_claim, rsync_job, temp_claim,
    CallOutcome,
};
use crate::controller::manifests::{JobManifest, PvcManifest};
use crate::controller::states::steady::{all_down, Scaling};
use crate::controller::state_machine::{status_migration_job, JobStatus, ReconcileSnapshot};
use crate::crd::meta::{clone_opt, opt_text};
use crate::crd::odoo_instance::OdooInstance;
use crate::text::same_text;

verus! {

/// A step of the migration.
#[derive(Clone, Copy, Debug, PartialEq, Eq, Structural)]
pub enum MigrationStep {
    ScalingDown,
    CreatingTempPvc,
    RsyncRunning,
    DeletingOldPvc,
    RebindingPv,
    Complete,
}

impl MigrationStep {
    /// The name of the step in the status.
    pub open spec fn text(self) -> Seq<char> {
        match self {
            MigrationStep::ScalingDown => "ScalingDown"@,
            MigrationStep::CreatingTempPvc => "CreatingTempPvc"@,
            MigrationStep::RsyncRunning => "RsyncRunning"@,
            MigrationStep::DeletingOldPvc => "DeletingOldPvc"@,
            MigrationStep::RebindingPv => "RebindingPv"@,
            MigrationStep::Complete => "Complete"@,
        }
    }

    /// The name of the step in the status.
    pub fn as_str(&self) -> (r: &'static str)
        ensures
            r@ == self.text(),
    {
        match self {
            MigrationStep::ScalingDown => "ScalingDown",
            MigrationStep::CreatingTempPvc => "CreatingTempPvc",
            MigrationStep::RsyncRunning => "RsyncRunning",
            MigrationStep::DeletingOldPvc => "DeletingOldPvc",
            MigrationStep::RebindingPv => "RebindingPv",
            MigrationStep::Complete => "Complete",
        }
    }
}

/// The step with a given name.
pub open spec fn step_named(s: Seq<char>) -> Option<MigrationStep> {
    if s == MigrationStep::ScalingDown.text() {
        Some(MigrationStep::ScalingDown)
    } else if s == MigrationStep::CreatingTempPvc.text() {
        Some(MigrationStep::CreatingTempPvc)
    } else if s == MigrationStep::RsyncRunning.text() {
        Some(MigrationStep::RsyncRunning)
    } else if s == MigrationStep::DeletingOldPvc.text() {
        Some(MigrationStep::DeletingOldPvc)
    } else if s == MigrationStep::RebindingPv.text() {
        Some(MigrationStep::RebindingPv)
    } else if s == MigrationStep::Complete.text() {
        Some(MigrationStep::Complete)
    } else {
        None
    }
}

/// The step that the status of an instance records: the first one where none is
/// recorded, and none where the record is unknown.
pub open spec fn recorded_step(instance: OdooInstance) -> Option<MigrationStep> {
    match instance.status {
        Some(s) => match s.migration_step {
            Some(t) => step_named(t@),
            None => Some(MigrationStep::ScalingDown),
        },
        None => Some(MigrationStep::ScalingDown),
    }
}

/// What is due about the job that copies the data.
#[derive(Clone, Debug)]
pub enum RsyncDecision {
    /// Create the job and record its name.
    Create { manifest: JobManifest },
    /// The data is copied: delete the job and go on to the next step.
    Advance { job: String, next: MigrationStep },
    /// The job failed: delete it and forget its name, so that another one is
    /// created.
    Retry { job: String },
    /// The job has not finished.
    Wait,
}

/// What is due about the old claim.
#[derive(Clone, Copy, Debug, PartialEq, Eq, Structural)]
pub enum DeletionDecision {
    /// Delete the claim and look at it again.
    DeleteAndLook,
    /// The claim is gone: go on to the next step.
    Advance { next: MigrationStep },
    /// The claim could not be looked at.
    Fail,
}

/// What a look at the temporary claim showed.
#[derive(Clone, Debug)]
pub enum TempClaimLookup {
    /// The claim exists and is bound to the volume, if any.
    Found { volume: Option<String> },
    /// The claim could not be read.
    Gone,
}

/// What a look at the final claim showed.
#[derive(Clone, Copy, Debug, PartialEq, Eq, Structural)]
pub enum FinalClaimLookup {
    /// The claim exists; whether it is bound.
    Found { bound: bool },
    /// There is no such claim.
    NotFound,
    /// The claim could not be looked at.
    Unavailable,
}

/// What is due about the new volume.
#[derive(Clone, Debug)]
pub enum RebindDecision {
    /// The temporary claim is not bound yet, or the final one is not.
    Wait,
    /// Record the volume, if that is due, make it stay, take its claim reference
    /// away and delete the temporary claim.
    Release { volume: String, record: bool },
    /// There is neither a temporary claim nor a recorded volume.
    Stuck,
    /// The temporary claim is gone: the final claim has to be looked at.
    LookAtFinalClaim,
    /// Create the final claim.
    Create { claim: PvcManifest },
    /// The final claim is bound: the migration is complete.
    Advance { next: MigrationStep },
    /// The final claim could not be looked at.
    Fail,
}

/// The volume that the status records.
pub open spec fn recorded_volume(instance: OdooInstance) -> Option<String> {
    match instance.status {
        Some(s) => s.migration_pv_name,
        None => None,
    }
}

/// Moving the filestore: the instance and its scheduled actions are down.
pub struct MigratingFilestore;

impl MigratingFilestore {
    /// The replica counts of the phase.
    pub fn scaling(&self) -> (r: Scaling)
        ensures
            r == all_down(),
    {
        Scaling { web: Some(0), cron: Some(0) }
    }

    /// The step that is due.
    pub fn ensure(&self, instance: &OdooInstance) -> (r: Option<MigrationStep>)
        ensures
            r == recorded_step(*instance),
    {
        let step = match &instance.status {
            Some(s) => match &s.migration_step {
                Some(t) => t,
                None => return Some(MigrationStep::ScalingDown),
            },
            None => return Some(MigrationStep::ScalingDown),
        };
        let steps = [
            MigrationStep::ScalingDown,
            MigrationStep::CreatingTempPvc,
            MigrationStep::RsyncRunning,
            MigrationStep::DeletingOldPvc,
            MigrationStep::RebindingPv,
            MigrationStep::Complete,
        ];
        let mut i: usize = 0;
        while i < 6
            invariant
                i <= 6,
                steps@ == seq![
                    MigrationStep::ScalingDown,
                    MigrationStep::CreatingTempPvc,
                    MigrationStep::RsyncRunning,
                    MigrationStep::DeletingOldPvc,
                    MigrationStep::RebindingPv,
                    MigrationStep::Complete,
                ],
                forall|j: int| 0 <= j < i ==> step@ != (#[trigger] steps@[j]).text(),
                recorded_step(*instance) == step_named(step@),
            decreases 6 - i,
        {
            if same_text(step.as_str(), steps[i].as_str()) {
                proof {
                    assert(step@ == steps@[i as int].text());
                    assert forall|j: int| 0 <= j < i implies step@ != (#[trigger] steps@[j]).text() by {}
                    assert(i > 0 ==> step@ != steps@[0].text());
                    assert(i > 1 ==> step@ != steps@[1].text());
                    assert(i > 2 ==> step@ != steps@[2].text());
                    assert(i > 3 ==> step@ != steps@[3].text());
                    assert(i > 4 ==> step@ != steps@[4].text());
                }
                return Some(steps[i]);
            }
            i += 1;
        }
        proof {
            assert(step@ != steps@[0].text());
            assert(step@ != steps@[1].text());
            assert(step@ != steps@[2].text());
            assert(step@ != steps@[3].text());
            assert(step@ != steps@[4].text());
            assert(step@ != steps@[5].text());
        }
        None
    }

    /// Goes on once both Deployments are down.
    pub fn ensure_scaling_down(&self, snapshot: &ReconcileSnapshot) -> (r: Option<MigrationStep>)
        ensures
            r == if snapshot.ready_replicas == 0 && snapshot.cron_ready_replicas == 0
                && snapshot.deployment_replicas == 0 && snapshot.cron_deployment_replicas == 0 {
                Some(MigrationStep::CreatingTempPvc)
            } else {
                None
            },
    {
        if snapshot.ready_replicas == 0 && snapshot.cron_ready_replicas == 0
            && snapshot.deployment_replicas == 0 && snapshot.cron_deployment_replicas == 0 {
            Some(MigrationStep::CreatingTempPvc)
        } else {
            None
        }
    }

    /// The temporary claim to create, unless it exists, and the step after it.
    pub fn ensure_creating_temp_pvc(
        &self,
        instance: &OdooInstance,
        default_class: &str,
        exists: bool,
        present_size: &Option<String>,
    ) -> (r: (Option<PvcManifest>, MigrationStep))
        ensures
            r.1 == MigrationStep::RsyncRunning,
            exists ==> r.0 is None,
            !exists ==> (r.0 matches Some(c) && c@ == temp_claim(
                *instance,
                default_class@,
                opt_text(*present_size),
            )),
    {
        if exists {
            (None, MigrationStep::RsyncRunning)
        } else {
            (
                Some(build_temp_claim(instance, default_class, present_size)),
                MigrationStep::RsyncRunning,
            )
        }
    }

    /// What is due about the job that copies the data.
    pub fn ensure_rsync_running(
        &self,
        instance: &OdooInstance,
        snapshot: &ReconcileSnapshot,
        script: &str,
    ) -> (r: RsyncDecision)
        ensures
            match status_migration_job(*instance) {
                None => r matches RsyncDecision::Create { manifest } && manifest@ == rsync_job(
                    instance.metadata.name_text(),
                    instance.metadata.namespace_text(),
                    *instance,
                    script@,
                ),
                Some(name) => match snapshot.migration_job {
                    JobStatus::Succeeded => r == (RsyncDecision::Advance {
                        job: name,
                        next: MigrationStep::DeletingOldPvc,
                    }),
                    JobStatus::Failed => r == (RsyncDecision::Retry { job: name }),
                    _ => r is Wait,
                },
            },
    {
        let recorded = match &instance.status {
            Some(s) => clone_opt(&s.migration_job_name),
            None => None,
        };
        match recorded {
            None => {
                let name = instance.metadata.name_any();
                let ns = instance.metadata.namespace_or_default();
                RsyncDecision::Create {
                    manifest: build_rsync_job(name.as_str(), ns.as_str(), instance, script),
                }
            },
            Some(job) => match snapshot.migration_job {
                JobStatus::Succeeded => RsyncDecision::Advance {
                    job,
                    next: MigrationStep::DeletingOldPvc,
                },
                JobStatus::Failed => RsyncDecision::Retry { job },
                _ => RsyncDecision::Wait,
            },
        }
    }

    /// What is due about the old claim, given a first look at it.
    pub fn ensure_deleting_old_pvc(&self, look: &CallOutcome) -> (r: DeletionDecision)
        ensures
            r == match *look {
                CallOutcome::Done { .. } => DeletionDecision::DeleteAndLook,
                CallOutcome::NotFound => DeletionDecision::Advance {
                    next: MigrationStep::RebindingPv,
                },
                CallOutcome::Failed => DeletionDecision::Fail,
            },
    {
        match look {
            CallOutcome::Done { .. } => DeletionDecision::DeleteAndLook,
            CallOutcome::NotFound => DeletionDecision::Advance {
                next: MigrationStep::RebindingPv,
            },
            CallOutcome::Failed => DeletionDecision::Fail,
        }
    }

    /// Goes on if a look after the deletion shows that the old claim is gone.
    pub fn after_deletion(&self, look: &CallOutcome) -> (r: Option<MigrationStep>)
        ensures
            r == if *look is NotFound {
                Some(MigrationStep::RebindingPv)
            } else {
                None
            },
    {
        match look {
            CallOutcome::NotFound => Some(MigrationStep::RebindingPv),
            _ => None,
        }
    }

    /// What is due about the new volume, given a look at the temporary claim and,
    /// once it was asked for, one at the final claim.
    pub fn ensure_rebinding_pv(
        &self,
        instance: &OdooInstance,
        temp: &TempClaimLookup,
        last: Option<FinalClaimLookup>,
    ) -> (r: RebindDecision)
        ensures
            match *temp {
                TempClaimLookup::Found { volume } => {
                    let known = if volume is Some {
                        volume
                    } else {
                        recorded_volume(*instance)
                    };
                    match known {
                        None => r is Wait,
                        Some(v) => r == (RebindDecision::Release {
                            volume: v,
                            record: recorded_volume(*instance) is None,
                        }),
                    }
                },
                TempClaimLookup::Gone => match recorded_volume(*instance) {
                    None => r is Stuck,
                    Some(v) => match last {
                        None => r is LookAtFinalClaim,
                        Some(FinalClaimLookup::Found { bound }) => if bound {
                            r == (RebindDecision::Advance { next: MigrationStep::Complete })
                        } else {
                            r is Wait
                        },
                        Some(FinalClaimLookup::NotFound) => r matches RebindDecision::Create {
                            claim,
                        } && claim@ == final_claim(*instance, v@),
                        Some(FinalClaimLookup::Unavailable) => r is Fail,
                    },
                },
            },
    {
        let recorded = match &instance.status {
            Some(s) => clone_opt(&s.migration_pv_name),
            None => None,
        };
        match temp {
            TempClaimLookup::Found { volume } => {
                let record = recorded.is_none();
                let known = match volume {
                    Some(v) => Some(v.clone()),
                    None => recorded,
                };
                match known {
                    None => RebindDecision::Wait,
                    Some(v) => RebindDecision::Release { volume: v, record },
                }
            },
            TempClaimLookup::Gone => match recorded {
                None => RebindDecision::Stuck,
                Some(v) => match last {
                    None => RebindDecision::LookAtFinalClaim,
                    Some(FinalClaimLookup::Found { bound }) => if bound {
                        RebindDecision::Advance { next: MigrationStep::Complete }
                    } else {
                        RebindDecision::Wait
                    },
                    Some(FinalClaimLookup::NotFound) => RebindDecision::Create {
                        claim: build_final_claim(instance, v.as_str()),
                    },
                    Some(FinalClaimLookup::Unavailable) => RebindDecision::Fail,
                },
            },
        }
    }
}

/// The name of a step leads back to the step.
pub proof fn law_steps_are_told_apart(step: MigrationStep)
    ensures
        step_named(step.text()) == Some(step),
{
    reveal_strlit("ScalingDown");
    reveal_strlit("CreatingTempPvc");
    reveal_strlit("RsyncRunning");
    reveal_strlit("DeletingOldPvc");
    reveal_strlit("RebindingPv");
    reveal_strlit("Complete");
    assert("ScalingDown"@.len() == 11);
    assert("CreatingTempPvc"@.len() == 15);
    assert("RsyncRunning"@.len() == 12);
    assert("DeletingOldPvc"@.len() == 14);
    assert("RebindingPv"@.len() == 11);
    assert("Complete"@.len() == 8);
    assert("ScalingDown"@[0] == 'S' && "RebindingPv"@[0] == 'R');
}

/// A filestore is copied only once nothing runs: the step goes on exactly when no
/// replica of either Deployment is desired or ready.
pub proof fn law_nothing_is_copied_while_something_runs(
    phase: &MigratingFilestore,
    snapshot: &ReconcileSnapshot,
    r: Option<MigrationStep>,
    scaling: Scaling,
)
    requires
        call_ensures(MigratingFilestore::ensure_scaling_down, (phase, snapshot), r),
        call_ensures(MigratingFilestore::scaling, (phase,), scaling),
    ensures
        scaling.web == Some(0i32),
        scaling.cron == Some(0i32),
        r is Some <==> snapshot.ready_replicas == 0 && snapshot.deployment_replicas == 0
            && snapshot.cron_ready_replicas == 0 && snapshot.cron_deployment_replicas == 0,
        r matches Some(next) ==> next == MigrationStep::CreatingTempPvc,
{
}

/// The temporary claim is created once, of the class that is desired and of the size
/// that is there.
pub proof fn law_the_temporary_claim_is_created_once(
    phase: &MigratingFilestore,
    instance: &OdooInstance,
    default_class: &str,
    present: bool,
    present_size: &Option<String>,
    r: (Option<PvcManifest>, MigrationStep),
)
    requires
        call_ensures(
            MigratingFilestore::ensure_creating_temp_pvc,
            (phase, instance, default_class, present, present_size),
            r,
        ),
    ensures
        r.0 is Some <==> !present,
        r.1 == MigrationStep::RsyncRunning,
        r.0 matches Some(c) ==> {
            &&& c@.name == instance.metadata.name_text() + "-filestore-pvc-temp"@
            &&& *present_size matches Some(n) ==> c@.storage_size == n@
            &&& instance.spec.filestore matches Some(f) ==> f.storage_class matches Some(k) ==>
                c@.storage_class == k@
        },
{
}

/// The old claim is given up only after the copy has succeeded.  Without a job one is
/// created, a failed one is tried again, and any other is waited for.
pub proof fn law_the_old_claim_goes_after_the_copy(
    phase: &MigratingFilestore,
    instance: &OdooInstance,
    snapshot: &ReconcileSnapshot,
    script: &str,
    r: RsyncDecision,
)
    requires
        call_ensures(
            MigratingFilestore::ensure_rsync_running,
            (phase, instance, snapshot, script),
            r,
        ),
    ensures
        ({
            let named = instance.status matches Some(s) && s.migration_job_name is Some;
            &&& r is Create <==> !named
            &&& r is Advance <==> named && snapshot.migration_job == JobStatus::Succeeded
            &&& r is Retry <==> named && snapshot.migration_job == JobStatus::Failed
            &&& r matches RsyncDecision::Advance { job, next } ==> next
                == MigrationStep::DeletingOldPvc && Some(job)
                == instance.status->0.migration_job_name
            &&& r matches RsyncDecision::Retry { job } ==> Some(job)
                == instance.status->0.migration_job_name
            &&& r matches RsyncDecision::Create { manifest } ==> manifest@.containers.len() == 1
                && manifest@.containers[0].args == seq![script@] && manifest@.namespace
                == instance.metadata.namespace_text() && manifest@.app_label == Some(
                instance.metadata.name_text(),
            )
        }),
{
}

/// The new volume takes the place of the old one only once the old claim is gone.
pub proof fn law_the_volume_moves_when_the_claim_is_gone(
    phase: &MigratingFilestore,
    look: &CallOutcome,
    first: DeletionDecision,
    after: Option<MigrationStep>,
)
    requires
        call_ensures(MigratingFilestore::ensure_deleting_old_pvc, (phase, look), first),
        call_ensures(MigratingFilestore::after_deletion, (phase, look), after),
    ensures
        first is Advance <==> *look is NotFound,
        first is DeleteAndLook <==> *look is Done,
        first is Fail <==> *look is Failed,
        first matches DeletionDecision::Advance { next } ==> next == MigrationStep::RebindingPv,
        after is Some <==> *look is NotFound,
        after matches Some(next) ==> next == MigrationStep::RebindingPv,
{
}

/// The migration is complete only when the final claim is bound, and that claim is
/// created for the volume that the status records.
pub proof fn law_migrations_end_with_a_bound_claim(
    phase: &MigratingFilestore,
    instance: &OdooInstance,
    temp: &TempClaimLookup,
    last: Option<FinalClaimLookup>,
    r: RebindDecision,
)
    requires
        call_ensures(MigratingFilestore::ensure_rebinding_pv, (phase, instance, temp, last), r),
    ensures
        ({
            let recorded = match instance.status {
                Some(s) => s.migration_pv_name,
                None => None,
            };
            &&& r matches RebindDecision::Advance { next } ==> next == MigrationStep::Complete
            &&& r is Advance <==> *temp is Gone && recorded is Some && last == Some(
                FinalClaimLookup::Found { bound: true },
            )
            &&& r matches RebindDecision::Create { claim } ==> *temp is Gone && (recorded matches
                Some(v) && claim@.volume_name == Some(v@)) && claim@.name
                == instance.metadata.name_text() + "-filestore-pvc"@
            &&& *temp is Gone && recorded is Some && last == Some(FinalClaimLookup::NotFound)
                ==> r is Create
            &&& *temp is Gone && recorded is None <==> r is Stuck
            &&& r matches RebindDecision::Release { volume, record } ==> {
                &&& *temp is Found
                &&& record <==> recorded is None
                &&& temp->volume matches Some(v) ==> volume == v
                &&& temp->volume is None ==> Some(volume) == recorded
            }
            &&& *temp is Found && (temp->volume is Some || recorded is Some) ==> r is Release
            &&& *temp is Found && temp->volume is None && recorded is None ==> r is Wait
        }),
{
}

/// A migration begins with scaling down, and goes on with the step that the status
/// records.
pub proof fn law_the_recorded_step_is_due(
    phase: &MigratingFilestore,
    instance: &OdooInstance,
    r: Option<MigrationStep>,
)
    requires
        call_ensures(MigratingFilestore::ensure, (phase, instance), r),
    ensures
        !(instance.status matches Some(s) && s.migration_step is Some) ==> r == Some(
            MigrationStep::ScalingDown,
        ),
        instance.status matches Some(s) ==> s.migration_step matches Some(t) ==> forall|
            step: MigrationStep,
        |
            t@ == #[trigger] step.text() ==> r == Some(step),
{
    if let Some(s) = instance.status {
        if let Some(t) = s.migration_step {
            assert forall|step: MigrationStep| t@ == #[trigger] step.text() implies r == Some(
                step,
            ) by {
                law_steps_are_told_apart(step);
            }
        }
    }
}

} // verus!
