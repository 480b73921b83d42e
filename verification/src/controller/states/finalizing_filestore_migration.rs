//! Finishing the move of a filestore whose data is copied.

use vstd::prelude::*;

use crate::controller::filestore_migration::{
    bound_to, final_claim, is_bound_to, CallOutcome, MigrationError,
};
use crate::controller::states::steady::{all_down, Scaling};
use crate::controller::states::migrating_filestore::recorded_volume;
use crate::controller::state_machine::status_migration_job;
use crate::crd::meta::clone_opt;
use crate::crd::odoo_instance::OdooInstance;

verus! {

/// Finishing the move: the instance and its scheduled actions are down until the
/// volume is bound under the old name.
pub struct FinalizingFilestoreMigration;

/// A stage of the rebinding: the call that is due.
#[derive(Clone, Debug)]
pub enum RebindStage {
    /// Look whether the claim is bound to the volume already.
    CheckBound { volume: String },
    /// Delete the old claim.
    DeleteOldClaim { volume: String },
    /// Read the old claim.
    CheckOldClaim { volume: String },
    /// Delete the temporary claim, before the volume loses its claim reference:
    /// else the volume could be bound to it again.
    DeleteTempClaim { volume: String },
    /// Make the volume stay and take its claim reference away.
    ReleaseVolume { volume: String },
    /// Read the final claim.
    CheckFinalClaim { volume: String },
    /// Create the final claim.
    CreateFinalClaim { volume: String },
    /// Nothing more is due for now.
    Finished,
    /// The rebinding cannot go on for now.
    Failed { error: MigrationError },
}

/// Where the rebinding starts.
pub open spec fn rebind_start(instance: OdooInstance) -> RebindStage {
    match recorded_volume(instance) {
        Some(v) => RebindStage::CheckBound { volume: v },
        None => RebindStage::Failed { error: MigrationError::NoVolume },
    }
}

/// The stage that follows a call.
pub open spec fn rebind_after(stage: RebindStage, outcome: CallOutcome) -> RebindStage {
    let api_error = RebindStage::Failed { error: MigrationError::Api };
    match stage {
        RebindStage::CheckBound { volume } => if is_bound_to(outcome, volume@) {
            RebindStage::Finished
        } else {
            RebindStage::DeleteOldClaim { volume }
        },
        RebindStage::DeleteOldClaim { volume } => if outcome is Failed {
            api_error
        } else {
            RebindStage::CheckOldClaim { volume }
        },
        RebindStage::CheckOldClaim { volume } => if outcome is Done {
            RebindStage::Finished
        } else {
            RebindStage::DeleteTempClaim { volume }
        },
        RebindStage::DeleteTempClaim { volume } => if outcome is Failed {
            api_error
        } else {
            RebindStage::ReleaseVolume { volume }
        },
        RebindStage::ReleaseVolume { volume } => if outcome is Done {
            RebindStage::CheckFinalClaim { volume }
        } else {
            api_error
        },
        RebindStage::CheckFinalClaim { volume } => if outcome is Done {
            RebindStage::Finished
        } else {
            RebindStage::CreateFinalClaim { volume }
        },
        RebindStage::CreateFinalClaim { volume } => if outcome is Done {
            RebindStage::Finished
        } else {
            api_error
        },
        RebindStage::Finished => RebindStage::Finished,
        RebindStage::Failed { error } => RebindStage::Failed { error },
    }
}

/// Starts the rebinding.
pub fn finalize_filestore_pvc_rebind(instance: &OdooInstance) -> (r: RebindStage)
    ensures
        r == rebind_start(*instance),
{
    let volume = match &instance.status {
        Some(s) => clone_opt(&s.migration_pv_name),
        None => None,
    };
    match volume {
        Some(v) => RebindStage::CheckBound { volume: v },
        None => RebindStage::Failed { error: MigrationError::NoVolume },
    }
}

/// Goes on to the stage that follows a call.
pub fn advance_rebind(stage: RebindStage, outcome: &CallOutcome) -> (r: RebindStage)
    ensures
        r == rebind_after(stage, *outcome),
{
    let done = matches!(outcome, CallOutcome::Done { .. });
    let failed = matches!(outcome, CallOutcome::Failed);
    let api_error = RebindStage::Failed { error: MigrationError::Api };
    match stage {
        RebindStage::CheckBound { volume } => if bound_to(outcome, volume.as_str()) {
            RebindStage::Finished
        } else {
            RebindStage::DeleteOldClaim { volume }
        },
        RebindStage::DeleteOldClaim { volume } => if failed {
            api_error
        } else {
            RebindStage::CheckOldClaim { volume }
        },
        RebindStage::CheckOldClaim { volume } => if done {
            RebindStage::Finished
        } else {
            RebindStage::DeleteTempClaim { volume }
        },
        RebindStage::DeleteTempClaim { volume } => if failed {
            api_error
        } else {
            RebindStage::ReleaseVolume { volume }
        },
        RebindStage::ReleaseVolume { volume } => if done {
            RebindStage::CheckFinalClaim { volume }
        } else {
            api_error
        },
        RebindStage::CheckFinalClaim { volume } => if done {
            RebindStage::Finished
        } else {
            RebindStage::CreateFinalClaim { volume }
        },
        RebindStage::CreateFinalClaim { volume } => if done {
            RebindStage::Finished
        } else {
            api_error
        },
        RebindStage::Finished => RebindStage::Finished,
        RebindStage::Failed { error } => RebindStage::Failed { error },
    }
}

/// What is due when the phase is entered: record the volume of the temporary
/// claim, unless one is recorded, and delete the job.
#[derive(Clone, Debug)]
pub struct FilestoreEntry {
    /// The volume to record, if any.
    pub record: Option<String>,
    /// The job to delete, if any.
    pub job: Option<String>,
}

/// What is due when the phase is entered, given a look at the temporary claim;
/// the look counts only where no volume is recorded.
pub fn complete_filestore_migration(instance: &OdooInstance, look: &CallOutcome) -> (r: Result<
    FilestoreEntry,
    MigrationError,
>)
    ensures
        match recorded_volume(*instance) {
            Some(_) => r matches Ok(e) && e.record is None && e.job == status_migration_job(
                *instance,
            ),
            None => match *look {
                CallOutcome::Done { volume: Some(v) } => r matches Ok(e) && e.record == Some(v)
                    && e.job == status_migration_job(*instance),
                CallOutcome::Done { volume: None } => r == Err::<FilestoreEntry, MigrationError>(
                    MigrationError::NotBound,
                ),
                _ => r == Err::<FilestoreEntry, MigrationError>(MigrationError::Api),
            },
        },
{
    let recorded = match &instance.status {
        Some(s) => clone_opt(&s.migration_pv_name),
        None => None,
    };
    let job = match &instance.status {
        Some(s) => clone_opt(&s.migration_job_name),
        None => None,
    };
    if recorded.is_some() {
        return Ok(FilestoreEntry { record: None, job });
    }
    match look {
        CallOutcome::Done { volume } => match volume {
            Some(v) => Ok(FilestoreEntry { record: Some(v.clone()), job }),
            None => Err(MigrationError::NotBound),
        },
        _ => Err(MigrationError::Api),
    }
}

impl FinalizingFilestoreMigration {
    /// The outputs of the phase: the replica counts and the first stage of the
    /// rebinding.
    pub fn ensure(&self, instance: &OdooInstance) -> (r: (Scaling, RebindStage))
        ensures
            r.0 == all_down(),
            r.1 == rebind_start(*instance),
    {
        (Scaling { web: Some(0), cron: Some(0) }, finalize_filestore_pvc_rebind(instance))
    }
}

/// How far a rebinding has come.
pub open spec fn rebind_rank(stage: RebindStage) -> int {
    match stage {
        RebindStage::CheckBound { .. } => 0,
        RebindStage::DeleteOldClaim { .. } => 1,
        RebindStage::CheckOldClaim { .. } => 2,
        RebindStage::DeleteTempClaim { .. } => 3,
        RebindStage::ReleaseVolume { .. } => 4,
        RebindStage::CheckFinalClaim { .. } => 5,
        RebindStage::CreateFinalClaim { .. } => 6,
        RebindStage::Finished => 7,
        RebindStage::Failed { .. } => 7,
    }
}

/// Every call brings a rebinding forward, so it comes to an end after at most
/// seven calls.
pub proof fn law_rebinding_makes_progress(stage: RebindStage, outcome: CallOutcome)
    ensures
        rebind_rank(stage) < 7 ==> rebind_rank(rebind_after(stage, outcome)) > rebind_rank(stage),
        0 <= rebind_rank(stage) <= 7,
{
}

/// A rebinding whose claim is bound to the recorded volume already ends with the
/// look at it: nothing is deleted and nothing is created.  The claim that a
/// rebinding creates is such a claim.
pub proof fn law_rebinding_is_idempotent(
    instance: OdooInstance,
    volume: String,
    bound: String,
)
    requires
        recorded_volume(instance) == Some(volume),
        bound@ == volume@,
    ensures
        rebind_start(instance) is CheckBound,
        rebind_after(rebind_start(instance), CallOutcome::Done { volume: Some(bound) })
            is Finished,
        final_claim(instance, volume@).volume_name == Some(volume@),
{
}

/// The volume loses its claim reference only after the temporary claim has been
/// deleted, and that happens only after a look that did not show the old claim.
pub proof fn law_release_comes_last(stage: RebindStage, outcome: CallOutcome)
    ensures
        rebind_after(stage, outcome) is ReleaseVolume ==> stage is DeleteTempClaim
            && !(outcome is Failed),
        rebind_after(stage, outcome) is DeleteTempClaim ==> stage is CheckOldClaim
            && !(outcome is Done),
{
}

/// A rebinding starts with the volume that the status records and cannot start without
/// one; neither the instance nor its scheduled actions run meanwhile.
pub proof fn law_rebinding_starts_with_the_recorded_volume(
    phase: &FinalizingFilestoreMigration,
    instance: &OdooInstance,
    r: (Scaling, RebindStage),
)
    requires
        call_ensures(FinalizingFilestoreMigration::ensure, (phase, instance), r),
    ensures
        r.0.web == Some(0i32),
        r.0.cron == Some(0i32),
        instance.status matches Some(s) ==> s.migration_pv_name matches Some(v) ==> r.1 == (
        RebindStage::CheckBound { volume: v }),
        !(instance.status matches Some(s) && s.migration_pv_name is Some) ==> r.1 == (
        RebindStage::Failed { error: MigrationError::NoVolume }),
{
}

/// A rebinding whose calls succeed goes through every step with one volume: the old
/// claim goes, the temporary one goes, the volume is released and the final claim is
/// created.
pub proof fn law_rebindings_reach_their_end(volume: String, other: CallOutcome)
    requires
        !is_bound_to(other, volume@),
    ensures
        rebind_after(RebindStage::CheckBound { volume }, other) == (RebindStage::DeleteOldClaim {
            volume,
        }),
        rebind_after(RebindStage::DeleteOldClaim { volume }, CallOutcome::Done { volume: None })
            == (RebindStage::CheckOldClaim { volume }),
        rebind_after(RebindStage::CheckOldClaim { volume }, CallOutcome::NotFound) == (
        RebindStage::DeleteTempClaim { volume }),
        rebind_after(RebindStage::DeleteTempClaim { volume }, CallOutcome::Done { volume: None })
            == (RebindStage::ReleaseVolume { volume }),
        rebind_after(RebindStage::ReleaseVolume { volume }, CallOutcome::Done { volume: None })
            == (RebindStage::CheckFinalClaim { volume }),
        rebind_after(RebindStage::CheckFinalClaim { volume }, CallOutcome::NotFound) == (
        RebindStage::CreateFinalClaim { volume }),
        rebind_after(RebindStage::CreateFinalClaim { volume }, CallOutcome::Done { volume: None })
            == RebindStage::Finished,
{
}

/// A final claim is created only for a volume that was released and where none is
/// seen; a call that fails ends the rebinding, but for a look.
pub proof fn law_rebindings_keep_the_data(stage: RebindStage, outcome: CallOutcome)
    ensures
        ({
            let next = rebind_after(stage, outcome);
            &&& next is CreateFinalClaim ==> stage is CheckFinalClaim && !(outcome is Done)
            &&& next is CheckFinalClaim ==> stage is ReleaseVolume && outcome is Done
            &&& next is DeleteOldClaim ==> stage is CheckBound
            &&& next is CheckOldClaim ==> stage is DeleteOldClaim && !(outcome is Failed)
            &&& outcome is Failed && (stage is DeleteOldClaim || stage is DeleteTempClaim || stage
                is ReleaseVolume || stage is CreateFinalClaim) ==> next == (RebindStage::Failed {
                error: MigrationError::Api,
            })
        }),
{
}

/// Entering the phase records the volume of the temporary claim where none is recorded,
/// and cannot go on without one; the job that made the copy goes.
pub proof fn law_entering_records_the_volume(
    instance: &OdooInstance,
    look: &CallOutcome,
    r: Result<FilestoreEntry, MigrationError>,
)
    requires
        call_ensures(complete_filestore_migration, (instance, look), r),
    ensures
        ({
            let recorded = instance.status matches Some(s) && s.migration_pv_name is Some;
            &&& recorded ==> (r matches Ok(e) && e.record is None)
            &&& !recorded ==> (*look matches CallOutcome::Done { volume: Some(v) } ==> (r matches
                Ok(e) && e.record == Some(v)))
            &&& !recorded && !(*look matches CallOutcome::Done { volume: Some(_) }) ==> r is Err
            &&& r matches Ok(e) ==> match instance.status {
                Some(s) => e.job == s.migration_job_name,
                None => e.job is None,
            }
        }),
{
}

/// Rebinding starts with the volume that the status names, and goes nowhere without one.
pub proof fn law_rebindings_start_with_the_volume(instance: &OdooInstance, r: RebindStage)
    requires
        call_ensures(finalize_filestore_pvc_rebind, (instance,), r),
    ensures
        instance.status matches Some(s) ==> s.migration_pv_name matches Some(v) ==> r
            == (RebindStage::CheckBound { volume: v }),
        !(instance.status matches Some(s) && s.migration_pv_name is Some) ==> r
            == (RebindStage::Failed { error: MigrationError::NoVolume }),
{
}

/// Rebinding goes from stage to stage: unless the claim is bound already, it deletes the old
/// claim, waits until that is gone, deletes the temporary claim, releases the volume and
/// creates the last claim.
pub proof fn law_rebindings_go_on(
    stage: RebindStage,
    seen: Option<String>,
    r: RebindStage,
    gone: RebindStage,
    failed: RebindStage,
)
    requires
        call_ensures(advance_rebind, (stage, &CallOutcome::Done { volume: seen }), r),
        call_ensures(advance_rebind, (stage, &CallOutcome::NotFound), gone),
        call_ensures(advance_rebind, (stage, &CallOutcome::Failed), failed),
    ensures
        ({
            let api = RebindStage::Failed { error: MigrationError::Api };
            &&& stage matches RebindStage::CheckBound { volume } ==> {
                let again = RebindStage::DeleteOldClaim { volume };
                &&& (seen matches Some(v) && v@ == volume@) ==> r is Finished
                &&& !(seen matches Some(v) && v@ == volume@) ==> r == again
                &&& gone == again && failed == again
            }
            &&& stage matches RebindStage::DeleteOldClaim { volume } ==> r
                == (RebindStage::CheckOldClaim { volume }) && gone == r && failed == api
            &&& stage matches RebindStage::CheckOldClaim { volume } ==> r is Finished && gone
                == (RebindStage::DeleteTempClaim { volume }) && failed == gone
            &&& stage matches RebindStage::DeleteTempClaim { volume } ==> r
                == (RebindStage::ReleaseVolume { volume }) && gone == r && failed == api
            &&& stage matches RebindStage::ReleaseVolume { volume } ==> r
                == (RebindStage::CheckFinalClaim { volume }) && gone == api && failed == api
            &&& stage matches RebindStage::CheckFinalClaim { volume } ==> r is Finished && gone
                == (RebindStage::CreateFinalClaim { volume }) && failed == gone
            &&& stage is CreateFinalClaim ==> r is Finished && gone == api && failed == api
            &&& stage is Finished || stage is Failed ==> r == stage && gone == stage && failed
                == stage
        }),
{
}

/// A migration that cannot be completed says why: the temporary claim is not bound yet, or it
/// could not be read.
pub proof fn law_entries_that_fail_say_why(
    instance: &OdooInstance,
    look: &CallOutcome,
    r: Result<FilestoreEntry, MigrationError>,
)
    requires
        call_ensures(complete_filestore_migration, (instance, look), r),
    ensures
        r matches Err(e) ==> {
            &&& e == MigrationError::NotBound <==> *look is Done
            &&& e == MigrationError::Api <==> !(*look is Done)
        },
{
}

} // verus!
