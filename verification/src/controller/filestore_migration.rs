//! Moving the filestore of an instance to another storage class.
//!
//! A migration copies the data to a temporary claim, deletes the old claim and
//! binds the new volume under the old name.  Each call to the cluster is one
//! stage; the outcome of the call decides on the next one.

use vstd::prelude::*;

use crate::controller::helpers::{
    claim_name, claim_text, controller_owner_ref, owner_of, temp_claim_name, temp_claim_text,
};
use crate::controller::manifests::{
    container_views, env_views, finds_at, job_container, make_job_container, mount_views, volume_views,
    JobManifest, JobManifestView, PvcManifest, PvcManifestView, Volume, VolumeMount,
    VolumeMountView, VolumeSource, VolumeSourceView, VolumeView,
};
use crate::controller::state_machine::ReconcileSnapshot;
use crate::crd::meta::{clone_opt, opt_text, unwrap_or_empty};
use crate::crd::odoo_instance::OdooInstance;
use crate::text::{concat2, concat4, same_text, texts};

verus! {

// ── Manifests ────────────────────────────────────────────────────────────────

/// The job that copies the filestore of an instance to the temporary claim.
pub open spec fn rsync_job(
    instance_name: Seq<char>,
    ns: Seq<char>,
    instance: OdooInstance,
    script: Seq<char>,
) -> JobManifestView {
    JobManifestView {
        generate_name: instance_name + "-migrate-"@,
        namespace: ns,
        app_label: Some(instance_name),
        backoff_limit: Some(3),
        active_deadline_seconds: Some(3600),
        ttl_seconds_after_finished: Some(300),
        restart_policy: Some("Never"@),
        odoo_frame: false,
        image_pull_secret: opt_text(instance.spec.image_pull_secret),
        run_beside: None,
        volumes: seq![
            VolumeView {
                name: "old-filestore"@,
                source: VolumeSourceView::Claim {
                    claim_name: claim_text(instance_name),
                    read_only: true,
                },
            },
            VolumeView {
                name: "new-filestore"@,
                source: VolumeSourceView::Claim {
                    claim_name: temp_claim_text(instance_name),
                    read_only: false,
                },
            },
        ],
        init_containers: Seq::empty(),
        containers: seq![
            job_container(
                "rsync"@,
                "instrumentisto/rsync-ssh:latest"@,
                seq!["/bin/sh"@, "-c"@],
                seq![script],
                Seq::empty(),
                false,
                seq![
                    VolumeMountView {
                        name: "old-filestore"@,
                        mount_path: "/mnt/old"@,
                        read_only: true,
                    },
                    VolumeMountView {
                        name: "new-filestore"@,
                        mount_path: "/mnt/new"@,
                        read_only: false,
                    },
                ],
            ),
        ],
    }
}

/// Builds the job that copies the filestore of an instance to the temporary
/// claim.
pub fn build_rsync_job(
    instance_name: &str,
    ns: &str,
    instance: &OdooInstance,
    script: &str,
) -> (r: JobManifest)
    ensures
        r@ == rsync_job(instance_name@, ns@, *instance, script@),
{
    let mounts = vec![
        VolumeMount {
            name: "old-filestore".to_owned(),
            mount_path: "/mnt/old".to_owned(),
            read_only: true,
        },
        VolumeMount {
            name: "new-filestore".to_owned(),
            mount_path: "/mnt/new".to_owned(),
            read_only: false,
        },
    ];
    let command = vec!["/bin/sh".to_owned(), "-c".to_owned()];
    let args = vec![script.to_owned()];
    let ghost want = rsync_job(instance_name@, ns@, *instance, script@);
    assert(mount_views(mounts@) =~= want.containers[0].volume_mounts);
    assert(texts(command@) =~= want.containers[0].command);
    assert(texts(args@) =~= want.containers[0].args);
    let container = make_job_container(
        "rsync",
        "instrumentisto/rsync-ssh:latest",
        command,
        args,
        Vec::new(),
        false,
        mounts,
    );
    let r = JobManifest {
        generate_name: concat2(instance_name, "-migrate-"),
        namespace: ns.to_owned(),
        app_label: Some(instance_name.to_owned()),
        backoff_limit: Some(3),
        active_deadline_seconds: Some(3600),
        ttl_seconds_after_finished: Some(300),
        restart_policy: Some("Never".to_owned()),
        odoo_frame: false,
        image_pull_secret: clone_opt(&instance.spec.image_pull_secret),
        run_beside: None,
        volumes: vec![
            Volume {
                name: "old-filestore".to_owned(),
                source: VolumeSource::Claim {
                    claim_name: claim_name(instance_name),
                    read_only: true,
                },
            },
            Volume {
                name: "new-filestore".to_owned(),
                source: VolumeSource::Claim {
                    claim_name: temp_claim_name(instance_name),
                    read_only: false,
                },
            },
        ],
        init_containers: Vec::new(),
        containers: vec![container],
    };
    proof {
        assert(env_views(container.env@) =~= want.containers[0].env);
        assert(volume_views(r.volumes@) =~= want.volumes);
        assert(container_views(r.init_containers@) =~= want.init_containers);
        assert(container_views(r.containers@) =~= want.containers);
    }
    r
}

/// The size of a claim that is not known.
pub open spec fn size_or_default(size: Option<Seq<char>>) -> Seq<char> {
    match size {
        Some(s) => s,
        None => "2Gi"@,
    }
}

fn or_default_size(size: &Option<String>) -> (r: String)
    ensures
        r@ == size_or_default(opt_text(*size)),
{
    match size {
        Some(s) => s.clone(),
        None => "2Gi".to_owned(),
    }
}

/// The claim that a migration copies to: of the desired class and as large as
/// the claim that is there, which may have grown beyond what the spec says.
pub open spec fn temp_claim(
    instance: OdooInstance,
    default_class: Seq<char>,
    present_size: Option<Seq<char>>,
) -> PvcManifestView {
    PvcManifestView {
        name: temp_claim_text(instance.metadata.name_text()),
        namespace: instance.metadata.namespace_text(),
        owner: None,
        access_mode: "ReadWriteMany"@,
        storage_class: match instance.spec.desired_storage_class() {
            Some(c) => c,
            None => default_class,
        },
        storage_size: size_or_default(present_size),
        volume_name: None,
    }
}

/// Builds the claim that a migration copies to.
pub fn build_temp_claim(
    instance: &OdooInstance,
    default_class: &str,
    present_size: &Option<String>,
) -> (r: PvcManifest)
    ensures
        r@ == temp_claim(*instance, default_class@, opt_text(*present_size)),
{
    let name = instance.metadata.name_any();
    let class = match instance.spec.storage_class() {
        Some(c) => c,
        None => default_class.to_owned(),
    };
    PvcManifest {
        name: temp_claim_name(name.as_str()),
        namespace: instance.metadata.namespace_or_default(),
        owner: None,
        access_mode: "ReadWriteMany".to_owned(),
        storage_class: class,
        storage_size: or_default_size(present_size),
        volume_name: None,
    }
}

/// The claim that takes the place of the old one, bound to the volume that the
/// data was copied to.
pub open spec fn final_claim(instance: OdooInstance, volume: Seq<char>) -> PvcManifestView {
    PvcManifestView {
        name: claim_text(instance.metadata.name_text()),
        namespace: instance.metadata.namespace_text(),
        owner: Some(owner_of(instance)),
        access_mode: "ReadWriteMany"@,
        storage_class: match instance.spec.desired_storage_class() {
            Some(c) => c,
            None => Seq::empty(),
        },
        storage_size: size_or_default(instance.spec.desired_storage_size()),
        volume_name: Some(volume),
    }
}

/// Builds the claim that takes the place of the old one.
pub fn build_final_claim(instance: &OdooInstance, volume: &str) -> (r: PvcManifest)
    ensures
        r@ == final_claim(*instance, volume@),
{
    let name = instance.metadata.name_any();
    PvcManifest {
        name: claim_name(name.as_str()),
        namespace: instance.metadata.namespace_or_default(),
        owner: Some(controller_owner_ref(instance)),
        access_mode: "ReadWriteMany".to_owned(),
        storage_class: unwrap_or_empty(&instance.spec.storage_class()),
        storage_size: or_default_size(&instance.spec.storage_size()),
        volume_name: Some(volume.to_owned()),
    }
}

// ── Begin ────────────────────────────────────────────────────────────────────

/// What the status of an instance says once its migration has begun.
#[derive(Clone, Debug)]
pub struct MigrationRecord {
    pub job_name: String,
    pub previous_class: String,
    pub message: String,
}

/// The storage class that a migration starts from, as far as it is known.
pub open spec fn previous_class_text(s: ReconcileSnapshot) -> Seq<char> {
    match s.actual_storage_class {
        Some(c) => c@,
        None => "unknown"@,
    }
}

/// What is said of a migration that is under way.
pub open spec fn migrating_message(from: Seq<char>, to: Option<Seq<char>>) -> Seq<char> {
    "Migrating filestore from "@ + from + " to "@ + match to {
        Some(c) => c,
        None => "?"@,
    }
}

/// What the status says once the job that copies the data has been created.
pub fn begin_filestore_migration(
    instance: &OdooInstance,
    snapshot: &ReconcileSnapshot,
    job_name: &str,
) -> (r: MigrationRecord)
    ensures
        r.job_name@ == job_name@,
        r.previous_class@ == previous_class_text(*snapshot),
        r.message@ == migrating_message(
            previous_class_text(*snapshot),
            instance.spec.desired_storage_class(),
        ),
{
    let previous = match &snapshot.actual_storage_class {
        Some(c) => c.clone(),
        None => "unknown".to_owned(),
    };
    let to = match instance.spec.storage_class() {
        Some(c) => c,
        None => "?".to_owned(),
    };
    let message = concat4("Migrating filestore from ", previous.as_str(), " to ", to.as_str());
    MigrationRecord { job_name: job_name.to_owned(), previous_class: previous, message }
}

/// A stage of the beginning of a migration: the call that is due.
#[derive(Clone, Debug)]
pub enum BeginStage {
    /// Scale the Deployment of the instance down.
    ScaleWeb,
    /// Scale the Deployment that runs scheduled actions down.
    ScaleCron,
    /// Read how large the claim is that is there.
    ReadOldClaim,
    /// Create the temporary claim, of the size that was read.
    CreateTempClaim { size: Option<String> },
    /// Create the job that copies the data.
    CreateJob,
    /// Write the name of the job to the status.
    Record { job_name: String },
    /// The migration has begun.
    Begun,
    /// The call that was made last failed; the next reconciliation begins anew.
    Failed,
}

/// The outcome of a call at the beginning of a migration.
#[derive(Clone, Debug)]
pub enum BeginOutcome {
    /// The call succeeded.  A claim that was read tells its size, and an object
    /// that was created its name.
    Done { text: Option<String> },
    Failed,
}

/// The stage that follows a call.  A claim that cannot be read leaves the size
/// open.
pub open spec fn begin_after(stage: BeginStage, outcome: BeginOutcome) -> BeginStage {
    match stage {
        BeginStage::Begun => stage,
        BeginStage::Failed => stage,
        BeginStage::ReadOldClaim => match outcome {
            BeginOutcome::Done { text } => BeginStage::CreateTempClaim { size: text },
            BeginOutcome::Failed => BeginStage::CreateTempClaim { size: None },
        },
        _ => match outcome {
            BeginOutcome::Failed => BeginStage::Failed,
            BeginOutcome::Done { text } => match stage {
                BeginStage::ScaleWeb => BeginStage::ScaleCron,
                BeginStage::ScaleCron => BeginStage::ReadOldClaim,
                BeginStage::CreateTempClaim { .. } => BeginStage::CreateJob,
                BeginStage::CreateJob => match text {
                    Some(job_name) => BeginStage::Record { job_name },
                    None => BeginStage::Failed,
                },
                _ => BeginStage::Begun,
            },
        },
    }
}

/// Goes on to the stage that follows a call.
pub fn advance_begin(stage: BeginStage, outcome: BeginOutcome) -> (r: BeginStage)
    ensures
        r == begin_after(stage, outcome),
{
    match stage {
        BeginStage::Begun => BeginStage::Begun,
        BeginStage::Failed => BeginStage::Failed,
        BeginStage::ReadOldClaim => match outcome {
            BeginOutcome::Done { text } => BeginStage::CreateTempClaim { size: text },
            BeginOutcome::Failed => BeginStage::CreateTempClaim { size: None },
        },
        _ => match outcome {
            BeginOutcome::Failed => BeginStage::Failed,
            BeginOutcome::Done { text } => match stage {
                BeginStage::ScaleWeb => BeginStage::ScaleCron,
                BeginStage::ScaleCron => BeginStage::ReadOldClaim,
                BeginStage::CreateTempClaim { .. } => BeginStage::CreateJob,
                BeginStage::CreateJob => match text {
                    Some(job_name) => BeginStage::Record { job_name },
                    None => BeginStage::Failed,
                },
                _ => BeginStage::Begun,
            },
        },
    }
}

/// The job that copies the data is created only after both Deployments were
/// scaled down and the claim that it copies to was created.
pub proof fn law_nothing_is_copied_before_scaling_down(stage: BeginStage, outcome: BeginOutcome)
    ensures
        begin_after(stage, outcome) is CreateJob ==> stage is CreateTempClaim && outcome is Done,
        begin_after(stage, outcome) is CreateTempClaim ==> stage is ReadOldClaim,
        begin_after(stage, outcome) is ReadOldClaim ==> stage is ScaleCron && outcome is Done,
        begin_after(stage, outcome) is ScaleCron ==> stage is ScaleWeb && outcome is Done,
{
}

// ── Rollback ─────────────────────────────────────────────────────────────────

/// What a rollback does: it deletes the temporary claim and the job, writes the
/// previous storage class back to the spec where it is known, and clears the
/// migration from the status, which then holds the message.
#[derive(Clone, Debug)]
pub struct FilestoreRollback {
    pub temp_claim: String,
    pub job: Option<String>,
    pub revert_class: Option<String>,
    pub message: String,
}

/// The storage class that the status remembers.
pub open spec fn remembered_class(instance: OdooInstance) -> Seq<char> {
    match instance.status {
        Some(s) => match s.migration_previous_storage_class {
            Some(c) => c@,
            None => "unknown"@,
        },
        None => "unknown"@,
    }
}

/// Plans a rollback.
pub fn rollback_filestore_migration(instance: &OdooInstance) -> (r: FilestoreRollback)
    ensures
        r.temp_claim@ == temp_claim_text(instance.metadata.name_text()),
        r.job == crate::controller::state_machine::status_migration_job(*instance),
        opt_text(r.revert_class) == if remembered_class(*instance) != "unknown"@ {
            Some(remembered_class(*instance))
        } else {
            None
        },
        r.message@ == "Filestore migration rolled back to "@ + remembered_class(*instance),
{
    let name = instance.metadata.name_any();
    let previous = match &instance.status {
        Some(s) => match &s.migration_previous_storage_class {
            Some(c) => c.clone(),
            None => "unknown".to_owned(),
        },
        None => "unknown".to_owned(),
    };
    let job = match &instance.status {
        Some(s) => clone_opt(&s.migration_job_name),
        None => None,
    };
    let message = concat2("Filestore migration rolled back to ", previous.as_str());
    let revert_class = if same_text(previous.as_str(), "unknown") {
        None
    } else {
        Some(previous)
    };
    FilestoreRollback { temp_claim: temp_claim_name(name.as_str()), job, revert_class, message }
}

/// A stage of a rollback: the call that is due.
#[derive(Clone, Copy, Debug, PartialEq, Eq, Structural)]
pub enum FilestoreRollbackStage {
    /// Delete the temporary claim.
    DeleteTempClaim,
    /// Delete the job.
    DeleteJob,
    /// Write the previous storage class back to the spec.
    RevertSpec,
    /// Clear the migration from the status and write the message.
    ClearStatus,
    /// Everything is done.
    Finished,
    /// The rollback cannot go on for now.
    Failed,
}

/// What is due once the job is out of the way.
pub open spec fn rollback_after_job(plan: FilestoreRollback) -> FilestoreRollbackStage {
    if plan.revert_class is Some {
        FilestoreRollbackStage::RevertSpec
    } else {
        FilestoreRollbackStage::ClearStatus
    }
}

/// The stage that follows a call.  Whether the claim and the job could be deleted
/// does not matter; the spec and the status have to be written.
pub open spec fn rollback_after(
    stage: FilestoreRollbackStage,
    done: bool,
    plan: FilestoreRollback,
) -> FilestoreRollbackStage {
    match stage {
        FilestoreRollbackStage::DeleteTempClaim => if plan.job is Some {
            FilestoreRollbackStage::DeleteJob
        } else {
            rollback_after_job(plan)
        },
        FilestoreRollbackStage::DeleteJob => rollback_after_job(plan),
        FilestoreRollbackStage::RevertSpec => if done {
            FilestoreRollbackStage::ClearStatus
        } else {
            FilestoreRollbackStage::Failed
        },
        FilestoreRollbackStage::ClearStatus => if done {
            FilestoreRollbackStage::Finished
        } else {
            FilestoreRollbackStage::Failed
        },
        FilestoreRollbackStage::Finished => FilestoreRollbackStage::Finished,
        FilestoreRollbackStage::Failed => FilestoreRollbackStage::Failed,
    }
}

/// Starts a rollback.
pub fn start_rollback() -> (r: FilestoreRollbackStage)
    ensures
        r == FilestoreRollbackStage::DeleteTempClaim,
{
    FilestoreRollbackStage::DeleteTempClaim
}

/// Goes on to the stage that follows a call.
pub fn advance_rollback(stage: FilestoreRollbackStage, done: bool, plan: &FilestoreRollback) -> (r:
    FilestoreRollbackStage)
    ensures
        r == rollback_after(stage, done, *plan),
{
    let after_job = if plan.revert_class.is_some() {
        FilestoreRollbackStage::RevertSpec
    } else {
        FilestoreRollbackStage::ClearStatus
    };
    match stage {
        FilestoreRollbackStage::DeleteTempClaim => if plan.job.is_some() {
            FilestoreRollbackStage::DeleteJob
        } else {
            after_job
        },
        FilestoreRollbackStage::DeleteJob => after_job,
        FilestoreRollbackStage::RevertSpec => if done {
            FilestoreRollbackStage::ClearStatus
        } else {
            FilestoreRollbackStage::Failed
        },
        FilestoreRollbackStage::ClearStatus => if done {
            FilestoreRollbackStage::Finished
        } else {
            FilestoreRollbackStage::Failed
        },
        FilestoreRollbackStage::Finished => FilestoreRollbackStage::Finished,
        FilestoreRollbackStage::Failed => FilestoreRollbackStage::Failed,
    }
}

/// A rollback only fails where the spec or the status cannot be written, it forgets
/// the migration last, and only after the spec is written where that is due.
pub proof fn law_rollback_forgets_the_migration_last(
    stage: FilestoreRollbackStage,
    done: bool,
    plan: FilestoreRollback,
)
    ensures
        rollback_after(stage, done, plan) == FilestoreRollbackStage::Failed ==> {
            ||| stage == FilestoreRollbackStage::Failed
            ||| !done && (stage == FilestoreRollbackStage::RevertSpec || stage
                == FilestoreRollbackStage::ClearStatus)
        },
        rollback_after(stage, done, plan) == FilestoreRollbackStage::Finished ==> stage
            == FilestoreRollbackStage::Finished || (stage == FilestoreRollbackStage::ClearStatus
            && done),
        rollback_after(stage, done, plan) == FilestoreRollbackStage::ClearStatus
            && plan.revert_class is Some ==> stage == FilestoreRollbackStage::RevertSpec && done,
{
}

// ── Completion ───────────────────────────────────────────────────────────────

/// The outcome of a call to the cluster.
#[derive(Clone, Debug)]
pub enum CallOutcome {
    /// The call succeeded; a claim that was read is bound to the volume, if any.
    Done { volume: Option<String> },
    /// The object does not exist.
    NotFound,
    /// The call failed in another way.
    Failed,
}

/// Why a migration cannot go on for now.
#[derive(Clone, Copy, Debug, PartialEq, Eq, Structural)]
pub enum MigrationError {
    /// The call that was made last failed.
    Api,
    /// The temporary claim is not bound to a volume yet.
    NotBound,
    /// The old claim is still being deleted.
    StillTerminating,
    /// The status does not name the volume.
    NoVolume,
}

impl MigrationError {
    /// The reason in words.
    pub open spec fn text(self) -> Seq<char> {
        match self {
            MigrationError::Api => ""@,
            MigrationError::NotBound => "temp PVC has no volumeName — not bound yet"@,
            MigrationError::StillTerminating => "old PVC still terminating — will retry"@,
            MigrationError::NoVolume => "migrationPvName not set in status"@,
        }
    }

    /// The reason in words.
    pub fn message(&self) -> (r: &'static str)
        ensures
            r@ == self.text(),
    {
        match self {
            MigrationError::Api => "",
            MigrationError::NotBound => "temp PVC has no volumeName — not bound yet",
            MigrationError::StillTerminating => "old PVC still terminating — will retry",
            MigrationError::NoVolume => "migrationPvName not set in status",
        }
    }
}

/// Whether a look showed a claim that is bound to a volume.
pub open spec fn is_bound_to(outcome: CallOutcome, volume: Seq<char>) -> bool {
    outcome matches CallOutcome::Done { volume: Some(v) } && v@ == volume
}

/// Whether a look showed a claim that is bound to a volume.
pub fn bound_to(outcome: &CallOutcome, volume: &str) -> (r: bool)
    ensures
        r == is_bound_to(*outcome, volume@),
{
    match outcome {
        CallOutcome::Done { volume: Some(v) } => same_text(v.as_str(), volume),
        _ => false,
    }
}

/// A stage of the completion of a migration: the call that is due.
#[derive(Clone, Debug)]
pub enum CompletionStage {
    /// Read the temporary claim.
    ReadTempClaim,
    /// Write the name of the volume to the status.
    StoreVolume { volume: String },
    /// Look whether the claim is bound to the volume already.
    CheckBound { volume: String },
    /// Delete the old claim.
    DeleteOldClaim { volume: String },
    /// Read the old claim.
    CheckOldClaim { volume: String },
    /// Make the volume stay and take its claim reference away.
    ReleaseVolume { volume: String },
    /// Delete the temporary claim.
    DeleteTempClaim { volume: String },
    /// Read the final claim.
    CheckFinalClaim { volume: String },
    /// Create the final claim.
    CreateFinalClaim { volume: String },
    /// Delete the job, if the status names one.
    DeleteJob,
    /// Clear the migration from the status.
    ClearStatus,
    /// Everything is done.
    Finished,
    /// The migration cannot go on for now.
    Failed { error: MigrationError },
}

/// Where the completion of a migration starts: at the volume, if the status
/// already names it.
pub open spec fn completion_start(instance: OdooInstance) -> CompletionStage {
    match instance.status {
        Some(s) => match s.migration_pv_name {
            Some(v) => CompletionStage::CheckBound { volume: v },
            None => CompletionStage::ReadTempClaim,
        },
        None => CompletionStage::ReadTempClaim,
    }
}

/// The stage that follows a call.
pub open spec fn completion_after(
    stage: CompletionStage,
    outcome: CallOutcome,
) -> CompletionStage {
    let api_error = CompletionStage::Failed { error: MigrationError::Api };
    match stage {
        CompletionStage::ReadTempClaim => match outcome {
            CallOutcome::Done { volume: Some(v) } => CompletionStage::StoreVolume { volume: v },
            CallOutcome::Done { volume: None } => CompletionStage::Failed {
                error: MigrationError::NotBound,
            },
            _ => api_error,
        },
        CompletionStage::StoreVolume { volume } => if outcome is Done {
            CompletionStage::CheckBound { volume }
        } else {
            api_error
        },
        CompletionStage::CheckBound { volume } => if is_bound_to(outcome, volume@) {
            CompletionStage::DeleteJob
        } else {
            CompletionStage::DeleteOldClaim { volume }
        },
        CompletionStage::DeleteOldClaim { volume } => if outcome is Failed {
            api_error
        } else {
            CompletionStage::CheckOldClaim { volume }
        },
        CompletionStage::CheckOldClaim { volume } => if outcome is Done {
            CompletionStage::Failed { error: MigrationError::StillTerminating }
        } else {
            CompletionStage::ReleaseVolume { volume }
        },
        CompletionStage::ReleaseVolume { volume } => if outcome is Done {
            CompletionStage::DeleteTempClaim { volume }
        } else {
            api_error
        },
        CompletionStage::DeleteTempClaim { volume } => if outcome is Failed {
            api_error
        } else {
            CompletionStage::CheckFinalClaim { volume }
        },
        CompletionStage::CheckFinalClaim { volume } => if outcome is Done {
            CompletionStage::DeleteJob
        } else {
            CompletionStage::CreateFinalClaim { volume }
        },
        CompletionStage::CreateFinalClaim { volume } => if outcome is Done {
            CompletionStage::DeleteJob
        } else {
            api_error
        },
        CompletionStage::DeleteJob => CompletionStage::ClearStatus,
        CompletionStage::ClearStatus => if outcome is Done {
            CompletionStage::Finished
        } else {
            api_error
        },
        CompletionStage::Finished => CompletionStage::Finished,
        CompletionStage::Failed { error } => CompletionStage::Failed { error },
    }
}

/// Starts the completion of a migration.
pub fn start_completion(instance: &OdooInstance) -> (r: CompletionStage)
    ensures
        r == completion_start(*instance),
{
    match &instance.status {
        Some(s) => match &s.migration_pv_name {
            Some(v) => CompletionStage::CheckBound { volume: v.clone() },
            None => CompletionStage::ReadTempClaim,
        },
        None => CompletionStage::ReadTempClaim,
    }
}

/// Goes on to the stage that follows a call.
pub fn advance_completion(stage: CompletionStage, outcome: CallOutcome) -> (r: CompletionStage)
    ensures
        r == completion_after(stage, outcome),
{
    let done = matches!(outcome, CallOutcome::Done { .. });
    let failed = matches!(outcome, CallOutcome::Failed);
    let api_error = CompletionStage::Failed { error: MigrationError::Api };
    match stage {
        CompletionStage::ReadTempClaim => match outcome {
            CallOutcome::Done { volume } => match volume {
                Some(v) => CompletionStage::StoreVolume { volume: v },
                None => CompletionStage::Failed { error: MigrationError::NotBound },
            },
            _ => api_error,
        },
        CompletionStage::StoreVolume { volume } => if done {
            CompletionStage::CheckBound { volume }
        } else {
            api_error
        },
        CompletionStage::CheckBound { volume } => if bound_to(&outcome, volume.as_str()) {
            CompletionStage::DeleteJob
        } else {
            CompletionStage::DeleteOldClaim { volume }
        },
        CompletionStage::DeleteOldClaim { volume } => if failed {
            api_error
        } else {
            CompletionStage::CheckOldClaim { volume }
        },
        CompletionStage::CheckOldClaim { volume } => if done {
            CompletionStage::Failed { error: MigrationError::StillTerminating }
        } else {
            CompletionStage::ReleaseVolume { volume }
        },
        CompletionStage::ReleaseVolume { volume } => if done {
            CompletionStage::DeleteTempClaim { volume }
        } else {
            api_error
        },
        CompletionStage::DeleteTempClaim { volume } => if failed {
            api_error
        } else {
            CompletionStage::CheckFinalClaim { volume }
        },
        CompletionStage::CheckFinalClaim { volume } => if done {
            CompletionStage::DeleteJob
        } else {
            CompletionStage::CreateFinalClaim { volume }
        },
        CompletionStage::CreateFinalClaim { volume } => if done {
            CompletionStage::DeleteJob
        } else {
            api_error
        },
        CompletionStage::DeleteJob => CompletionStage::ClearStatus,
        CompletionStage::ClearStatus => if done {
            CompletionStage::Finished
        } else {
            api_error
        },
        CompletionStage::Finished => CompletionStage::Finished,
        CompletionStage::Failed { error } => CompletionStage::Failed { error },
    }
}

/// How far a completion has come.
pub open spec fn completion_rank(stage: CompletionStage) -> int {
    match stage {
        CompletionStage::ReadTempClaim => 0,
        CompletionStage::StoreVolume { .. } => 1,
        CompletionStage::CheckBound { .. } => 2,
        CompletionStage::DeleteOldClaim { .. } => 3,
        CompletionStage::CheckOldClaim { .. } => 4,
        CompletionStage::ReleaseVolume { .. } => 5,
        CompletionStage::DeleteTempClaim { .. } => 6,
        CompletionStage::CheckFinalClaim { .. } => 7,
        CompletionStage::CreateFinalClaim { .. } => 8,
        CompletionStage::DeleteJob => 9,
        CompletionStage::ClearStatus => 10,
        CompletionStage::Finished => 11,
        CompletionStage::Failed { .. } => 11,
    }
}

/// The volume that a completion is about, once it is known.
pub open spec fn completion_volume(stage: CompletionStage) -> Option<String> {
    match stage {
        CompletionStage::StoreVolume { volume } => Some(volume),
        CompletionStage::CheckBound { volume } => Some(volume),
        CompletionStage::DeleteOldClaim { volume } => Some(volume),
        CompletionStage::CheckOldClaim { volume } => Some(volume),
        CompletionStage::ReleaseVolume { volume } => Some(volume),
        CompletionStage::DeleteTempClaim { volume } => Some(volume),
        CompletionStage::CheckFinalClaim { volume } => Some(volume),
        CompletionStage::CreateFinalClaim { volume } => Some(volume),
        _ => None,
    }
}

/// Every call brings a completion forward, so it comes to an end after at most
/// eleven calls.
pub proof fn law_completion_makes_progress(stage: CompletionStage, outcome: CallOutcome)
    ensures
        completion_rank(stage) < 11 ==> completion_rank(completion_after(stage, outcome))
            > completion_rank(stage),
        0 <= completion_rank(stage) <= 11,
{
}

/// A completion never turns to another volume than the one it started with.
pub proof fn law_completion_keeps_its_volume(stage: CompletionStage, outcome: CallOutcome)
    requires
        completion_volume(stage) is Some,
        completion_volume(completion_after(stage, outcome)) is Some,
    ensures
        completion_volume(completion_after(stage, outcome)) == completion_volume(stage),
{
}

/// The volume is released only after a look that did not show the old claim any
/// more, and a new claim is created only after one that shows none.
pub proof fn law_no_release_while_the_old_claim_is_seen(
    stage: CompletionStage,
    outcome: CallOutcome,
)
    ensures
        completion_after(stage, outcome) is ReleaseVolume ==> stage is CheckOldClaim
            && !(outcome is Done),
        completion_after(stage, outcome) is CreateFinalClaim ==> stage is CheckFinalClaim
            && !(outcome is Done),
{
}

/// A completion whose claim is bound to the recorded volume already leaves every
/// claim and the volume alone: only the job and the status are cleaned up.  The
/// claim that a completion creates is such a claim.
pub proof fn law_completion_is_idempotent(
    instance: OdooInstance,
    volume: String,
    bound: String,
)
    requires
        instance.status matches Some(s) && s.migration_pv_name == Some(volume),
        bound@ == volume@,
    ensures
        completion_start(instance) is CheckBound,
        completion_after(completion_start(instance), CallOutcome::Done { volume: Some(bound) })
            is DeleteJob,
        final_claim(instance, volume@).volume_name == Some(volume@),
{
}

// ── What a migration is for ──────────────────────────────────────────────────

/// The volumes of the copy and their places are told apart.
proof fn lemma_volume_names()
    ensures
        "old-filestore"@.len() == 13,
        "new-filestore"@.len() == 13,
        "/mnt/old"@.len() == 8,
        "/mnt/new"@.len() == 8,
        "new-filestore"@[0] == 'n',
        "old-filestore"@[0] == 'o',
        "/mnt/new"@[5] == 'n',
        "/mnt/old"@[5] == 'o',
{
    reveal_strlit("old-filestore");
    reveal_strlit("new-filestore");
    reveal_strlit("/mnt/old");
    reveal_strlit("/mnt/new");
}

/// The copy goes from the claim of the instance to the temporary one: what the script
/// finds at `/mnt/old` is the claim that the instance has, which it cannot write to,
/// and what it finds at `/mnt/new` is the temporary claim, which it can.
pub proof fn law_the_copy_goes_to_the_temporary_claim(
    instance_name: &str,
    ns: &str,
    instance: &OdooInstance,
    script: &str,
    r: JobManifest,
)
    requires
        call_ensures(build_rsync_job, (instance_name, ns, instance, script), r),
    ensures
        r@.containers.len() == 1,
        r@.init_containers.len() == 0,
        finds_at(
            r@.volumes,
            r@.containers[0],
            "/mnt/old"@,
            VolumeSourceView::Claim {
                claim_name: instance_name@ + "-filestore-pvc"@,
                read_only: true,
            },
            false,
        ),
        finds_at(
            r@.volumes,
            r@.containers[0],
            "/mnt/new"@,
            VolumeSourceView::Claim {
                claim_name: instance_name@ + "-filestore-pvc-temp"@,
                read_only: false,
            },
            true,
        ),
        r@.containers[0].command == seq!["/bin/sh"@, "-c"@],
        r@.containers[0].args == seq![script@],
{
    lemma_volume_names();
    let mounts = r@.containers[0].volume_mounts;
    assert(mounts.len() == 2);
    assert(mounts[0].mount_path == "/mnt/old"@);
    assert(mounts[1].mount_path == "/mnt/new"@);
    assert(r@.volumes.len() == 2);
    assert(r@.volumes[0].name == "old-filestore"@);
    assert(r@.volumes[1].name == "new-filestore"@);
}

/// The copy runs in the namespace of the instance, may pull its image as the instance
/// does, is tried again a few times and not for ever.
pub proof fn law_the_copy_is_bounded(
    instance_name: &str,
    ns: &str,
    instance: &OdooInstance,
    script: &str,
    r: JobManifest,
)
    requires
        call_ensures(build_rsync_job, (instance_name, ns, instance, script), r),
    ensures
        r@.namespace == ns@,
        r@.generate_name == instance_name@ + "-migrate-"@,
        r@.app_label == Some(instance_name@),
        r@.backoff_limit == Some(3i32),
        r@.active_deadline_seconds == Some(3600i64),
        r@.restart_policy == Some("Never"@),
        instance.spec.image_pull_secret matches Some(s) ==> r@.image_pull_secret == Some(s@),
        instance.spec.image_pull_secret is None ==> r@.image_pull_secret is None,
{
}

/// The three claims of a migration fit together: the temporary one has the name that
/// a rollback deletes and its own class and size, the final one has the name that the
/// instance mounts, is bound to the volume and belongs to the instance; all can be
/// mounted by several pods.
pub proof fn law_claims_fit_together(
    instance: &OdooInstance,
    default_class: &str,
    present_size: &Option<String>,
    volume: &str,
    temp: PvcManifest,
    last: PvcManifest,
    plan: FilestoreRollback,
)
    requires
        call_ensures(build_temp_claim, (instance, default_class, present_size), temp),
        call_ensures(build_final_claim, (instance, volume), last),
        call_ensures(rollback_filestore_migration, (instance,), plan),
    ensures
        temp@.name == instance.metadata.name_text() + "-filestore-pvc-temp"@,
        plan.temp_claim@ == temp@.name,
        temp@.namespace == instance.metadata.namespace_text(),
        temp@.volume_name is None,
        temp@.owner is None,
        temp@.access_mode == "ReadWriteMany"@,
        last@.access_mode == "ReadWriteMany"@,
        *present_size matches Some(n) ==> temp@.storage_size == n@,
        *present_size is None ==> temp@.storage_size == "2Gi"@,
        last@.name == instance.metadata.name_text() + "-filestore-pvc"@,
        last@.namespace == instance.metadata.namespace_text(),
        last@.volume_name == Some(volume@),
        last@.owner matches Some(o) && o.name == instance.metadata.name_text() && o.kind
            == "OdooInstance"@ && o.controller == Some(true),
        instance.spec.filestore matches Some(f) ==> f.storage_class matches Some(c) ==> {
            &&& temp@.storage_class == c@
            &&& last@.storage_class == c@
        },
        instance.spec.filestore matches Some(f) ==> f.storage_size matches Some(n) ==>
            last@.storage_size == n@,
        !(instance.spec.filestore matches Some(f) && f.storage_class is Some)
            ==> temp@.storage_class == default_class@,
{
}

/// A rollback undoes what the beginning has recorded: it deletes the job that was
/// created and gives the spec the storage class that the filestore had.
pub proof fn law_rollbacks_undo_the_beginning(
    before: &OdooInstance,
    snapshot: &ReconcileSnapshot,
    job_name: &str,
    record: MigrationRecord,
    instance: &OdooInstance,
    r: FilestoreRollback,
)
    requires
        call_ensures(begin_filestore_migration, (before, snapshot, job_name), record),
        instance.status matches Some(s) && s.migration_job_name == Some(record.job_name)
            && s.migration_previous_storage_class == Some(record.previous_class),
        snapshot.actual_storage_class matches Some(c) && c@ != "unknown"@,
        call_ensures(rollback_filestore_migration, (instance,), r),
    ensures
        r.job matches Some(j) && j@ == job_name@,
        r.revert_class matches Some(c) && c@ == snapshot.actual_storage_class->0@,
        r.message@ == "Filestore migration rolled back to "@ + snapshot.actual_storage_class->0@,
{
}

/// What is said of a migration that begins names the class that the filestore has and
/// the one that the spec asks for.
pub proof fn law_migrations_say_what_they_do(
    instance: &OdooInstance,
    snapshot: &ReconcileSnapshot,
    job_name: &str,
    r: MigrationRecord,
)
    requires
        call_ensures(begin_filestore_migration, (instance, snapshot, job_name), r),
        snapshot.actual_storage_class is Some,
        instance.spec.filestore matches Some(f) && f.storage_class is Some,
    ensures
        r.previous_class@ == snapshot.actual_storage_class->0@,
        r.message@ == "Migrating filestore from "@ + snapshot.actual_storage_class->0@ + " to "@
            + instance.spec.filestore->0.storage_class->0@,
{
}

/// Where the status remembers no storage class, a rollback leaves that of the spec
/// alone.
pub proof fn law_unknown_classes_are_not_restored(instance: &OdooInstance, r: FilestoreRollback)
    requires
        call_ensures(rollback_filestore_migration, (instance,), r),
        instance.status matches Some(s) ==> s.migration_previous_storage_class is None,
    ensures
        r.revert_class is None,
{
}

/// A rollback removes everything: the temporary claim, then the job, if there is one,
/// then the class from the spec, if one is remembered, then the migration from the
/// status.
pub proof fn law_rollbacks_leave_nothing_behind(
    plan: &FilestoreRollback,
    done: bool,
    first: FilestoreRollbackStage,
)
    requires
        call_ensures(start_rollback, (), first),
    ensures
        first == FilestoreRollbackStage::DeleteTempClaim,
        plan.job is Some ==> rollback_after(FilestoreRollbackStage::DeleteTempClaim, done, *plan)
            == FilestoreRollbackStage::DeleteJob,
        ({
            let next = if plan.revert_class is Some {
                FilestoreRollbackStage::RevertSpec
            } else {
                FilestoreRollbackStage::ClearStatus
            };
            &&& plan.job is None ==> rollback_after(
                FilestoreRollbackStage::DeleteTempClaim,
                done,
                *plan,
            ) == next
            &&& rollback_after(FilestoreRollbackStage::DeleteJob, done, *plan) == next
        }),
        rollback_after(FilestoreRollbackStage::RevertSpec, true, *plan)
            == FilestoreRollbackStage::ClearStatus,
        rollback_after(FilestoreRollbackStage::ClearStatus, true, *plan)
            == FilestoreRollbackStage::Finished,
{
}

/// A migration that nothing keeps from beginning goes on stage by stage: both
/// Deployments go down, the size of the claim is read, a claim of that size and the
/// job are created, and the job is recorded under its name.
pub proof fn law_beginnings_reach_their_end(
    stage: BeginStage,
    text: Option<String>,
    r: BeginStage,
)
    requires
        call_ensures(advance_begin, (stage, BeginOutcome::Done { text }), r),
    ensures
        stage is ScaleWeb ==> r is ScaleCron,
        stage is ScaleCron ==> r is ReadOldClaim,
        stage is ReadOldClaim ==> r == (BeginStage::CreateTempClaim { size: text }),
        stage is CreateTempClaim ==> r is CreateJob,
        stage is CreateJob && text is Some ==> r == (BeginStage::Record { job_name: text->0 }),
        stage is Record ==> r is Begun,
{
}

/// A beginning that fails ends there; only the size of the old claim may stay unknown.
pub proof fn law_failed_beginnings_end(stage: BeginStage, r: BeginStage)
    requires
        call_ensures(advance_begin, (stage, BeginOutcome::Failed), r),
    ensures
        stage is ReadOldClaim ==> r == (BeginStage::CreateTempClaim { size: None }),
        stage is ScaleWeb || stage is ScaleCron || stage is CreateTempClaim || stage is CreateJob
            || stage is Record ==> r is Failed,
{
}

/// A completion whose calls succeed goes through every step: the volume is read and
/// stored, the old claim goes, the volume is released, the temporary claim goes, the
/// final one is created, and the job and the status are cleaned up.
pub proof fn law_completions_reach_their_end(volume: String, other: CallOutcome)
    requires
        !is_bound_to(other, volume@),
    ensures
        completion_after(
            CompletionStage::ReadTempClaim,
            CallOutcome::Done { volume: Some(volume) },
        ) == (CompletionStage::StoreVolume { volume }),
        completion_after(
            CompletionStage::StoreVolume { volume },
            CallOutcome::Done { volume: None },
        ) == (CompletionStage::CheckBound { volume }),
        completion_after(CompletionStage::CheckBound { volume }, other) == (
        CompletionStage::DeleteOldClaim { volume }),
        completion_after(
            CompletionStage::DeleteOldClaim { volume },
            CallOutcome::Done { volume: None },
        ) == (CompletionStage::CheckOldClaim { volume }),
        completion_after(CompletionStage::CheckOldClaim { volume }, CallOutcome::NotFound) == (
        CompletionStage::ReleaseVolume { volume }),
        completion_after(
            CompletionStage::ReleaseVolume { volume },
            CallOutcome::Done { volume: None },
        ) == (CompletionStage::DeleteTempClaim { volume }),
        completion_after(
            CompletionStage::DeleteTempClaim { volume },
            CallOutcome::Done { volume: None },
        ) == (CompletionStage::CheckFinalClaim { volume }),
        completion_after(CompletionStage::CheckFinalClaim { volume }, CallOutcome::NotFound) == (
        CompletionStage::CreateFinalClaim { volume }),
        completion_after(
            CompletionStage::CreateFinalClaim { volume },
            CallOutcome::Done { volume: None },
        ) == CompletionStage::DeleteJob,
        completion_after(CompletionStage::DeleteJob, other) == CompletionStage::ClearStatus,
        completion_after(CompletionStage::ClearStatus, CallOutcome::Done { volume: None })
            == CompletionStage::Finished,
{
}

/// The data is safe at every step.  The temporary claim is deleted only once its volume
/// is released, the final claim is created only after that, and the job and the record
/// go only when the final claim is there.
pub proof fn law_completions_keep_the_data(stage: CompletionStage, outcome: CallOutcome)
    ensures
        ({
            let next = completion_after(stage, outcome);
            &&& next is DeleteTempClaim ==> stage is ReleaseVolume && outcome is Done
            &&& next is CheckFinalClaim ==> stage is DeleteTempClaim && !(outcome is Failed)
            &&& next is DeleteJob ==> {
                ||| stage is CreateFinalClaim && outcome is Done
                ||| stage is CheckFinalClaim && outcome is Done
                ||| stage matches CompletionStage::CheckBound { volume } && is_bound_to(
                    outcome,
                    volume@,
                )
            }
            &&& next is ClearStatus ==> stage is DeleteJob
            &&& next is Finished ==> stage is Finished || (stage is ClearStatus && outcome
                is Done)
            &&& next is DeleteOldClaim ==> stage is CheckBound
            &&& next is CheckOldClaim ==> stage is DeleteOldClaim && !(outcome is Failed)
        }),
{
}

/// A completion that cannot go on says why: the temporary claim is not bound, the old
/// one is still there, or a call failed.
pub proof fn law_stuck_completions_say_why(stage: CompletionStage, outcome: CallOutcome)
    requires
        !(stage is Failed),
        completion_after(stage, outcome) is Failed,
    ensures
        ({
            let why = completion_after(stage, outcome)->error;
            &&& why == MigrationError::NotBound <==> stage is ReadTempClaim && (outcome matches
                CallOutcome::Done { volume: None })
            &&& why == MigrationError::StillTerminating <==> stage is CheckOldClaim
            &&& why != MigrationError::NoVolume
        }),
        stage is CheckOldClaim ==> outcome is Done,
{
}

/// A rollback goes from stage to stage: the temporary claim goes, then the job if there is
/// one, then the spec is reverted if the class is known, then the migration is forgotten.
/// Only the spec and the status have to be written.
pub proof fn law_rollbacks_go_on(
    stage: FilestoreRollbackStage,
    done: bool,
    plan: &FilestoreRollback,
    r: FilestoreRollbackStage,
)
    requires
        call_ensures(advance_rollback, (stage, done, plan), r),
    ensures
        ({
            let known = plan.revert_class is Some;
            &&& stage == FilestoreRollbackStage::DeleteTempClaim && plan.job is Some ==> r
                == FilestoreRollbackStage::DeleteJob
            &&& stage == FilestoreRollbackStage::DeleteTempClaim && plan.job is None && known ==> r
                == FilestoreRollbackStage::RevertSpec
            &&& stage == FilestoreRollbackStage::DeleteTempClaim && plan.job is None && !known ==> r
                == FilestoreRollbackStage::ClearStatus
            &&& stage == FilestoreRollbackStage::DeleteJob && known ==> r
                == FilestoreRollbackStage::RevertSpec
            &&& stage == FilestoreRollbackStage::DeleteJob && !known ==> r
                == FilestoreRollbackStage::ClearStatus
            &&& stage == FilestoreRollbackStage::RevertSpec && done ==> r
                == FilestoreRollbackStage::ClearStatus
            &&& stage == FilestoreRollbackStage::ClearStatus && done ==> r
                == FilestoreRollbackStage::Finished
            &&& !done && (stage == FilestoreRollbackStage::RevertSpec || stage
                == FilestoreRollbackStage::ClearStatus) ==> r == FilestoreRollbackStage::Failed
            &&& stage == FilestoreRollbackStage::Finished || stage == FilestoreRollbackStage::Failed
                ==> r == stage
        }),
{
}

/// A completion starts with the volume that the status names, or with the temporary claim.
pub proof fn law_completions_start_where_they_were(instance: &OdooInstance, r: CompletionStage)
    requires
        call_ensures(start_completion, (instance,), r),
    ensures
        instance.status matches Some(s) ==> s.migration_pv_name matches Some(v) ==> r
            == (CompletionStage::CheckBound { volume: v }),
        !(instance.status matches Some(s) && s.migration_pv_name is Some) ==> r is ReadTempClaim,
{
}

/// A completion whose calls succeed goes from stage to stage: it remembers the volume,
/// deletes the old claim, waits until that is gone, releases the volume, deletes the
/// temporary claim, creates the last one, deletes the job and forgets the migration.
pub proof fn law_completions_go_on(
    stage: CompletionStage,
    seen: Option<String>,
    r: CompletionStage,
    gone: CompletionStage,
    failed: CompletionStage,
)
    requires
        call_ensures(advance_completion, (stage, CallOutcome::Done { volume: seen }), r),
        call_ensures(advance_completion, (stage, CallOutcome::NotFound), gone),
        call_ensures(advance_completion, (stage, CallOutcome::Failed), failed),
    ensures
        ({
            let api = CompletionStage::Failed { error: MigrationError::Api };
            &&& stage is ReadTempClaim ==> {
                &&& seen matches Some(v) ==> r == (CompletionStage::StoreVolume { volume: v })
                &&& seen is None ==> r == (CompletionStage::Failed {
                    error: MigrationError::NotBound,
                })
                &&& gone == api && failed == api
            }
            &&& stage matches CompletionStage::StoreVolume { volume } ==> r
                == (CompletionStage::CheckBound { volume }) && gone == api && failed == api
            &&& stage matches CompletionStage::CheckBound { volume } ==> {
                let again = CompletionStage::DeleteOldClaim { volume };
                &&& (seen matches Some(v) && v@ == volume@) ==> r is DeleteJob
                &&& !(seen matches Some(v) && v@ == volume@) ==> r == again
                &&& gone == again && failed == again
            }
            &&& stage matches CompletionStage::DeleteOldClaim { volume } ==> r
                == (CompletionStage::CheckOldClaim { volume }) && gone == r && failed == api
            &&& stage matches CompletionStage::CheckOldClaim { volume } ==> r
                == (CompletionStage::Failed { error: MigrationError::StillTerminating }) && gone
                == (CompletionStage::ReleaseVolume { volume }) && failed == gone
            &&& stage matches CompletionStage::ReleaseVolume { volume } ==> r
                == (CompletionStage::DeleteTempClaim { volume }) && gone == api && failed == api
            &&& stage matches CompletionStage::DeleteTempClaim { volume } ==> r
                == (CompletionStage::CheckFinalClaim { volume }) && gone == r && failed == api
            &&& stage matches CompletionStage::CheckFinalClaim { volume } ==> r is DeleteJob && gone
                == (CompletionStage::CreateFinalClaim { volume }) && failed == gone
            &&& stage is CreateFinalClaim ==> r is DeleteJob && gone == api && failed == api
            &&& stage is DeleteJob ==> r is ClearStatus && gone is ClearStatus && failed
                is ClearStatus
            &&& stage is ClearStatus ==> r is Finished && gone == api && failed == api
            &&& stage is Finished || stage is Failed ==> r == stage && gone == stage && failed
                == stage
        }),
{
}

/// What holds a migration up is put in words.
pub proof fn law_obstacles_are_put_in_words(error: &MigrationError, r: &'static str)
    requires
        call_ensures(MigrationError::message, (error,), r),
    ensures
        *error == MigrationError::NotBound ==> r@ == "temp PVC has no volumeName — not bound yet"@,
        *error == MigrationError::StillTerminating ==> r@
            == "old PVC still terminating — will retry"@,
        *error == MigrationError::NoVolume ==> r@ == "migrationPvName not set in status"@,
        *error == MigrationError::Api ==> r@ == ""@,
{
}

/// The copy runs alone in one container, with the tool that it needs, leaves five minutes
/// after its end, and touches nothing but the two claims.
pub proof fn law_the_copy_runs_alone(
    instance_name: &str,
    ns: &str,
    instance: &OdooInstance,
    script: &str,
    r: JobManifest,
)
    requires
        call_ensures(build_rsync_job, (instance_name, ns, instance, script), r),
    ensures
        r@.containers.len() == 1,
        r@.init_containers.len() == 0,
        r@.volumes.len() == 2,
        r@.containers[0].name == "rsync"@,
        r@.containers[0].image == "instrumentisto/rsync-ssh:latest"@,
        r@.containers[0].env.len() == 0,
        r@.containers[0].volume_mounts.len() == 2,
        r@.ttl_seconds_after_finished == Some(300i32),
        r@.run_beside is None,
        !r@.odoo_frame,
        !r@.containers[0].odoo_mounts,
        r@.generate_name == instance_name@ + "-migrate-"@,
        r@.namespace == ns@,
{
}

} // verus!
