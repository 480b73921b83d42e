//! Phases in which a job resource is worked off.

use vstd::prelude::*;

use crate::controller::job_manifests::{
    backup_work, build_backup_work, build_init_work, build_restore_work, credentials_location,
    credentials_secret, init_work, restore_work, BackupScripts, RestoreScripts, S3Credentials,
};
use crate::controller::manifests::JobManifest;
use crate::controller::states::steady::{unscaled, web_down, Scaling};
use crate::controller::state_machine::ReconcileSnapshot;
use crate::crd::odoo_instance::OdooInstance;
use crate::crd::odoo_restore_job::RestoreSourceType;
use crate::crd::shared::{job_name_of, status_job_name, Phase, SecretReference};
use crate::text::concat2;

verus! {

/// What the status of a job resource says once its batch job exists.
#[derive(Clone, Debug)]
pub struct StartedStatus {
    pub phase: Phase,
    pub job_name: String,
    pub start_time: String,
}

/// The status of a job resource whose batch job has been created.
pub fn started_status(job_name: &str, now: &str) -> (r: StartedStatus)
    ensures
        r.phase == Phase::Running,
        r.job_name@ == job_name@,
        r.start_time@ == now@,
{
    StartedStatus {
        phase: Phase::Running,
        job_name: job_name.to_owned(),
        start_time: now.to_owned(),
    }
}

/// An event about a resource.
#[derive(Clone, Debug)]
pub struct EventText {
    pub warning: bool,
    pub reason: String,
    pub action: String,
    pub note: String,
}

/// Whether an event says what it should.
pub open spec fn is_event(
    e: EventText,
    warning: bool,
    reason: Seq<char>,
    action: Seq<char>,
    note: Seq<char>,
) -> bool {
    e.warning == warning && e.reason@ == reason && e.action@ == action && e.note@ == note
}

/// Makes an event.
pub fn make_event(warning: bool, reason: &str, action: &str, note: String) -> (r: EventText)
    ensures
        is_event(r, warning, reason@, action@, note@),
{
    EventText { warning, reason: reason.to_owned(), action: action.to_owned(), note }
}

/// Initialising the database: the init job works alone.
pub struct Initializing;

impl Initializing {
    /// The replica counts of the phase.
    pub fn scaling(&self) -> (r: Scaling)
        ensures
            r == web_down(),
    {
        Scaling { web: Some(0), cron: None }
    }

    /// The batch job to create: one is due while the active init job reports
    /// none.
    pub fn ensure(&self, instance: &OdooInstance, snapshot: &ReconcileSnapshot) -> (r: Option<
        JobManifest,
    >)
        ensures
            match snapshot.active_init_job {
                Some(j) => if status_job_name(j.status) is None {
                    &&& r matches Some(m)
                    &&& m@ == init_work(j, instance.metadata.namespace_text(), *instance)
                } else {
                    r is None
                },
                None => r is None,
            },
    {
        if let Some(job) = &snapshot.active_init_job {
            if job_name_of(&job.status).is_none() {
                let ns = instance.metadata.namespace_or_default();
                return Some(build_init_work(job, ns.as_str(), instance));
            }
        }
        None
    }
}

/// Upgrading modules: the upgrade job works alone.
pub struct Upgrading;

impl Upgrading {
    /// The outputs of the phase.
    pub fn on_enter(&self) -> (r: Scaling)
        ensures
            r == web_down(),
    {
        Scaling { web: Some(0), cron: None }
    }
}

/// Restoring a backup: the restore job works alone.
pub struct Restoring;

impl Restoring {
    /// The replica counts of the phase.
    pub fn scaling(&self) -> (r: Scaling)
        ensures
            r == web_down(),
    {
        Scaling { web: Some(0), cron: None }
    }

    /// Whether a batch job is due: the active restore job reports none.
    pub open spec fn is_due(s: ReconcileSnapshot) -> bool {
        s.active_restore_job matches Some(j) && status_job_name(j.status) is None
    }

    /// The Secret that holds the access to the object store, if the restore that
    /// is due reads from one that needs it.
    pub fn credentials(&self, instance: &OdooInstance, snapshot: &ReconcileSnapshot) -> (r: Option<
        (String, String),
    >)
        ensures
            match r {
                Some((name, namespace)) => {
                    &&& Restoring::is_due(*snapshot)
                    &&& snapshot.active_restore_job matches Some(j)
                    &&& j.spec.source.source_type == RestoreSourceType::S3
                    &&& j.spec.source.s3 matches Some(s3)
                    &&& credentials_location(
                        s3.s3_credentials_secret_ref,
                        instance.metadata.namespace_text(),
                    ) == Some((name@, namespace@))
                },
                None => {
                    ||| !Restoring::is_due(*snapshot)
                    ||| snapshot.active_restore_job->0.spec.source.source_type
                        != RestoreSourceType::S3
                    ||| snapshot.active_restore_job->0.spec.source.s3 is None
                    ||| snapshot.active_restore_job->0.spec.source.s3->0.s3_credentials_secret_ref is None
                },
            },
    {
        if let Some(job) = &snapshot.active_restore_job {
            if job_name_of(&job.status).is_none() {
                if job.spec.source.source_type == RestoreSourceType::S3 {
                    if let Some(s3) = &job.spec.source.s3 {
                        let ns = instance.metadata.namespace_or_default();
                        return credentials_secret(&s3.s3_credentials_secret_ref, ns.as_str());
                    }
                }
            }
        }
        None
    }

    /// The batch job to create, given the access to the object store as far as
    /// it could be read.
    pub fn ensure(
        &self,
        instance: &OdooInstance,
        snapshot: &ReconcileSnapshot,
        credentials: &Option<S3Credentials>,
        scripts: &RestoreScripts,
    ) -> (r: Option<JobManifest>)
        ensures
            match r {
                Some(m) => Restoring::is_due(*snapshot) && m@ == restore_work(
                    snapshot.active_restore_job->0,
                    instance.metadata.namespace_text(),
                    *instance,
                    *credentials,
                    *scripts,
                ),
                None => !Restoring::is_due(*snapshot),
            },
    {
        if let Some(job) = &snapshot.active_restore_job {
            if job_name_of(&job.status).is_none() {
                let ns = instance.metadata.namespace_or_default();
                return Some(build_restore_work(job, ns.as_str(), instance, credentials, scripts));
            }
        }
        None
    }

    /// The event about a batch job that has been created.
    pub fn started_event(&self, job_name: &str) -> (r: EventText)
        ensures
            is_event(
                r,
                false,
                "RestoreStarted"@,
                "Reconcile"@,
                "Created restore job "@ + job_name@,
            ),
    {
        make_event(
            false,
            "RestoreStarted",
            "Reconcile",
            concat2("Created restore job ", job_name),
        )
    }
}

/// Making a backup: the instance stays up.
pub struct BackingUp;

impl BackingUp {
    /// The replica counts of the phase.
    pub fn scaling(&self) -> (r: Scaling)
        ensures
            r == unscaled(),
    {
        Scaling { web: None, cron: None }
    }

    /// Whether a batch job is due: the active backup job reports none.
    pub open spec fn is_due(s: ReconcileSnapshot) -> bool {
        s.active_backup_job matches Some(j) && status_job_name(j.status) is None
    }

    /// The Secret that holds the access to the object store, if the backup that
    /// is due names one.
    pub fn credentials(&self, instance: &OdooInstance, snapshot: &ReconcileSnapshot) -> (r: Option<
        (String, String),
    >)
        ensures
            match r {
                Some((name, namespace)) => {
                    &&& BackingUp::is_due(*snapshot)
                    &&& credentials_location(
                        snapshot.active_backup_job->0.spec.destination.s3_credentials_secret_ref,
                        instance.metadata.namespace_text(),
                    ) == Some((name@, namespace@))
                },
                None => {
                    ||| !BackingUp::is_due(*snapshot)
                    ||| snapshot.active_backup_job->0.spec.destination.s3_credentials_secret_ref is None
                },
            },
    {
        if let Some(job) = &snapshot.active_backup_job {
            if job_name_of(&job.status).is_none() {
                let ns = instance.metadata.namespace_or_default();
                return credentials_secret(
                    &job.spec.destination.s3_credentials_secret_ref,
                    ns.as_str(),
                );
            }
        }
        None
    }

    /// The batch job to create, given the access to the object store as far as
    /// it could be read.
    pub fn ensure(
        &self,
        instance: &OdooInstance,
        snapshot: &ReconcileSnapshot,
        credentials: &Option<S3Credentials>,
        scripts: &BackupScripts,
    ) -> (r: Option<JobManifest>)
        ensures
            match r {
                Some(m) => BackingUp::is_due(*snapshot) && m@ == backup_work(
                    snapshot.active_backup_job->0,
                    instance.metadata.namespace_text(),
                    *instance,
                    *credentials,
                    *scripts,
                ),
                None => !BackingUp::is_due(*snapshot),
            },
    {
        if let Some(job) = &snapshot.active_backup_job {
            if job_name_of(&job.status).is_none() {
                let ns = instance.metadata.namespace_or_default();
                return Some(build_backup_work(job, ns.as_str(), instance, credentials, scripts));
            }
        }
        None
    }

    /// The event about a batch job that has been created.
    pub fn started_event(&self, job_name: &str) -> (r: EventText)
        ensures
            is_event(r, false, "BackupStarted"@, "Reconcile"@, "Created backup job "@ + job_name@),
    {
        make_event(false, "BackupStarted", "Reconcile", concat2("Created backup job ", job_name))
    }
}

/// A batch job is created once for a job: while the job names none, and never again.
pub proof fn law_batch_jobs_are_created_once(
    init: &Initializing,
    restoring: &Restoring,
    backing_up: &BackingUp,
    instance: &OdooInstance,
    snapshot: &ReconcileSnapshot,
    credentials: &Option<S3Credentials>,
    restore_scripts: &RestoreScripts,
    backup_scripts: &BackupScripts,
    i: Option<JobManifest>,
    r: Option<JobManifest>,
    b: Option<JobManifest>,
)
    requires
        call_ensures(Initializing::ensure, (init, instance, snapshot), i),
        call_ensures(
            Restoring::ensure,
            (restoring, instance, snapshot, credentials, restore_scripts),
            r,
        ),
        call_ensures(
            BackingUp::ensure,
            (backing_up, instance, snapshot, credentials, backup_scripts),
            b,
        ),
    ensures
        i is Some <==> (snapshot.active_init_job matches Some(j) && !(j.status matches Some(s)
            && s.job_name is Some)),
        r is Some <==> (snapshot.active_restore_job matches Some(j) && !(j.status matches Some(s)
            && s.job_name is Some)),
        b is Some <==> (snapshot.active_backup_job matches Some(j) && !(j.status matches Some(s)
            && s.job_name is Some)),
        i matches Some(m) ==> m@.generate_name
            == snapshot.active_init_job->0.metadata.name_text() + "-"@ && m@.namespace
            == instance.metadata.namespace_text(),
        r matches Some(m) ==> m@.generate_name
            == snapshot.active_restore_job->0.metadata.name_text() + "-"@ && m@.namespace
            == instance.metadata.namespace_text(),
        b matches Some(m) ==> m@.generate_name
            == snapshot.active_backup_job->0.metadata.name_text() + "-"@ && m@.namespace
            == instance.metadata.namespace_text(),
{
}

/// The batch jobs are the work of their resources: what the active job describes, done
/// for the instance, with the access to the object store that was read.
pub proof fn law_batch_jobs_do_the_work_of_their_resource(
    restoring: &Restoring,
    backing_up: &BackingUp,
    instance: &OdooInstance,
    snapshot: &ReconcileSnapshot,
    credentials: &Option<S3Credentials>,
    restore_scripts: &RestoreScripts,
    backup_scripts: &BackupScripts,
    r: Option<JobManifest>,
    b: Option<JobManifest>,
)
    requires
        call_ensures(
            Restoring::ensure,
            (restoring, instance, snapshot, credentials, restore_scripts),
            r,
        ),
        call_ensures(
            BackingUp::ensure,
            (backing_up, instance, snapshot, credentials, backup_scripts),
            b,
        ),
    ensures
        r matches Some(m) ==> (snapshot.active_restore_job matches Some(j) && m@ == restore_work(
            j,
            instance.metadata.namespace_text(),
            *instance,
            *credentials,
            *restore_scripts,
        )),
        b matches Some(m) ==> (snapshot.active_backup_job matches Some(j) && m@ == backup_work(
            j,
            instance.metadata.namespace_text(),
            *instance,
            *credentials,
            *backup_scripts,
        )),
{
}

/// The access to an object store is read for a backup or a restore that is due and
/// names a Secret for it: from that Secret, in its namespace or in that of the instance.
pub proof fn law_access_is_read_from_the_named_secret(
    restoring: &Restoring,
    backing_up: &BackingUp,
    instance: &OdooInstance,
    snapshot: &ReconcileSnapshot,
    r: Option<(String, String)>,
    b: Option<(String, String)>,
)
    requires
        call_ensures(Restoring::credentials, (restoring, instance, snapshot), r),
        call_ensures(BackingUp::credentials, (backing_up, instance, snapshot), b),
    ensures
        snapshot.active_backup_job matches Some(j) ==> {
            let due = !(j.status matches Some(s) && s.job_name is Some);
            let reference = j.spec.destination.s3_credentials_secret_ref;
            &&& b is Some <==> due && reference is Some
            &&& b matches Some(at) ==> is_secret_at(at, reference->0, *instance)
        },
        snapshot.active_restore_job matches Some(j) ==> {
            let due = !(j.status matches Some(s) && s.job_name is Some);
            let stored = j.spec.source.source_type == RestoreSourceType::S3 && (
            j.spec.source.s3 matches Some(s3) && s3.s3_credentials_secret_ref is Some);
            &&& r is Some <==> due && stored
            &&& r matches Some(at) ==> is_secret_at(
                at,
                j.spec.source.s3->0.s3_credentials_secret_ref->0,
                *instance,
            )
        },
        snapshot.active_backup_job is None ==> b is None,
        snapshot.active_restore_job is None ==> r is None,
{
}

/// Whether a name and a namespace are those that a reference gives, the namespace being
/// that of the instance where the reference gives none.
pub open spec fn is_secret_at(
    at: (String, String),
    reference: SecretReference,
    instance: OdooInstance,
) -> bool {
    &&& reference.name matches Some(n) ==> at.0@ == n@
    &&& reference.namespace matches Some(n) ==> at.1@ == n@
    &&& reference.namespace is None ==> at.1@ == instance.metadata.namespace_text()
}

/// A job that was started is running under the batch job that does its work, since the
/// time that is given; the events say what was created and are no warnings.
pub proof fn law_started_jobs_run(
    job_name: &str,
    now: &str,
    r: StartedStatus,
    restoring: &Restoring,
    backing_up: &BackingUp,
    restore: EventText,
    backup: EventText,
)
    requires
        call_ensures(started_status, (job_name, now), r),
        call_ensures(Restoring::started_event, (restoring, job_name), restore),
        call_ensures(BackingUp::started_event, (backing_up, job_name), backup),
    ensures
        r.phase == Phase::Running,
        r.job_name@ == job_name@,
        r.start_time@ == now@,
        !restore.warning && restore.reason@ == "RestoreStarted"@ && restore.note@
            == "Created restore job "@ + job_name@,
        !backup.warning && backup.reason@ == "BackupStarted"@ && backup.note@
            == "Created backup job "@ + job_name@,
{
}

} // verus!
