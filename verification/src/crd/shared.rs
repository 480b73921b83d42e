//! Types shared by the job resources.

use vstd::prelude::*;

use crate::helpers::Instant;

verus! {

/// The format of a backup artifact.
#[derive(Clone, Copy, Debug, PartialEq, Eq, Structural)]
pub enum BackupFormat {
    Zip,
    Sql,
    Dump,
}

impl Default for BackupFormat {
    fn default() -> (r: Self)
        ensures
            r == BackupFormat::Zip,
    {
        BackupFormat::Zip
    }
}

impl BackupFormat {
    /// The name of the format in manifests and job environments.
    pub open spec fn text(self) -> Seq<char> {
        match self {
            BackupFormat::Zip => "zip"@,
            BackupFormat::Sql => "sql"@,
            BackupFormat::Dump => "dump"@,
        }
    }

    /// The name of the format.
    pub fn as_str(&self) -> (r: &'static str)
        ensures
            r@ == self.text(),
    {
        match self {
            BackupFormat::Zip => "zip",
            BackupFormat::Sql => "sql",
            BackupFormat::Dump => "dump",
        }
    }
}

/// A reference to a Secret, possibly in another namespace.
#[derive(Clone, Debug)]
pub struct SecretReference {
    pub name: Option<String>,
    pub namespace: Option<String>,
}

/// Connection details of an S3-compatible object store.
#[derive(Clone, Debug)]
pub struct S3Config {
    pub bucket: String,
    pub object_key: String,
    pub endpoint: String,
    pub region: Option<String>,
    pub insecure: bool,
    pub s3_credentials_secret_ref: Option<SecretReference>,
}

/// A reference to an OdooInstance.
#[derive(Clone, Debug)]
pub struct OdooInstanceRef {
    pub name: String,
    pub namespace: Option<String>,
}

/// One key of a Secret.
#[derive(Clone, Debug)]
pub struct SecretKeySelector {
    pub name: String,
    pub key: String,
}

/// An optional callback that is notified when a job ends.
#[derive(Clone, Debug)]
pub struct WebhookConfig {
    pub url: String,
    pub token: Option<String>,
    pub secret_token_secret_ref: Option<SecretKeySelector>,
}

impl WebhookConfig {
    /// A copy of the configuration.
    pub fn copied(&self) -> (r: Self)
        ensures
            r == *self,
    {
        WebhookConfig {
            url: self.url.clone(),
            token: crate::crd::meta::clone_opt(&self.token),
            secret_token_secret_ref: match &self.secret_token_secret_ref {
                Some(k) => Some(SecretKeySelector { name: k.name.clone(), key: k.key.clone() }),
                None => None,
            },
        }
    }
}

/// The lifecycle state of a job resource.
#[derive(Clone, Copy, Debug, PartialEq, Eq, Structural)]
pub enum Phase {
    Pending,
    Running,
    Completed,
    Failed,
}

impl Default for Phase {
    fn default() -> (r: Self)
        ensures
            r == Phase::Pending,
    {
        Phase::Pending
    }
}

impl Phase {
    /// The name of the phase in manifests.
    pub open spec fn text(self) -> Seq<char> {
        match self {
            Phase::Pending => "Pending"@,
            Phase::Running => "Running"@,
            Phase::Completed => "Completed"@,
            Phase::Failed => "Failed"@,
        }
    }

    /// The name of the phase.
    pub fn as_str(&self) -> (r: &'static str)
        ensures
            r@ == self.text(),
    {
        match self {
            Phase::Pending => "Pending",
            Phase::Running => "Running",
            Phase::Completed => "Completed",
            Phase::Failed => "Failed",
        }
    }

    /// Whether a job in this phase has come to its end.
    pub open spec fn is_terminal(self) -> bool {
        self == Phase::Completed || self == Phase::Failed
    }
}

/// One observation about a resource, in the shape of a Kubernetes condition.
#[derive(Clone, Debug)]
pub struct Condition {
    pub type_: String,
    pub status: String,
    pub reason: String,
    pub message: String,
    pub observed_generation: Option<i64>,
    pub last_transition_time: Instant,
}

/// The observed state of a job resource.
#[derive(Clone, Debug)]
pub struct JobResourceStatus {
    pub phase: Option<Phase>,
    pub job_name: Option<String>,
    pub start_time: Option<String>,
    pub completion_time: Option<String>,
    pub message: Option<String>,
    pub conditions: Vec<Condition>,
}

impl Default for JobResourceStatus {
    fn default() -> (r: Self)
        ensures
            r.phase is None,
            r.job_name is None,
            r.start_time is None,
            r.completion_time is None,
            r.message is None,
            r.conditions@.len() == 0,
    {
        JobResourceStatus {
            phase: None,
            job_name: None,
            start_time: None,
            completion_time: None,
            message: None,
            conditions: Vec::new(),
        }
    }
}

/// The phase that an optional status reports.
pub open spec fn status_phase(status: Option<JobResourceStatus>) -> Option<Phase> {
    match status {
        Some(s) => s.phase,
        None => None,
    }
}

/// The name of the batch job that an optional status reports.
pub open spec fn status_job_name(status: Option<JobResourceStatus>) -> Option<String> {
    match status {
        Some(s) => s.job_name,
        None => None,
    }
}

/// The phase that an optional status reports.
pub fn phase_of(status: &Option<JobResourceStatus>) -> (r: Option<Phase>)
    ensures
        r == status_phase(*status),
{
    match status {
        Some(s) => s.phase,
        None => None,
    }
}

/// A copy of the batch job name that an optional status reports.
pub fn job_name_of(status: &Option<JobResourceStatus>) -> (r: Option<String>)
    ensures
        r == status_job_name(*status),
{
    match status {
        Some(s) => crate::crd::meta::clone_opt(&s.job_name),
        None => None,
    }
}

/// The truth value that job resources take where none is written.
pub fn default_true() -> (r: bool)
    ensures
        r,
{
    true
}

/// The names of the formats and of the phases of jobs, as they stand in manifests.
pub proof fn law_names_stand_in_manifests(
    format: &BackupFormat,
    format_name: &'static str,
    phase: &Phase,
    phase_name: &'static str,
)
    requires
        call_ensures(BackupFormat::as_str, (format,), format_name),
        call_ensures(Phase::as_str, (phase,), phase_name),
    ensures
        *format == BackupFormat::Zip ==> format_name@ == "zip"@,
        *format == BackupFormat::Sql ==> format_name@ == "sql"@,
        *format == BackupFormat::Dump ==> format_name@ == "dump"@,
        *phase == Phase::Pending ==> phase_name@ == "Pending"@,
        *phase == Phase::Running ==> phase_name@ == "Running"@,
        *phase == Phase::Completed ==> phase_name@ == "Completed"@,
        *phase == Phase::Failed ==> phase_name@ == "Failed"@,
{
}

/// A job reports what its status holds, and nothing without a status.
pub proof fn law_jobs_report_what_the_status_holds(
    status: &Option<JobResourceStatus>,
    phase: Option<Phase>,
    job_name: Option<String>,
)
    requires
        call_ensures(phase_of, (status,), phase),
        call_ensures(job_name_of, (status,), job_name),
    ensures
        *status matches Some(s) ==> phase == s.phase && job_name == s.job_name,
        *status is None ==> phase is None && job_name is None,
{
}

/// A new job is pending, backups are archives, options are on and a new status says nothing,
/// where nothing is written.
pub proof fn law_unwritten_values_are_the_usual_ones(
    phase: Phase,
    format: BackupFormat,
    on: bool,
    status: JobResourceStatus,
)
    requires
        call_ensures(<Phase as Default>::default, (), phase),
        call_ensures(<BackupFormat as Default>::default, (), format),
        call_ensures(default_true, (), on),
        call_ensures(<JobResourceStatus as Default>::default, (), status),
    ensures
        phase == Phase::Pending,
        !phase.is_terminal(),
        format == BackupFormat::Zip,
        on,
        status.phase is None && status.job_name is None && status.message is None,
        status.start_time is None && status.completion_time is None,
        status.conditions@.len() == 0,
{
}

/// A job has come to its end exactly when it has completed or failed.
pub proof fn law_jobs_end_completed_or_failed(phase: Phase)
    ensures
        phase.is_terminal() <==> !(phase == Phase::Pending || phase == Phase::Running),
{
}

} // verus!
