//! OdooInstance: one managed Odoo installation.

use vstd::prelude::*;

use crate::crd::meta::ObjectMeta;
use crate::crd::shared::{Condition, OdooInstanceRef, WebhookConfig};

verus! {

// ── Spec sub-types ───────────────────────────────────────────────────────────

/// How the instance is exposed to the outside.
#[derive(Clone, Debug)]
pub struct IngressSpec {
    pub hosts: Vec<String>,
    pub issuer: Option<String>,
    pub class: Option<String>,
}

/// Persistent storage of the filestore.
#[derive(Clone, Debug)]
pub struct FilestoreSpec {
    pub storage_size: Option<String>,
    pub storage_class: Option<String>,
}

/// Which PostgreSQL cluster holds the database.
#[derive(Clone, Debug)]
pub struct DatabaseSpec {
    pub cluster: Option<String>,
}

/// The update strategy of the Deployment.
#[derive(Clone, Copy, Debug, PartialEq, Eq, Structural)]
pub enum DeploymentStrategyType {
    Recreate,
    RollingUpdate,
}

impl Default for DeploymentStrategyType {
    fn default() -> (r: Self)
        ensures
            r == DeploymentStrategyType::Recreate,
    {
        DeploymentStrategyType::Recreate
    }
}

impl DeploymentStrategyType {
    /// The name of the strategy in manifests.
    pub open spec fn text(self) -> Seq<char> {
        match self {
            DeploymentStrategyType::Recreate => "Recreate"@,
            DeploymentStrategyType::RollingUpdate => "RollingUpdate"@,
        }
    }

    /// The name of the strategy.
    pub fn as_str(&self) -> (r: &'static str)
        ensures
            r@ == self.text(),
    {
        match self {
            DeploymentStrategyType::Recreate => "Recreate",
            DeploymentStrategyType::RollingUpdate => "RollingUpdate",
        }
    }
}

/// Parameters of a rolling update.
#[derive(Clone, Debug)]
pub struct RollingUpdateSpec {
    pub max_unavailable: String,
    pub max_surge: String,
}

/// The share of pods that a rolling update may replace at a time, where none
/// is written.
pub fn default_25_percent() -> (r: String)
    ensures
        r@ == "25%"@,
{
    "25%".to_owned()
}

/// The update strategy and its parameters.
#[derive(Clone, Debug)]
pub struct StrategySpec {
    pub strategy_type: DeploymentStrategyType,
    pub rolling_update: Option<RollingUpdateSpec>,
}

/// An optional callback that is notified when the phase changes.
#[derive(Clone, Debug)]
pub struct OdooWebhookConfig {
    pub url: String,
}

/// The paths of the HTTP health checks.
#[derive(Clone, Debug)]
pub struct ProbesSpec {
    pub startup_path: String,
    pub liveness_path: String,
    pub readiness_path: String,
}

/// The path of a health check where none is written.
pub fn default_health_path() -> (r: String)
    ensures
        r@ == "/web/health"@,
{
    "/web/health".to_owned()
}

/// The Deployment that runs the scheduled actions.
#[derive(Clone, Debug)]
pub struct CronSpec {
    pub replicas: i32,
    /// The resource requirements, as a JSON document.
    pub resources: Option<String>,
}

/// Whether and how the database is initialised without a job resource.
#[derive(Clone, Debug)]
pub struct InitSpec {
    pub enabled: bool,
    pub modules: Vec<String>,
    pub demo: bool,
    pub webhook: Option<WebhookConfig>,
}

/// What the instance is used for.
#[derive(Clone, Copy, Debug, PartialEq, Eq, Structural)]
pub enum Environment {
    Production,
    Staging,
}

// ── Spec ─────────────────────────────────────────────────────────────────────

/// The desired state of an instance.
#[derive(Clone, Debug)]
pub struct OdooInstanceSpec {
    pub image: Option<String>,
    pub image_pull_secret: Option<String>,
    pub admin_password: String,
    pub replicas: i32,
    pub ingress: IngressSpec,
    /// The resource requirements, as a JSON document.
    pub resources: Option<String>,
    pub filestore: Option<FilestoreSpec>,
    /// Additional entries of `odoo.conf`; of two entries with one key the later
    /// one counts.
    pub config_options: Option<Vec<(String, String)>>,
    pub database: Option<DatabaseSpec>,
    pub strategy: Option<StrategySpec>,
    pub webhook: Option<OdooWebhookConfig>,
    pub probes: Option<ProbesSpec>,
    /// The affinity, as a JSON document.
    pub affinity: Option<String>,
    /// The tolerations, each as a JSON document.
    pub tolerations: Vec<String>,
    pub cron: CronSpec,
    pub init: InitSpec,
    pub environment: Environment,
    pub production_instance_ref: Option<OdooInstanceRef>,
}

/// The number of replicas where none is written.
pub fn default_replicas() -> (r: i32)
    ensures
        r == 1,
{
    1
}

impl OdooInstanceSpec {
    /// A spec that holds what every instance needs and leaves the rest unset.
    pub fn minimal(admin_password: &str, replicas: i32, hosts: Vec<String>) -> (r: Self)
        ensures
            r.admin_password@ == admin_password@,
            r.replicas == replicas,
            r.ingress.hosts == hosts,
            r.ingress.issuer is None,
            r.ingress.class is None,
            r.image is None,
            r.image_pull_secret is None,
            r.resources is None,
            r.filestore is None,
            r.config_options is None,
            r.database is None,
            r.strategy is None,
            r.webhook is None,
            r.probes is None,
            r.affinity is None,
            r.tolerations@.len() == 0,
            r.cron.replicas == 1,
            r.cron.resources is None,
            !r.init.enabled,
            r.init.modules@.len() == 0,
            !r.init.demo,
            r.init.webhook is None,
            r.environment == Environment::Production,
            r.production_instance_ref is None,
    {
        OdooInstanceSpec {
            image: None,
            image_pull_secret: None,
            admin_password: admin_password.to_owned(),
            replicas,
            ingress: IngressSpec { hosts, issuer: None, class: None },
            resources: None,
            filestore: None,
            config_options: None,
            database: None,
            strategy: None,
            webhook: None,
            probes: None,
            affinity: None,
            tolerations: Vec::new(),
            cron: CronSpec { replicas: 1, resources: None },
            init: InitSpec { enabled: false, modules: Vec::new(), demo: false, webhook: None },
            environment: Environment::Production,
            production_instance_ref: None,
        }
    }

    /// The storage class that the spec asks for.
    pub open spec fn desired_storage_class(self) -> Option<Seq<char>> {
        match self.filestore {
            Some(f) => crate::crd::meta::opt_text(f.storage_class),
            None => None,
        }
    }

    /// The storage size that the spec asks for.
    pub open spec fn desired_storage_size(self) -> Option<Seq<char>> {
        match self.filestore {
            Some(f) => crate::crd::meta::opt_text(f.storage_size),
            None => None,
        }
    }

    /// The PostgreSQL cluster that the spec names, or nothing.
    pub open spec fn cluster_text(self) -> Seq<char> {
        match self.database {
            Some(d) => crate::crd::meta::text_or_empty(d.cluster),
            None => Seq::<char>::empty(),
        }
    }

    /// The storage class that the spec asks for.
    pub fn storage_class(&self) -> (r: Option<String>)
        ensures
            crate::crd::meta::opt_text(r) == self.desired_storage_class(),
    {
        match &self.filestore {
            Some(f) => crate::crd::meta::clone_opt(&f.storage_class),
            None => None,
        }
    }

    /// The storage size that the spec asks for.
    pub fn storage_size(&self) -> (r: Option<String>)
        ensures
            crate::crd::meta::opt_text(r) == self.desired_storage_size(),
    {
        match &self.filestore {
            Some(f) => crate::crd::meta::clone_opt(&f.storage_size),
            None => None,
        }
    }

    /// The PostgreSQL cluster that the spec names, or the empty string.
    pub fn cluster_or_empty(&self) -> (r: String)
        ensures
            r@ == self.cluster_text(),
    {
        match &self.database {
            Some(d) => crate::crd::meta::unwrap_or_empty(&d.cluster),
            None => String::new(),
        }
    }
}

// ── Status ───────────────────────────────────────────────────────────────────

/// The lifecycle state of an instance.
#[derive(Clone, Copy, Debug, PartialEq, Eq, Structural)]
pub enum OdooInstancePhase {
    Provisioning,
    Uninitialized,
    Initializing,
    InitFailed,
    Starting,
    Running,
    Degraded,
    Stopped,
    Upgrading,
    Restoring,
    BackingUp,
    MigratingFilestore,
    Error,
}

impl OdooInstancePhase {
    /// The name of the phase in manifests and messages.
    pub open spec fn text(self) -> Seq<char> {
        match self {
            OdooInstancePhase::Provisioning => "Provisioning"@,
            OdooInstancePhase::Uninitialized => "Uninitialized"@,
            OdooInstancePhase::Initializing => "Initializing"@,
            OdooInstancePhase::InitFailed => "InitFailed"@,
            OdooInstancePhase::Starting => "Starting"@,
            OdooInstancePhase::Running => "Running"@,
            OdooInstancePhase::Degraded => "Degraded"@,
            OdooInstancePhase::Stopped => "Stopped"@,
            OdooInstancePhase::Upgrading => "Upgrading"@,
            OdooInstancePhase::Restoring => "Restoring"@,
            OdooInstancePhase::BackingUp => "BackingUp"@,
            OdooInstancePhase::MigratingFilestore => "MigratingFilestore"@,
            OdooInstancePhase::Error => "Error"@,
        }
    }

    /// The name of the phase.
    pub fn as_str(&self) -> (r: &'static str)
        ensures
            r@ == self.text(),
    {
        match self {
            OdooInstancePhase::Provisioning => "Provisioning",
            OdooInstancePhase::Uninitialized => "Uninitialized",
            OdooInstancePhase::Initializing => "Initializing",
            OdooInstancePhase::InitFailed => "InitFailed",
            OdooInstancePhase::Starting => "Starting",
            OdooInstancePhase::Running => "Running",
            OdooInstancePhase::Degraded => "Degraded",
            OdooInstancePhase::Stopped => "Stopped",
            OdooInstancePhase::Upgrading => "Upgrading",
            OdooInstancePhase::Restoring => "Restoring",
            OdooInstancePhase::BackingUp => "BackingUp",
            OdooInstancePhase::MigratingFilestore => "MigratingFilestore",
            OdooInstancePhase::Error => "Error",
        }
    }
}

/// The length and the first character of the name of a phase.
spec fn name_mark(phase: OdooInstancePhase) -> (nat, char) {
    match phase {
        OdooInstancePhase::Provisioning => (12, 'P'),
        OdooInstancePhase::Uninitialized => (13, 'U'),
        OdooInstancePhase::Initializing => (12, 'I'),
        OdooInstancePhase::InitFailed => (10, 'I'),
        OdooInstancePhase::Starting => (8, 'S'),
        OdooInstancePhase::Running => (7, 'R'),
        OdooInstancePhase::Degraded => (8, 'D'),
        OdooInstancePhase::Stopped => (7, 'S'),
        OdooInstancePhase::Upgrading => (9, 'U'),
        OdooInstancePhase::Restoring => (9, 'R'),
        OdooInstancePhase::BackingUp => (9, 'B'),
        OdooInstancePhase::MigratingFilestore => (18, 'M'),
        OdooInstancePhase::Error => (5, 'E'),
    }
}

proof fn lemma_name_mark(phase: OdooInstancePhase)
    ensures
        (phase.text().len(), phase.text()[0]) == name_mark(phase),
{
    match phase {
        OdooInstancePhase::Provisioning => {
            reveal_strlit("Provisioning");
        },
        OdooInstancePhase::Uninitialized => {
            reveal_strlit("Uninitialized");
        },
        OdooInstancePhase::Initializing => {
            reveal_strlit("Initializing");
        },
        OdooInstancePhase::InitFailed => {
            reveal_strlit("InitFailed");
        },
        OdooInstancePhase::Starting => {
            reveal_strlit("Starting");
        },
        OdooInstancePhase::Running => {
            reveal_strlit("Running");
        },
        OdooInstancePhase::Degraded => {
            reveal_strlit("Degraded");
        },
        OdooInstancePhase::Stopped => {
            reveal_strlit("Stopped");
        },
        OdooInstancePhase::Upgrading => {
            reveal_strlit("Upgrading");
        },
        OdooInstancePhase::Restoring => {
            reveal_strlit("Restoring");
        },
        OdooInstancePhase::BackingUp => {
            reveal_strlit("BackingUp");
        },
        OdooInstancePhase::MigratingFilestore => {
            reveal_strlit("MigratingFilestore");
        },
        OdooInstancePhase::Error => {
            reveal_strlit("Error");
        },
    }
}

/// Distinct phases have distinct names.
pub proof fn law_phase_names_are_distinct(a: OdooInstancePhase, b: OdooInstancePhase)
    requires
        a.text() == b.text(),
    ensures
        a == b,
{
    lemma_name_mark(a);
    lemma_name_mark(b);
}

/// The observed state of an instance.
#[derive(Clone, Debug)]
pub struct OdooInstanceStatus {
    pub phase: Option<OdooInstancePhase>,
    pub message: Option<String>,
    pub ready: bool,
    pub ready_replicas: i32,
    pub db_initialized: bool,
    pub url: Option<String>,
    pub last_backup: Option<String>,
    pub target_replicas: Option<i32>,
    pub conditions: Vec<Condition>,
    pub migration_step: Option<String>,
    pub migration_job_name: Option<String>,
    pub migration_pv_name: Option<String>,
    pub migration_previous_storage_class: Option<String>,
    pub active_cluster: Option<String>,
    pub db_migration_job_name: Option<String>,
    pub migration_previous_cluster: Option<String>,
}

impl Default for OdooInstanceStatus {
    fn default() -> (r: Self)
        ensures
            r.phase is None,
            r.message is None,
            !r.ready,
            r.ready_replicas == 0,
            !r.db_initialized,
            r.url is None,
            r.last_backup is None,
            r.target_replicas is None,
            r.conditions@.len() == 0,
            r.migration_step is None,
            r.migration_job_name is None,
            r.migration_pv_name is None,
            r.migration_previous_storage_class is None,
            r.active_cluster is None,
            r.db_migration_job_name is None,
            r.migration_previous_cluster is None,
    {
        OdooInstanceStatus {
            phase: None,
            message: None,
            ready: false,
            ready_replicas: 0,
            db_initialized: false,
            url: None,
            last_backup: None,
            target_replicas: None,
            conditions: Vec::new(),
            migration_step: None,
            migration_job_name: None,
            migration_pv_name: None,
            migration_previous_storage_class: None,
            active_cluster: None,
            db_migration_job_name: None,
            migration_previous_cluster: None,
        }
    }
}

// ── Resource ─────────────────────────────────────────────────────────────────

/// One managed Odoo installation.
#[derive(Clone, Debug)]
pub struct OdooInstance {
    pub metadata: ObjectMeta,
    pub spec: OdooInstanceSpec,
    pub status: Option<OdooInstanceStatus>,
}

impl OdooInstance {
    /// A resource with a name, a spec and no status.
    pub fn new(name: &str, spec: OdooInstanceSpec) -> (r: Self)
        ensures
            crate::crd::meta::opt_text(r.metadata.name) == Some(name@),
            r.metadata.generate_name is None,
            r.metadata.namespace is None,
            r.metadata.uid is None,
            r.metadata.resource_version is None,
            r.metadata.generation is None,
            r.metadata.finalizers@.len() == 0,
            r.metadata.creation_timestamp is None,
            r.spec == spec,
            r.status is None,
    {
        OdooInstance { metadata: ObjectMeta::named(name), spec, status: None }
    }

    /// The phase that the status reports.
    pub open spec fn reported_phase(self) -> Option<OdooInstancePhase> {
        match self.status {
            Some(s) => s.phase,
            None => None,
        }
    }

    /// The phase that the instance is in: a new one is being provisioned.
    pub open spec fn phase(self) -> OdooInstancePhase {
        match self.reported_phase() {
            Some(p) => p,
            None => OdooInstancePhase::Provisioning,
        }
    }

    /// The phase that the status reports.
    pub fn status_phase(&self) -> (r: Option<OdooInstancePhase>)
        ensures
            r == self.reported_phase(),
    {
        match &self.status {
            Some(s) => s.phase,
            None => None,
        }
    }

    /// The phase that the instance is in.
    pub fn current_phase(&self) -> (r: OdooInstancePhase)
        ensures
            r == self.phase(),
    {
        match self.status_phase() {
            Some(p) => p,
            None => OdooInstancePhase::Provisioning,
        }
    }
}

/// An instance is in the phase that its status reports, and a new one is being
/// provisioned.
pub proof fn law_new_instances_are_provisioned(instance: &OdooInstance, r: OdooInstancePhase)
    requires
        call_ensures(OdooInstance::current_phase, (instance,), r),
    ensures
        instance.status matches Some(s) ==> s.phase matches Some(p) ==> r == p,
        !(instance.status matches Some(s) && s.phase is Some) ==> r
            == OdooInstancePhase::Provisioning,
{
}

/// What a spec asks for stands where it is written: the storage class and the size of the
/// filestore, and the cluster of the database.
pub proof fn law_specs_are_read_as_written(
    spec: &OdooInstanceSpec,
    class: Option<String>,
    size: Option<String>,
    cluster: String,
)
    requires
        call_ensures(OdooInstanceSpec::storage_class, (spec,), class),
        call_ensures(OdooInstanceSpec::storage_size, (spec,), size),
        call_ensures(OdooInstanceSpec::cluster_or_empty, (spec,), cluster),
    ensures
        spec.filestore is None ==> class is None && size is None,
        spec.filestore matches Some(f) ==> {
            &&& class is Some <==> f.storage_class is Some
            &&& f.storage_class matches Some(c) ==> class->0@ == c@
            &&& size is Some <==> f.storage_size is Some
            &&& f.storage_size matches Some(c) ==> size->0@ == c@
        },
        spec.database matches Some(d) ==> d.cluster matches Some(c) ==> cluster@ == c@,
        !(spec.database matches Some(d) && d.cluster is Some) ==> cluster@.len() == 0,
{
}

/// The names of the phases and of the strategies, as they stand in manifests.
pub proof fn law_names_stand_in_manifests(
    phase: &OdooInstancePhase,
    name: &'static str,
    strategy: &DeploymentStrategyType,
    strategy_name: &'static str,
)
    requires
        call_ensures(OdooInstancePhase::as_str, (phase,), name),
        call_ensures(DeploymentStrategyType::as_str, (strategy,), strategy_name),
    ensures
        name@ == match *phase {
            OdooInstancePhase::Provisioning => "Provisioning"@,
            OdooInstancePhase::Uninitialized => "Uninitialized"@,
            OdooInstancePhase::Initializing => "Initializing"@,
            OdooInstancePhase::InitFailed => "InitFailed"@,
            OdooInstancePhase::Starting => "Starting"@,
            OdooInstancePhase::Running => "Running"@,
            OdooInstancePhase::Degraded => "Degraded"@,
            OdooInstancePhase::Stopped => "Stopped"@,
            OdooInstancePhase::Upgrading => "Upgrading"@,
            OdooInstancePhase::Restoring => "Restoring"@,
            OdooInstancePhase::BackingUp => "BackingUp"@,
            OdooInstancePhase::MigratingFilestore => "MigratingFilestore"@,
            OdooInstancePhase::Error => "Error"@,
        },
        *strategy == DeploymentStrategyType::Recreate ==> strategy_name@ == "Recreate"@,
        *strategy == DeploymentStrategyType::RollingUpdate ==> strategy_name@
            == "RollingUpdate"@,
{
}

/// A new instance has the name and the spec that it is made with and no state; a minimal
/// spec leaves to the operator whatever the operator can fill in, and runs the scheduled
/// actions once.
pub proof fn law_new_instances_hold_what_they_are_made_with(
    name: &str,
    password: &str,
    replicas: i32,
    hosts: Vec<String>,
    spec: OdooInstanceSpec,
    r: OdooInstance,
    usual: i32,
)
    requires
        call_ensures(OdooInstanceSpec::minimal, (password, replicas, hosts), spec),
        call_ensures(OdooInstance::new, (name, spec), r),
        call_ensures(default_replicas, (), usual),
    ensures
        r.metadata.name matches Some(n) && n@ == name@,
        r.metadata.namespace is None,
        r.metadata.uid is None,
        r.status is None,
        r.phase() == OdooInstancePhase::Provisioning,
        r.spec.admin_password@ == password@,
        r.spec.replicas == replicas,
        r.spec.ingress.hosts@ == hosts@,
        r.spec.cron.replicas == usual,
        usual == 1,
        r.spec.image is None && r.spec.resources is None && r.spec.affinity is None,
        r.spec.filestore is None && r.spec.ingress.class is None && r.spec.ingress.issuer is None,
        r.spec.database is None && r.spec.webhook is None && r.spec.probes is None,
        r.spec.config_options is None && r.spec.strategy is None,
        r.spec.image_pull_secret is None,
        r.spec.tolerations@.len() == 0,
        !r.spec.init.enabled,
        r.spec.environment == Environment::Production,
{
}

/// A new instance was never in the cluster, and a new status says nothing.
pub proof fn law_new_resources_are_blank(
    name: &str,
    spec: OdooInstanceSpec,
    r: OdooInstance,
    s: OdooInstanceStatus,
)
    requires
        call_ensures(OdooInstance::new, (name, spec), r),
        call_ensures(<OdooInstanceStatus as Default>::default, (), s),
    ensures
        r.spec == spec,
        r.metadata.generate_name is None && r.metadata.resource_version is None,
        r.metadata.generation is None && r.metadata.creation_timestamp is None,
        r.metadata.finalizers@.len() == 0,
        s.phase is None && s.message is None && s.url is None && s.last_backup is None,
        !s.ready && s.ready_replicas == 0 && !s.db_initialized && s.target_replicas is None,
        s.conditions@.len() == 0,
        s.migration_step is None && s.migration_job_name is None && s.migration_pv_name is None,
        s.migration_previous_storage_class is None && s.migration_previous_cluster is None,
        s.active_cluster is None && s.db_migration_job_name is None,
{
}

/// Where nothing is written, pods are replaced a quarter at a time, at least one at once, and
/// health is checked at the page that Odoo has for it.
pub proof fn law_unwritten_values_are_the_usual_ones(
    share: String,
    path: String,
    strategy: DeploymentStrategyType,
)
    requires
        call_ensures(default_25_percent, (), share),
        call_ensures(default_health_path, (), path),
        call_ensures(<DeploymentStrategyType as Default>::default, (), strategy),
    ensures
        share@ == "25%"@,
        path@ == "/web/health"@,
        strategy == DeploymentStrategyType::Recreate,
{
}

} // verus!
