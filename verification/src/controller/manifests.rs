//! The Kubernetes objects that the operator writes, as far as it decides what
//! they hold.
//!
//! Each object has a view in which every string is its sequence of characters;
//! contracts speak of the views.

use vstd::prelude::*;

use crate::crd::meta::opt_text;
use crate::text::texts;

verus! {

// ── Ownership ────────────────────────────────────────────────────────────────

/// A reference from an object to the one that controls it.
#[derive(Clone, Debug)]
pub struct OwnerReference {
    pub api_version: String,
    pub kind: String,
    pub name: String,
    pub uid: String,
    pub controller: Option<bool>,
    pub block_owner_deletion: Option<bool>,
}

/// The view of an owner reference.
pub struct OwnerReferenceView {
    pub api_version: Seq<char>,
    pub kind: Seq<char>,
    pub name: Seq<char>,
    pub uid: Seq<char>,
    pub controller: Option<bool>,
    pub block_owner_deletion: Option<bool>,
}

impl View for OwnerReference {
    type V = OwnerReferenceView;

    open spec fn view(&self) -> OwnerReferenceView {
        OwnerReferenceView {
            api_version: self.api_version@,
            kind: self.kind@,
            name: self.name@,
            uid: self.uid@,
            controller: self.controller,
            block_owner_deletion: self.block_owner_deletion,
        }
    }
}

impl OwnerReference {
    /// A copy of the reference.
    pub fn copied(&self) -> (r: Self)
        ensures
            r == *self,
    {
        OwnerReference {
            api_version: self.api_version.clone(),
            kind: self.kind.clone(),
            name: self.name.clone(),
            uid: self.uid.clone(),
            controller: self.controller,
            block_owner_deletion: self.block_owner_deletion,
        }
    }
}

// ── Environment ──────────────────────────────────────────────────────────────

/// Where the value of an environment variable comes from.
#[derive(Clone, Debug)]
pub enum EnvSource {
    Value(String),
    ConfigMapKey { name: String, key: String },
    SecretKey { name: String, key: String },
}

/// The view of the source of an environment variable.
pub enum EnvSourceView {
    Value(Seq<char>),
    ConfigMapKey { name: Seq<char>, key: Seq<char> },
    SecretKey { name: Seq<char>, key: Seq<char> },
}

impl View for EnvSource {
    type V = EnvSourceView;

    open spec fn view(&self) -> EnvSourceView {
        match self {
            EnvSource::Value(v) => EnvSourceView::Value(v@),
            EnvSource::ConfigMapKey { name, key } => EnvSourceView::ConfigMapKey {
                name: name@,
                key: key@,
            },
            EnvSource::SecretKey { name, key } => EnvSourceView::SecretKey {
                name: name@,
                key: key@,
            },
        }
    }
}

/// An environment variable of a container.
#[derive(Clone, Debug)]
pub struct EnvVar {
    pub name: String,
    pub source: EnvSource,
}

/// The view of an environment variable.
pub struct EnvVarView {
    pub name: Seq<char>,
    pub source: EnvSourceView,
}

impl View for EnvVar {
    type V = EnvVarView;

    open spec fn view(&self) -> EnvVarView {
        EnvVarView { name: self.name@, source: self.source@ }
    }
}

/// The views of a list of environment variables.
pub open spec fn env_views(v: Seq<EnvVar>) -> Seq<EnvVarView> {
    v.map_values(|e: EnvVar| e@)
}

/// A variable with a literal value.
pub open spec fn env_of(name: Seq<char>, value: Seq<char>) -> EnvVarView {
    EnvVarView { name, source: EnvSourceView::Value(value) }
}

/// A variable that is read from a key of a ConfigMap.
pub open spec fn cm_env_of(name: Seq<char>, config_map: Seq<char>, key: Seq<char>) -> EnvVarView {
    EnvVarView { name, source: EnvSourceView::ConfigMapKey { name: config_map, key } }
}

/// A variable that is read from a key of a Secret.
pub open spec fn secret_env_of(name: Seq<char>, secret: Seq<char>, key: Seq<char>) -> EnvVarView {
    EnvVarView { name, source: EnvSourceView::SecretKey { name: secret, key } }
}

/// A variable with a literal value.
pub fn env(name: &str, value: &str) -> (r: EnvVar)
    ensures
        r@ == env_of(name@, value@),
{
    EnvVar { name: name.to_owned(), source: EnvSource::Value(value.to_owned()) }
}

/// A variable that is read from a key of a ConfigMap.
pub fn cm_env(name: &str, config_map: &str, key: &str) -> (r: EnvVar)
    ensures
        r@ == cm_env_of(name@, config_map@, key@),
{
    EnvVar {
        name: name.to_owned(),
        source: EnvSource::ConfigMapKey { name: config_map.to_owned(), key: key.to_owned() },
    }
}

/// A variable that is read from a key of a Secret.
pub fn secret_env(name: &str, secret: &str, key: &str) -> (r: EnvVar)
    ensures
        r@ == secret_env_of(name@, secret@, key@),
{
    EnvVar {
        name: name.to_owned(),
        source: EnvSource::SecretKey { name: secret.to_owned(), key: key.to_owned() },
    }
}

// ── Volumes ──────────────────────────────────────────────────────────────────

/// Where a volume is mounted in a container.
#[derive(Clone, Debug)]
pub struct VolumeMount {
    pub name: String,
    pub mount_path: String,
    pub read_only: bool,
}

/// The view of a volume mount.
pub struct VolumeMountView {
    pub name: Seq<char>,
    pub mount_path: Seq<char>,
    pub read_only: bool,
}

impl View for VolumeMount {
    type V = VolumeMountView;

    open spec fn view(&self) -> VolumeMountView {
        VolumeMountView {
            name: self.name@,
            mount_path: self.mount_path@,
            read_only: self.read_only,
        }
    }
}

/// The views of a list of volume mounts.
pub open spec fn mount_views(v: Seq<VolumeMount>) -> Seq<VolumeMountView> {
    v.map_values(|m: VolumeMount| m@)
}

/// What a volume consists of.
#[derive(Clone, Debug)]
pub enum VolumeSource {
    Claim { claim_name: String, read_only: bool },
    EmptyDir,
}

/// The view of what a volume consists of.
pub enum VolumeSourceView {
    Claim { claim_name: Seq<char>, read_only: bool },
    EmptyDir,
}

/// A volume of a pod.
#[derive(Clone, Debug)]
pub struct Volume {
    pub name: String,
    pub source: VolumeSource,
}

/// The view of a volume.
pub struct VolumeView {
    pub name: Seq<char>,
    pub source: VolumeSourceView,
}

impl View for Volume {
    type V = VolumeView;

    open spec fn view(&self) -> VolumeView {
        VolumeView {
            name: self.name@,
            source: match self.source {
                VolumeSource::Claim { claim_name, read_only } => VolumeSourceView::Claim {
                    claim_name: claim_name@,
                    read_only,
                },
                VolumeSource::EmptyDir => VolumeSourceView::EmptyDir,
            },
        }
    }
}

/// The views of a list of volumes.
pub open spec fn volume_views(v: Seq<Volume>) -> Seq<VolumeView> {
    v.map_values(|m: Volume| m@)
}

// ── Containers ───────────────────────────────────────────────────────────────

/// A named port of a container.
#[derive(Clone, Debug)]
pub struct ContainerPort {
    pub name: String,
    pub container_port: i32,
}

/// The view of a container port.
pub struct ContainerPortView {
    pub name: Seq<char>,
    pub container_port: i32,
}

impl View for ContainerPort {
    type V = ContainerPortView;

    open spec fn view(&self) -> ContainerPortView {
        ContainerPortView { name: self.name@, container_port: self.container_port }
    }
}

/// The views of a list of container ports.
pub open spec fn port_views(v: Seq<ContainerPort>) -> Seq<ContainerPortView> {
    v.map_values(|m: ContainerPort| m@)
}

/// An HTTP health check.
#[derive(Clone, Debug)]
pub struct HttpProbe {
    pub path: String,
    pub port: i32,
    pub initial_delay_seconds: Option<i32>,
    pub period_seconds: i32,
    pub timeout_seconds: i32,
    pub failure_threshold: i32,
}

/// The view of an HTTP health check.
pub struct HttpProbeView {
    pub path: Seq<char>,
    pub port: i32,
    pub initial_delay_seconds: Option<i32>,
    pub period_seconds: i32,
    pub timeout_seconds: i32,
    pub failure_threshold: i32,
}

impl View for HttpProbe {
    type V = HttpProbeView;

    open spec fn view(&self) -> HttpProbeView {
        HttpProbeView {
            path: self.path@,
            port: self.port,
            initial_delay_seconds: self.initial_delay_seconds,
            period_seconds: self.period_seconds,
            timeout_seconds: self.timeout_seconds,
            failure_threshold: self.failure_threshold,
        }
    }
}

/// The view of an optional health check.
pub open spec fn probe_view(p: Option<HttpProbe>) -> Option<HttpProbeView> {
    match p {
        Some(h) => Some(h@),
        None => None,
    }
}

/// A container of a pod.
#[derive(Clone, Debug)]
pub struct Container {
    pub name: String,
    pub image: String,
    pub image_pull_policy: Option<String>,
    pub command: Vec<String>,
    pub args: Vec<String>,
    pub env: Vec<EnvVar>,
    /// Whether the standard Odoo mounts come before `volume_mounts`.
    pub odoo_mounts: bool,
    pub volume_mounts: Vec<VolumeMount>,
    pub ports: Vec<ContainerPort>,
    /// The resource requirements, as a JSON document.
    pub resources: Option<String>,
    pub startup_probe: Option<HttpProbe>,
    pub liveness_probe: Option<HttpProbe>,
    pub readiness_probe: Option<HttpProbe>,
}

/// The view of a container.
pub struct ContainerView {
    pub name: Seq<char>,
    pub image: Seq<char>,
    pub image_pull_policy: Option<Seq<char>>,
    pub command: Seq<Seq<char>>,
    pub args: Seq<Seq<char>>,
    pub env: Seq<EnvVarView>,
    pub odoo_mounts: bool,
    pub volume_mounts: Seq<VolumeMountView>,
    pub ports: Seq<ContainerPortView>,
    pub resources: Option<Seq<char>>,
    pub startup_probe: Option<HttpProbeView>,
    pub liveness_probe: Option<HttpProbeView>,
    pub readiness_probe: Option<HttpProbeView>,
}

impl View for Container {
    type V = ContainerView;

    open spec fn view(&self) -> ContainerView {
        ContainerView {
            name: self.name@,
            image: self.image@,
            image_pull_policy: opt_text(self.image_pull_policy),
            command: texts(self.command@),
            args: texts(self.args@),
            env: env_views(self.env@),
            odoo_mounts: self.odoo_mounts,
            volume_mounts: mount_views(self.volume_mounts@),
            ports: port_views(self.ports@),
            resources: opt_text(self.resources),
            startup_probe: probe_view(self.startup_probe),
            liveness_probe: probe_view(self.liveness_probe),
            readiness_probe: probe_view(self.readiness_probe),
        }
    }
}

/// The views of a list of containers.
pub open spec fn container_views(v: Seq<Container>) -> Seq<ContainerView> {
    v.map_values(|c: Container| c@)
}

/// A container of a job: an image that runs a command.
pub open spec fn job_container(
    name: Seq<char>,
    image: Seq<char>,
    command: Seq<Seq<char>>,
    args: Seq<Seq<char>>,
    env: Seq<EnvVarView>,
    odoo_mounts: bool,
    volume_mounts: Seq<VolumeMountView>,
) -> ContainerView {
    ContainerView {
        name,
        image,
        image_pull_policy: None,
        command,
        args,
        env,
        odoo_mounts,
        volume_mounts,
        ports: Seq::empty(),
        resources: None,
        startup_probe: None,
        liveness_probe: None,
        readiness_probe: None,
    }
}

/// Makes a container of a job.
pub fn make_job_container(
    name: &str,
    image: &str,
    command: Vec<String>,
    args: Vec<String>,
    env: Vec<EnvVar>,
    odoo_mounts: bool,
    volume_mounts: Vec<VolumeMount>,
) -> (r: Container)
    ensures
        r@ == job_container(
            name@,
            image@,
            texts(command@),
            texts(args@),
            env_views(env@),
            odoo_mounts,
            mount_views(volume_mounts@),
        ),
{
    let r = Container {
        name: name.to_owned(),
        image: image.to_owned(),
        image_pull_policy: None,
        command,
        args,
        env,
        odoo_mounts,
        volume_mounts,
        ports: Vec::new(),
        resources: None,
        startup_probe: None,
        liveness_probe: None,
        readiness_probe: None,
    };
    assert(port_views(r.ports@) =~= Seq::empty());
    r
}

// ── Jobs ─────────────────────────────────────────────────────────────────────

/// A batch job.
#[derive(Clone, Debug)]
pub struct JobManifest {
    pub generate_name: String,
    pub namespace: String,
    /// The instance whose label the pods carry, if they carry one.
    pub app_label: Option<String>,
    pub backoff_limit: Option<i32>,
    pub active_deadline_seconds: Option<i64>,
    pub ttl_seconds_after_finished: Option<i32>,
    /// The restart policy of the pods, if the job names one itself.
    pub restart_policy: Option<String>,
    /// Whether the pods mount the standard Odoo volumes and the job belongs to
    /// the resource that asked for it.
    pub odoo_frame: bool,
    /// The Secret with which images are pulled, if the job names one itself.
    pub image_pull_secret: Option<String>,
    /// The instance whose pods have to run on the same node, if any.
    pub run_beside: Option<String>,
    pub volumes: Vec<Volume>,
    pub init_containers: Vec<Container>,
    pub containers: Vec<Container>,
}

/// The view of a batch job.
pub struct JobManifestView {
    pub generate_name: Seq<char>,
    pub namespace: Seq<char>,
    pub app_label: Option<Seq<char>>,
    pub backoff_limit: Option<i32>,
    pub active_deadline_seconds: Option<i64>,
    pub ttl_seconds_after_finished: Option<i32>,
    pub restart_policy: Option<Seq<char>>,
    pub odoo_frame: bool,
    pub image_pull_secret: Option<Seq<char>>,
    pub run_beside: Option<Seq<char>>,
    pub volumes: Seq<VolumeView>,
    pub init_containers: Seq<ContainerView>,
    pub containers: Seq<ContainerView>,
}

impl View for JobManifest {
    type V = JobManifestView;

    open spec fn view(&self) -> JobManifestView {
        JobManifestView {
            generate_name: self.generate_name@,
            namespace: self.namespace@,
            app_label: opt_text(self.app_label),
            backoff_limit: self.backoff_limit,
            active_deadline_seconds: self.active_deadline_seconds,
            ttl_seconds_after_finished: self.ttl_seconds_after_finished,
            restart_policy: opt_text(self.restart_policy),
            odoo_frame: self.odoo_frame,
            image_pull_secret: opt_text(self.image_pull_secret),
            run_beside: opt_text(self.run_beside),
            volumes: volume_views(self.volumes@),
            init_containers: container_views(self.init_containers@),
            containers: container_views(self.containers@),
        }
    }
}

// ── Volume claims ────────────────────────────────────────────────────────────

/// A claim on a persistent volume.
#[derive(Clone, Debug)]
pub struct PvcManifest {
    pub name: String,
    pub namespace: String,
    pub owner: Option<OwnerReference>,
    pub access_mode: String,
    pub storage_class: String,
    pub storage_size: String,
    /// The volume that the claim is bound to from the start, if any.
    pub volume_name: Option<String>,
}

/// The view of a volume claim.
pub struct PvcManifestView {
    pub name: Seq<char>,
    pub namespace: Seq<char>,
    pub owner: Option<OwnerReferenceView>,
    pub access_mode: Seq<char>,
    pub storage_class: Seq<char>,
    pub storage_size: Seq<char>,
    pub volume_name: Option<Seq<char>>,
}

impl View for PvcManifest {
    type V = PvcManifestView;

    open spec fn view(&self) -> PvcManifestView {
        PvcManifestView {
            name: self.name@,
            namespace: self.namespace@,
            owner: match self.owner {
                Some(o) => Some(o@),
                None => None,
            },
            access_mode: self.access_mode@,
            storage_class: self.storage_class@,
            storage_size: self.storage_size@,
            volume_name: opt_text(self.volume_name),
        }
    }
}

// ── Configuration ────────────────────────────────────────────────────────────

/// A Secret that is written once.
#[derive(Clone, Debug)]
pub struct SecretManifest {
    pub name: String,
    pub namespace: String,
    pub owner: OwnerReference,
    pub string_data: Vec<(String, String)>,
}

/// The view of a Secret.
pub struct SecretManifestView {
    pub name: Seq<char>,
    pub namespace: Seq<char>,
    pub owner: OwnerReferenceView,
    pub string_data: Seq<(Seq<char>, Seq<char>)>,
}

impl View for SecretManifest {
    type V = SecretManifestView;

    open spec fn view(&self) -> SecretManifestView {
        SecretManifestView {
            name: self.name@,
            namespace: self.namespace@,
            owner: self.owner@,
            string_data: crate::options::pair_texts(self.string_data@),
        }
    }
}

/// A ConfigMap.
#[derive(Clone, Debug)]
pub struct ConfigMapManifest {
    pub name: String,
    pub namespace: String,
    pub owner: OwnerReference,
    pub data: Vec<(String, String)>,
}

/// The view of a ConfigMap.
pub struct ConfigMapManifestView {
    pub name: Seq<char>,
    pub namespace: Seq<char>,
    pub owner: OwnerReferenceView,
    pub data: Seq<(Seq<char>, Seq<char>)>,
}

impl View for ConfigMapManifest {
    type V = ConfigMapManifestView;

    open spec fn view(&self) -> ConfigMapManifestView {
        ConfigMapManifestView {
            name: self.name@,
            namespace: self.namespace@,
            owner: self.owner@,
            data: crate::options::pair_texts(self.data@),
        }
    }
}

// ── Network ──────────────────────────────────────────────────────────────────

/// A port of a Service.
#[derive(Clone, Debug)]
pub struct ServicePort {
    pub name: String,
    pub port: i32,
    pub target_port: i32,
    pub protocol: String,
}

/// The view of a Service port.
pub struct ServicePortView {
    pub name: Seq<char>,
    pub port: i32,
    pub target_port: i32,
    pub protocol: Seq<char>,
}

impl View for ServicePort {
    type V = ServicePortView;

    open spec fn view(&self) -> ServicePortView {
        ServicePortView {
            name: self.name@,
            port: self.port,
            target_port: self.target_port,
            protocol: self.protocol@,
        }
    }
}

/// A Service.
#[derive(Clone, Debug)]
pub struct ServiceManifest {
    pub name: String,
    pub namespace: String,
    pub owner: OwnerReference,
    /// The value of the `app` label.
    pub label: String,
    /// The value of the `app` label of the selected pods.
    pub selector: String,
    pub type_: String,
    pub ports: Vec<ServicePort>,
}

/// The view of a Service.
pub struct ServiceManifestView {
    pub name: Seq<char>,
    pub namespace: Seq<char>,
    pub owner: OwnerReferenceView,
    pub label: Seq<char>,
    pub selector: Seq<char>,
    pub type_: Seq<char>,
    pub ports: Seq<ServicePortView>,
}

impl View for ServiceManifest {
    type V = ServiceManifestView;

    open spec fn view(&self) -> ServiceManifestView {
        ServiceManifestView {
            name: self.name@,
            namespace: self.namespace@,
            owner: self.owner@,
            label: self.label@,
            selector: self.selector@,
            type_: self.type_@,
            ports: self.ports@.map_values(|p: ServicePort| p@),
        }
    }
}

/// A path of an Ingress rule and the Service port behind it.
#[derive(Clone, Debug)]
pub struct IngressPath {
    pub path: String,
    pub path_type: String,
    pub service: String,
    pub port: i32,
}

/// The view of an Ingress path.
pub struct IngressPathView {
    pub path: Seq<char>,
    pub path_type: Seq<char>,
    pub service: Seq<char>,
    pub port: i32,
}

impl View for IngressPath {
    type V = IngressPathView;

    open spec fn view(&self) -> IngressPathView {
        IngressPathView {
            path: self.path@,
            path_type: self.path_type@,
            service: self.service@,
            port: self.port,
        }
    }
}

/// The paths under one host.
#[derive(Clone, Debug)]
pub struct IngressRule {
    pub host: String,
    pub paths: Vec<IngressPath>,
}

/// The view of an Ingress rule.
pub struct IngressRuleView {
    pub host: Seq<char>,
    pub paths: Seq<IngressPathView>,
}

impl View for IngressRule {
    type V = IngressRuleView;

    open spec fn view(&self) -> IngressRuleView {
        IngressRuleView {
            host: self.host@,
            paths: self.paths@.map_values(|p: IngressPath| p@),
        }
    }
}

/// The views of a list of Ingress rules.
pub open spec fn rule_views(v: Seq<IngressRule>) -> Seq<IngressRuleView> {
    v.map_values(|r: IngressRule| r@)
}

/// An Ingress.
#[derive(Clone, Debug)]
pub struct IngressManifest {
    pub name: String,
    pub namespace: String,
    pub owner: OwnerReference,
    pub annotations: Vec<(String, String)>,
    pub class: Option<String>,
    pub rules: Vec<IngressRule>,
    pub tls_hosts: Vec<String>,
    pub tls_secret: String,
}

/// The view of an Ingress.
pub struct IngressManifestView {
    pub name: Seq<char>,
    pub namespace: Seq<char>,
    pub owner: OwnerReferenceView,
    pub annotations: Seq<(Seq<char>, Seq<char>)>,
    pub class: Option<Seq<char>>,
    pub rules: Seq<IngressRuleView>,
    pub tls_hosts: Seq<Seq<char>>,
    pub tls_secret: Seq<char>,
}

impl View for IngressManifest {
    type V = IngressManifestView;

    open spec fn view(&self) -> IngressManifestView {
        IngressManifestView {
            name: self.name@,
            namespace: self.namespace@,
            owner: self.owner@,
            annotations: crate::options::pair_texts(self.annotations@),
            class: opt_text(self.class),
            rules: rule_views(self.rules@),
            tls_hosts: texts(self.tls_hosts@),
            tls_secret: self.tls_secret@,
        }
    }
}

// ── Deployments ──────────────────────────────────────────────────────────────

/// A Deployment of an instance.
#[derive(Clone, Debug)]
pub struct DeploymentManifest {
    pub name: String,
    pub namespace: String,
    pub owner: OwnerReference,
    /// The value of the `app` label of the Deployment itself.
    pub label: String,
    /// The value of the `app` label of its pods.
    pub pod_label: String,
    pub replicas: i32,
    pub strategy: String,
    /// The annotations of its pods.
    pub pod_annotations: Vec<(String, String)>,
    /// The Secret with which images are pulled, if any.
    pub image_pull_secret: Option<String>,
    /// The affinity, as a JSON document.
    pub affinity: Option<String>,
    /// The tolerations, each as a JSON document.
    pub tolerations: Vec<String>,
    /// The instance whose standard Odoo volumes the pods mount.
    pub volumes_of: String,
    pub container: Container,
}

/// The view of a Deployment.
pub struct DeploymentManifestView {
    pub name: Seq<char>,
    pub namespace: Seq<char>,
    pub owner: OwnerReferenceView,
    pub label: Seq<char>,
    pub pod_label: Seq<char>,
    pub replicas: i32,
    pub strategy: Seq<char>,
    pub pod_annotations: Seq<(Seq<char>, Seq<char>)>,
    pub image_pull_secret: Option<Seq<char>>,
    pub affinity: Option<Seq<char>>,
    pub tolerations: Seq<Seq<char>>,
    pub volumes_of: Seq<char>,
    pub container: ContainerView,
}

impl View for DeploymentManifest {
    type V = DeploymentManifestView;

    open spec fn view(&self) -> DeploymentManifestView {
        DeploymentManifestView {
            name: self.name@,
            namespace: self.namespace@,
            owner: self.owner@,
            label: self.label@,
            pod_label: self.pod_label@,
            replicas: self.replicas,
            strategy: self.strategy@,
            pod_annotations: crate::options::pair_texts(self.pod_annotations@),
            image_pull_secret: opt_text(self.image_pull_secret),
            affinity: opt_text(self.affinity),
            tolerations: texts(self.tolerations@),
            volumes_of: self.volumes_of@,
            container: self.container@,
        }
    }
}

// ── What a pod finds ─────────────────────────────────────────────────────────

/// Whether a container sees a variable that comes from a source: some entry has the
/// name, and every entry with the name comes from that source.
pub open spec fn sees(env: Seq<EnvVarView>, name: Seq<char>, source: EnvSourceView) -> bool {
    &&& exists|i: int| 0 <= i < env.len() && (#[trigger] env[i]).name == name
    &&& forall|i: int|
        0 <= i < env.len() && (#[trigger] env[i]).name == name ==> env[i].source == source
}

/// Whether a container sees a variable with a literal value.
pub open spec fn sees_value(env: Seq<EnvVarView>, name: Seq<char>, value: Seq<char>) -> bool {
    sees(env, name, EnvSourceView::Value(value))
}

/// Whether a container sees no variable of a name.
pub open spec fn sees_no(env: Seq<EnvVarView>, name: Seq<char>) -> bool {
    forall|i: int| 0 <= i < env.len() ==> (#[trigger] env[i]).name != name
}

/// Whether a list of entries has a value under a key, and no other one.
pub open spec fn holds_entry(
    data: Seq<(Seq<char>, Seq<char>)>,
    key: Seq<char>,
    value: Seq<char>,
) -> bool {
    &&& exists|i: int| 0 <= i < data.len() && (#[trigger] data[i]).0 == key
    &&& forall|i: int| 0 <= i < data.len() && (#[trigger] data[i]).0 == key ==> data[i].1 == value
}

/// Whether a list of volumes has one of a name, made of the given source.
pub open spec fn volume_is(
    volumes: Seq<VolumeView>,
    name: Seq<char>,
    source: VolumeSourceView,
) -> bool {
    &&& exists|i: int| 0 <= i < volumes.len() && (#[trigger] volumes[i]).name == name
    &&& forall|i: int|
        0 <= i < volumes.len() && (#[trigger] volumes[i]).name == name ==> volumes[i].source
            == source
}

/// Whether a container finds a volume of the pod at a path, and may write to it or
/// not.
pub open spec fn finds_at(
    volumes: Seq<VolumeView>,
    container: ContainerView,
    path: Seq<char>,
    source: VolumeSourceView,
    writable: bool,
) -> bool {
    let mounts = container.volume_mounts;
    &&& exists|i: int| 0 <= i < mounts.len() && (#[trigger] mounts[i]).mount_path == path
    &&& forall|i: int|
        0 <= i < mounts.len() && (#[trigger] mounts[i]).mount_path == path ==> mounts[i].read_only
            == !writable && volume_is(volumes, mounts[i].name, source)
}

/// What is said of an owner reference is said of its fields.
pub proof fn law_owner_reference_is_seen_as_written(m: OwnerReference)
    ensures
        m@.api_version == m.api_version@,
        m@.kind == m.kind@,
        m@.name == m.name@,
        m@.uid == m.uid@,
        m@.controller == m.controller,
        m@.block_owner_deletion == m.block_owner_deletion,
{
}

/// What is said of an env var is said of its fields.
pub proof fn law_env_var_is_seen_as_written(m: EnvVar)
    ensures
        m@.name == m.name@,
        m@.source == m.source@,
{
}

/// What is said of a container port is said of its fields.
pub proof fn law_container_port_is_seen_as_written(m: ContainerPort)
    ensures
        m@.name == m.name@,
        m@.container_port == m.container_port,
{
}

/// What is said of a container is said of its fields.
pub proof fn law_container_is_seen_as_written(m: Container)
    ensures
        m@.name == m.name@,
        m@.image == m.image@,
        m@.image_pull_policy == opt_text(m.image_pull_policy),
        m@.command == texts(m.command@),
        m@.args == texts(m.args@),
        m@.env == env_views(m.env@),
        m@.odoo_mounts == m.odoo_mounts,
        m@.volume_mounts == mount_views(m.volume_mounts@),
        m@.ports == port_views(m.ports@),
        m@.resources == opt_text(m.resources),
        m@.startup_probe == probe_view(m.startup_probe),
        m@.liveness_probe == probe_view(m.liveness_probe),
        m@.readiness_probe == probe_view(m.readiness_probe),
{
}

/// What is said of a job manifest is said of its fields.
pub proof fn law_job_manifest_is_seen_as_written(m: JobManifest)
    ensures
        m@.generate_name == m.generate_name@,
        m@.namespace == m.namespace@,
        m@.app_label == opt_text(m.app_label),
        m@.backoff_limit == m.backoff_limit,
        m@.active_deadline_seconds == m.active_deadline_seconds,
        m@.ttl_seconds_after_finished == m.ttl_seconds_after_finished,
        m@.restart_policy == opt_text(m.restart_policy),
        m@.odoo_frame == m.odoo_frame,
        m@.image_pull_secret == opt_text(m.image_pull_secret),
        m@.run_beside == opt_text(m.run_beside),
        m@.volumes == volume_views(m.volumes@),
        m@.init_containers == container_views(m.init_containers@),
        m@.containers == container_views(m.containers@),
{
}

/// What is said of a claim manifest is said of its fields.
pub proof fn law_pvc_manifest_is_seen_as_written(m: PvcManifest)
    ensures
        m@.name == m.name@,
        m@.namespace == m.namespace@,
        m@.access_mode == m.access_mode@,
        m@.storage_class == m.storage_class@,
        m@.storage_size == m.storage_size@,
        m@.volume_name == opt_text(m.volume_name),
{
}

/// What is said of a secret manifest is said of its fields.
pub proof fn law_secret_manifest_is_seen_as_written(m: SecretManifest)
    ensures
        m@.name == m.name@,
        m@.namespace == m.namespace@,
        m@.owner == m.owner@,
{
}

/// What is said of a config map manifest is said of its fields.
pub proof fn law_config_map_manifest_is_seen_as_written(m: ConfigMapManifest)
    ensures
        m@.name == m.name@,
        m@.namespace == m.namespace@,
        m@.owner == m.owner@,
{
}

/// What is said of a service port is said of its fields.
pub proof fn law_service_port_is_seen_as_written(m: ServicePort)
    ensures
        m@.name == m.name@,
        m@.port == m.port,
        m@.target_port == m.target_port,
        m@.protocol == m.protocol@,
{
}

/// What is said of a service manifest is said of its fields.
pub proof fn law_service_manifest_is_seen_as_written(m: ServiceManifest)
    ensures
        m@.name == m.name@,
        m@.namespace == m.namespace@,
        m@.owner == m.owner@,
        m@.label == m.label@,
        m@.selector == m.selector@,
        m@.type_ == m.type_@,
        m@.ports == m.ports@.map_values(|p: ServicePort| p@),
{
}

/// What is said of an ingress path is said of its fields.
pub proof fn law_ingress_path_is_seen_as_written(m: IngressPath)
    ensures
        m@.path == m.path@,
        m@.path_type == m.path_type@,
        m@.service == m.service@,
        m@.port == m.port,
{
}

/// What is said of an ingress rule is said of its fields.
pub proof fn law_ingress_rule_is_seen_as_written(m: IngressRule)
    ensures
        m@.host == m.host@,
        m@.paths == m.paths@.map_values(|p: IngressPath| p@),
{
}

/// What is said of an ingress manifest is said of its fields.
pub proof fn law_ingress_manifest_is_seen_as_written(m: IngressManifest)
    ensures
        m@.name == m.name@,
        m@.namespace == m.namespace@,
        m@.owner == m.owner@,
        m@.class == opt_text(m.class),
        m@.rules == rule_views(m.rules@),
        m@.tls_hosts == texts(m.tls_hosts@),
        m@.tls_secret == m.tls_secret@,
{
}

/// What is said of a deployment manifest is said of its fields.
pub proof fn law_deployment_manifest_is_seen_as_written(m: DeploymentManifest)
    ensures
        m@.name == m.name@,
        m@.namespace == m.namespace@,
        m@.owner == m.owner@,
        m@.label == m.label@,
        m@.pod_label == m.pod_label@,
        m@.replicas == m.replicas,
        m@.strategy == m.strategy@,
        m@.image_pull_secret == opt_text(m.image_pull_secret),
        m@.affinity == opt_text(m.affinity),
        m@.tolerations == texts(m.tolerations@),
        m@.volumes_of == m.volumes_of@,
        m@.container == m.container@,
{
}

/// What is said of a volume mount is said of its fields.
pub proof fn law_volume_mount_is_seen_as_written(m: VolumeMount)
    ensures
        m@.name == m.name@,
        m@.mount_path == m.mount_path@,
        m@.read_only == m.read_only,
{
}

/// What is said of an HTTP probe is said of its fields.
pub proof fn law_http_probe_is_seen_as_written(m: HttpProbe)
    ensures
        m@.path == m.path@,
        m@.port == m.port,
        m@.initial_delay_seconds == m.initial_delay_seconds,
        m@.period_seconds == m.period_seconds,
        m@.timeout_seconds == m.timeout_seconds,
        m@.failure_threshold == m.failure_threshold,
{
}

/// What is said of a volume is said of its fields.
pub proof fn law_volume_is_seen_as_written(m: Volume)
    ensures
        m@.name == m.name@,
        m.source is EmptyDir <==> m@.source is EmptyDir,
        m.source matches VolumeSource::Claim { claim_name, read_only } ==> m@.source
            == (VolumeSourceView::Claim { claim_name: claim_name@, read_only }),
{
}

/// A variable holds the value that it is given, or reads the key of the ConfigMap or of the
/// Secret that it is given.
pub proof fn law_variables_hold_what_they_are_given(
    name: &str,
    other: &str,
    key: &str,
    plain: EnvVar,
    from_map: EnvVar,
    from_secret: EnvVar,
)
    requires
        call_ensures(env, (name, other), plain),
        call_ensures(cm_env, (name, other, key), from_map),
        call_ensures(secret_env, (name, other, key), from_secret),
    ensures
        plain.name@ == name@,
        plain.source matches EnvSource::Value(v) && v@ == other@,
        from_map.name@ == name@,
        from_map.source matches EnvSource::ConfigMapKey { name: n, key: k } && n@ == other@ && k@
            == key@,
        from_secret.name@ == name@,
        from_secret.source matches EnvSource::SecretKey { name: n, key: k } && n@ == other@ && k@
            == key@,
{
    assert(plain@.source == plain.source@);
    assert(from_map@.source == from_map.source@);
    assert(from_secret@.source == from_secret.source@);
}

/// A container of a job is what it is made of and nothing else: it serves nobody and is not
/// checked.
pub proof fn law_job_containers_are_what_they_are_made_of(
    name: &str,
    image: &str,
    command: Vec<String>,
    args: Vec<String>,
    vars: Vec<EnvVar>,
    odoo_mounts: bool,
    mounts: Vec<VolumeMount>,
    r: Container,
)
    requires
        call_ensures(
            make_job_container,
            (name, image, command, args, vars, odoo_mounts, mounts),
            r,
        ),
    ensures
        r.name@ == name@,
        r.image@ == image@,
        texts(r.command@) == texts(command@),
        texts(r.args@) == texts(args@),
        env_views(r.env@) == env_views(vars@),
        r.odoo_mounts == odoo_mounts,
        mount_views(r.volume_mounts@) == mount_views(mounts@),
        r.image_pull_policy is None,
        r.resources is None,
        r.ports@.len() == 0,
        r.startup_probe is None && r.liveness_probe is None && r.readiness_probe is None,
{
    assert(opt_text(r.image_pull_policy) == r@.image_pull_policy);
    assert(opt_text(r.resources) == r@.resources);
    assert(port_views(r.ports@) == r@.ports);
    assert(port_views(r.ports@).len() == r.ports@.len());
    assert(probe_view(r.startup_probe) == r@.startup_probe);
    assert(probe_view(r.liveness_probe) == r@.liveness_probe);
    assert(probe_view(r.readiness_probe) == r@.readiness_probe);
}

} // verus!
