//! The reconciliation of an instance without scheduled actions of its own.

use vstd::prelude::*;

use crate::controller::child_resources::{
    build_deployment, build_web_container, defaultable, deployment, is_deployment_of,
    kept_replicas, missing, nothing_set, web_container, Defaultable, SpecPatch,
};
use crate::controller::helpers::{controller_owner_ref, owner_of};
use crate::controller::manifests::{DeploymentManifest, OwnerReference};
use crate::controller::odoo_instance::{
    instance_url, is_condition, make_condition, url_of,
};
use crate::crd::meta::opt_text;
use crate::crd::odoo_instance::{OdooInstance, OdooInstancePhase};
use crate::crd::shared::Condition;
use crate::helpers::{utc_now, Instant, OperatorDefaults};
use crate::preview::state_machine::ReconcileSnapshot;
use crate::text::texts;

verus! {

/// The reference by which an instance controls what belongs to it.
pub fn owner_ref(instance: &OdooInstance) -> (r: OwnerReference)
    ensures
        r@ == owner_of(*instance),
{
    controller_owner_ref(instance)
}

/// The fields that the operator sets: the scheduled actions have no resources of
/// their own.
pub open spec fn missing_here(d: Defaultable, defaults: OperatorDefaults) -> Defaultable {
    Defaultable { cron_resources: None, ..missing(d, defaults) }
}

/// The operator's defaults for the fields of a spec that are unset, and whether
/// there are any.
pub fn apply_defaults(instance: &OdooInstance, defaults: &OperatorDefaults) -> (r: (
    SpecPatch,
    bool,
))
    ensures
        r.0@ == missing_here(defaultable(instance.spec), *defaults),
        r.1 == (r.0@ != nothing_set()),
{
    let (all, _) = crate::controller::child_resources::apply_defaults(instance, defaults);
    let patch = SpecPatch {
        image: all.image,
        storage_class: all.storage_class,
        storage_size: all.storage_size,
        issuer: all.issuer,
        class: all.class,
        resources: all.resources,
        affinity: all.affinity,
        tolerations: all.tolerations,
        cron_resources: None,
    };
    let changed = patch.image.is_some() || patch.storage_class.is_some()
        || patch.storage_size.is_some() || patch.issuer.is_some() || patch.class.is_some()
        || patch.resources.is_some() || patch.affinity.is_some() || patch.tolerations.len() > 0;
    proof {
        assert(patch@.tolerations.len() == patch.tolerations@.len());
        if changed {
            if patch@ == nothing_set() {
                assert(patch@.tolerations.len() == 0);
                assert(patch@.image is None);
            }
        }
        if !changed {
            assert(patch@.tolerations =~= Seq::empty());
            assert(patch@ == nothing_set());
        }
    }
    (patch, changed)
}

/// The command of the container that serves the web and runs the scheduled
/// actions.
pub open spec fn web_command() -> Seq<Seq<char>> {
    seq!["/entrypoint.sh"@, "odoo"@]
}

/// Builds the Deployment of an instance, given the replica count that is there
/// and the configuration file that the ConfigMap holds.
pub fn ensure_deployment(
    ns: &str,
    name: &str,
    instance: &OdooInstance,
    defaults: &OperatorDefaults,
    oref: &OwnerReference,
    current: Option<i32>,
    conf: &Option<String>,
) -> (r: DeploymentManifest)
    ensures
        r@ == deployment(
            name@,
            ns@,
            name@,
            *instance,
            oref@,
            kept_replicas(current),
            *conf,
            web_container(name@, *instance, *defaults, web_command()),
        ),
{
    let command = vec!["/entrypoint.sh".to_owned(), "odoo".to_owned()];
    assert(texts(command@) =~= web_command());
    let container = build_web_container(name, instance, defaults, command);
    build_deployment(name, ns, name, instance, oref, current, conf, container)
}

/// Whether a condition is that of a phase.
pub open spec fn is_phase_condition(
    c: Condition,
    phase: OdooInstancePhase,
    generation: i64,
    now: Instant,
) -> bool {
    is_condition(
        c,
        "Ready"@,
        phase == OdooInstancePhase::Running,
        phase.text(),
        phase.text(),
        generation,
        now,
    )
}

/// The condition of a phase at a given time.
pub fn phase_to_condition_at(phase: &OdooInstancePhase, generation: i64, now: Instant) -> (r:
    Condition)
    ensures
        is_phase_condition(r, *phase, generation, now),
{
    let running = *phase == OdooInstancePhase::Running;
    make_condition("Ready", running, phase.as_str(), phase.as_str(), generation, now)
}

/// The condition of a phase.
pub fn phase_to_condition(phase: &OdooInstancePhase, generation: i64) -> (r: Condition)
    ensures
        exists|now: Instant| #[trigger] is_phase_condition(r, *phase, generation, now),
{
    let now = utc_now();
    phase_to_condition_at(phase, generation, now)
}

/// What is written to the status at every reconciliation, besides the phase.
#[derive(Clone, Debug)]
pub struct StatusUpdate {
    pub ready_replicas: i32,
    pub ready: bool,
    pub url: Option<String>,
    pub target_replicas: i32,
    pub db_initialized: bool,
    pub condition: Condition,
}

/// Whether an update says what was observed.
pub open spec fn is_update(
    u: StatusUpdate,
    instance: OdooInstance,
    s: ReconcileSnapshot,
    now: Instant,
) -> bool {
    &&& u.ready_replicas == s.ready_replicas
    &&& u.ready == (s.ready_replicas == instance.spec.replicas && instance.spec.replicas > 0)
    &&& opt_text(u.url) == instance_url(instance)
    &&& u.target_replicas == instance.spec.replicas
    &&& u.db_initialized == s.db_initialized
    &&& is_phase_condition(
        u.condition,
        instance.phase(),
        match instance.metadata.generation {
            Some(g) => g,
            None => 0,
        },
        now,
    )
}

/// What is written to the status at a given time.
pub fn status_update_at(instance: &OdooInstance, snapshot: &ReconcileSnapshot, now: Instant) -> (r:
    StatusUpdate)
    ensures
        is_update(r, *instance, *snapshot, now),
{
    let generation: i64 = match instance.metadata.generation {
        Some(g) => g,
        None => 0,
    };
    let phase = instance.current_phase();
    StatusUpdate {
        ready_replicas: snapshot.ready_replicas,
        ready: snapshot.ready_replicas == instance.spec.replicas && instance.spec.replicas > 0,
        url: url_of(instance),
        target_replicas: instance.spec.replicas,
        db_initialized: snapshot.db_initialized,
        condition: phase_to_condition_at(&phase, generation, now),
    }
}

/// What is written to the status.
pub fn status_update(instance: &OdooInstance, snapshot: &ReconcileSnapshot) -> (r: StatusUpdate)
    ensures
        exists|now: Instant| #[trigger] is_update(r, *instance, *snapshot, now),
{
    let now = utc_now();
    status_update_at(instance, snapshot, now)
}

/// Defaults fill what is unset and leave what is set alone.  An image, a storage class
/// and a storage size are always filled in, the others where the operator has them; the
/// scheduled actions get none of their own.
pub proof fn law_defaults_fill_what_is_unset(
    instance: &OdooInstance,
    defaults: &OperatorDefaults,
    r: (SpecPatch, bool),
)
    requires
        call_ensures(apply_defaults, (instance, defaults), r),
    ensures
        ({
            let spec = instance.spec;
            let patch = r.0;
            let class_set = spec.filestore matches Some(f) && f.storage_class is Some;
            let size_set = spec.filestore matches Some(f) && f.storage_size is Some;
            &&& patch.image is Some <==> spec.image is None
            &&& patch.image matches Some(i) ==> i@ == if defaults.odoo_image@.len() > 0 {
                defaults.odoo_image@
            } else {
                "odoo:18.0"@
            }
            &&& patch.storage_class is Some <==> !class_set
            &&& patch.storage_class matches Some(c) ==> c@ == if defaults.storage_class@.len() > 0 {
                defaults.storage_class@
            } else {
                "standard"@
            }
            &&& patch.storage_size is Some <==> !size_set
            &&& patch.storage_size matches Some(c) ==> c@ == if defaults.storage_size@.len() > 0 {
                defaults.storage_size@
            } else {
                "2Gi"@
            }
            &&& patch.issuer is Some <==> spec.ingress.issuer is None
                && defaults.ingress_issuer@.len() > 0
            &&& patch.issuer matches Some(c) ==> c@ == defaults.ingress_issuer@
            &&& patch.class is Some <==> spec.ingress.class is None
                && defaults.ingress_class@.len() > 0
            &&& patch.class matches Some(c) ==> c@ == defaults.ingress_class@
            &&& patch.resources is Some <==> spec.resources is None && defaults.resources is Some
            &&& patch.resources matches Some(c) ==> c@ == defaults.resources->0@
            &&& patch.affinity is Some <==> spec.affinity is None && defaults.affinity is Some
            &&& patch.affinity matches Some(c) ==> c@ == defaults.affinity->0@
            &&& patch.cron_resources is None
            &&& spec.tolerations@.len() > 0 ==> patch.tolerations@.len() == 0
            &&& spec.tolerations@.len() == 0 ==> texts(patch.tolerations@) == texts(
                defaults.tolerations@,
            )
            &&& r.1 <==> patch.image is Some || patch.storage_class is Some || patch.storage_size
                is Some || patch.issuer is Some || patch.class is Some || patch.resources is Some
                || patch.affinity is Some || patch.tolerations@.len() > 0
        }),
{
    let p = r.0@;
    assert(opt_text(r.0.image) == p.image);
    assert(opt_text(r.0.storage_class) == p.storage_class);
    assert(opt_text(r.0.storage_size) == p.storage_size);
    assert(opt_text(r.0.issuer) == p.issuer);
    assert(opt_text(r.0.class) == p.class);
    assert(opt_text(r.0.resources) == p.resources);
    assert(opt_text(r.0.affinity) == p.affinity);
    assert(opt_text(r.0.cron_resources) == p.cron_resources);
    assert(texts(r.0.tolerations@) == p.tolerations);
    assert(texts(r.0.tolerations@).len() == r.0.tolerations@.len());
    assert(texts(instance.spec.tolerations@).len() == instance.spec.tolerations@.len());
    if p.tolerations.len() == 0 {
        assert(p.tolerations =~= Seq::empty());
    }
}

/// The Deployment of an instance follows the spec, keeps the replicas that are there,
/// restarts its pods when the configuration changes, serves the web, runs the scheduled
/// actions too and is checked at the paths that the spec names.
pub proof fn law_deployments_follow_the_spec(
    ns: &str,
    name: &str,
    instance: &OdooInstance,
    defaults: &OperatorDefaults,
    oref: &OwnerReference,
    current: Option<i32>,
    conf: &Option<String>,
    r: DeploymentManifest,
)
    requires
        call_ensures(
            ensure_deployment,
            (ns, name, instance, defaults, oref, current, conf),
            r,
        ),
    ensures
        is_deployment_of(
            r@,
            name@,
            ns@,
            name@,
            *instance,
            *defaults,
            oref@,
            current,
            *conf,
        ),
        r@.container.command == seq!["/entrypoint.sh"@, "odoo"@],
        instance.spec.resources matches Some(k) ==> r@.container.resources == Some(k@),
        instance.spec.resources is None ==> r@.container.resources is None,
        r@.container.startup_probe matches Some(p) && p.port == 8069 && p.path
            == match instance.spec.probes {
            Some(k) => k.startup_path@,
            None => "/web/health"@,
        },
        r@.container.liveness_probe matches Some(p) && p.port == 8069 && p.path
            == match instance.spec.probes {
            Some(k) => k.liveness_path@,
            None => "/web/health"@,
        },
        r@.container.readiness_probe matches Some(p) && p.port == 8069 && p.path
            == match instance.spec.probes {
            Some(k) => k.readiness_path@,
            None => "/web/health"@,
        },
{
    if let Some(c) = *conf {
        assert(r@.pod_annotations[0].0 == "bemade.org/odoo-conf-hash"@);
    }
}

/// An instance is ready exactly while it runs; the condition names the phase, the
/// generation and the time.
pub proof fn law_the_condition_tells_the_phase(
    phase: &OdooInstancePhase,
    generation: i64,
    now: Instant,
    r: Condition,
)
    requires
        call_ensures(phase_to_condition_at, (phase, generation, now), r),
    ensures
        r.type_@ == "Ready"@,
        r.status@ == if *phase == OdooInstancePhase::Running {
            "True"@
        } else {
            "False"@
        },
        r.reason@ == phase.text(),
        r.message@ == r.reason@,
        r.observed_generation == Some(generation),
        r.last_transition_time == now,
{
}

/// The status says what was observed: the ready replicas, whether they are just those
/// that are desired, where the instance is reached, and whether it has a database.
pub proof fn law_the_status_says_what_is_observed(
    instance: &OdooInstance,
    snapshot: &ReconcileSnapshot,
    now: Instant,
    u: StatusUpdate,
)
    requires
        call_ensures(status_update_at, (instance, snapshot, now), u),
    ensures
        u.ready_replicas == snapshot.ready_replicas,
        u.target_replicas == instance.spec.replicas,
        u.ready <==> 0 < u.target_replicas == u.ready_replicas,
        u.db_initialized == snapshot.db_initialized,
        instance.spec.ingress.hosts@.len() > 0 ==> (u.url matches Some(x) && x@ == "https://"@
            + instance.spec.ingress.hosts@[0]@),
        instance.spec.ingress.hosts@.len() == 0 ==> u.url is None,
        u.condition.status@ == "True"@ <== (instance.status matches Some(s) && s.phase == Some(
            OdooInstancePhase::Running,
        )),
        u.condition.status@ == "False"@ <== !(instance.status matches Some(s) && s.phase == Some(
            OdooInstancePhase::Running,
        )),
        instance.metadata.generation matches Some(g) ==> u.condition.observed_generation == Some(
            g,
        ),
        u.condition.last_transition_time == now,
{
}

/// What belongs to an instance refers to it: by its kind, its name and its UID, as its
/// controller.
pub proof fn law_children_refer_to_the_instance(instance: &OdooInstance, r: OwnerReference)
    requires
        call_ensures(owner_ref, (instance,), r),
    ensures
        r@.api_version == "bemade.org/v1alpha1"@,
        r@.kind == "OdooInstance"@,
        r@.name == instance.metadata.name_text(),
        instance.metadata.uid matches Some(u) ==> r@.uid == u@,
        r@.controller == Some(true),
        r@.block_owner_deletion == Some(true),
{
}

/// What is written to the status is the same at every time, but for the time.
pub proof fn law_updates_only_write_the_time(
    instance: &OdooInstance,
    snapshot: &ReconcileSnapshot,
    now: Instant,
    a: StatusUpdate,
    b: StatusUpdate,
    phase: &OdooInstancePhase,
    generation: i64,
    c: Condition,
    d: Condition,
)
    requires
        call_ensures(status_update_at, (instance, snapshot, now), a),
        call_ensures(status_update, (instance, snapshot), b),
        call_ensures(phase_to_condition_at, (phase, generation, now), c),
        call_ensures(phase_to_condition, (phase, generation), d),
    ensures
        a.ready_replicas == b.ready_replicas,
        a.ready == b.ready,
        opt_text(a.url) == opt_text(b.url),
        a.target_replicas == b.target_replicas,
        a.db_initialized == b.db_initialized,
        a.condition.status@ == b.condition.status@,
        a.condition.reason@ == b.condition.reason@,
        c.type_@ == d.type_@ && c.status@ == d.status@ && c.reason@ == d.reason@ && c.message@
            == d.message@ && c.observed_generation == d.observed_generation,
{
}

} // verus!
