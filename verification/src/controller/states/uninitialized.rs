//! Waiting for the database to be initialised.

use vstd::prelude::*;

use crate::controller::helpers::{controller_owner_ref, owner_of};
use crate::controller::manifests::OwnerReference;
use crate::controller::states::steady::{all_down, Scaling};
use crate::controller::state_machine::{JobStatus, ReconcileSnapshot};
use crate::crd::meta::{clone_list, clone_opt, opt_text};
use crate::crd::odoo_instance::{Environment, OdooInstance};
use crate::crd::shared::WebhookConfig;
use crate::error::Error;
use crate::options::pair_texts;
use crate::text::concat2;

verus! {

/// A job resource that clones a production instance, created for a new staging
/// instance.
#[derive(Clone, Debug)]
pub struct AutoRefreshJob {
    pub name: String,
    pub namespace: String,
    pub owner: OwnerReference,
    pub labels: Vec<(String, String)>,
    pub instance_name: String,
    pub source_name: String,
    pub source_namespace: Option<String>,
}

/// A job resource that initialises the database, created for a new instance.
#[derive(Clone, Debug)]
pub struct AutoInitJob {
    pub name: String,
    pub namespace: String,
    pub owner: OwnerReference,
    pub instance_name: String,
    pub modules: Vec<String>,
    pub demo: bool,
    pub webhook: Option<WebhookConfig>,
}

/// The job resource that is created without being asked for, if any.
#[derive(Clone, Debug)]
pub enum AutoJob {
    Nothing,
    Refresh(AutoRefreshJob),
    Init(AutoInitJob),
}

/// Waiting for an init, a restore or a refresh job: the instance is down.
pub struct Uninitialized;

/// Whether the instance is still without a database and no job that would bring
/// one is present.
pub open spec fn needs_database(s: ReconcileSnapshot, refresh_job: JobStatus) -> bool {
    &&& !s.db_initialized
    &&& s.init_job == JobStatus::Absent
    &&& refresh_job == JobStatus::Absent
    &&& s.restore_job == JobStatus::Absent
}

/// Whether a refresh job is the right one for an instance.
pub open spec fn is_refresh_for(j: AutoRefreshJob, instance: OdooInstance) -> bool {
    let source = instance.spec.production_instance_ref->0;
    &&& j.name@ == instance.metadata.name_text() + "-auto-refresh"@
    &&& j.namespace@ == instance.metadata.namespace_text()
    &&& j.owner@ == owner_of(instance)
    &&& pair_texts(j.labels@) == seq![("bemade.org/auto-refresh"@, "true"@)]
    &&& j.instance_name@ == instance.metadata.name_text()
    &&& j.source_name@ == source.name@
    &&& opt_text(j.source_namespace) == opt_text(source.namespace)
}

/// Whether an init job is the right one for an instance.
pub open spec fn is_init_for(j: AutoInitJob, instance: OdooInstance) -> bool {
    &&& j.name@ == instance.metadata.name_text() + "-auto-init"@
    &&& j.namespace@ == instance.metadata.namespace_text()
    &&& j.owner@ == owner_of(instance)
    &&& j.instance_name@ == instance.metadata.name_text()
    &&& j.modules@ == instance.spec.init.modules@
    &&& j.demo == instance.spec.init.demo
    &&& j.webhook == instance.spec.init.webhook
}

/// What a production instance that asks to be cloned is refused with.
pub open spec fn production_refusal() -> Seq<char> {
    "spec.productionInstanceRef is forbidden on production instances"@
}

impl Uninitialized {
    /// The replica counts of the phase.
    pub fn scaling(&self) -> (r: Scaling)
        ensures
            r == all_down(),
    {
        Scaling { web: Some(0), cron: Some(0) }
    }

    /// The job resource to create: a clone of the production instance that the
    /// spec names, else an initialisation where the spec enables it.
    pub fn ensure(
        &self,
        instance: &OdooInstance,
        snapshot: &ReconcileSnapshot,
        refresh_job: JobStatus,
    ) -> (r: Result<AutoJob, Error>)
        ensures
            if !needs_database(*snapshot, refresh_job) {
                r matches Ok(AutoJob::Nothing)
            } else if instance.spec.production_instance_ref is Some {
                if instance.spec.environment == Environment::Production {
                    r matches Err(e) && e is Config && e.detail() == production_refusal()
                } else {
                    r matches Ok(AutoJob::Refresh(j)) && is_refresh_for(j, *instance)
                }
            } else if instance.spec.init.enabled {
                r matches Ok(AutoJob::Init(j)) && is_init_for(j, *instance)
            } else {
                r matches Ok(AutoJob::Nothing)
            },
    {
        if snapshot.db_initialized || snapshot.init_job != JobStatus::Absent || refresh_job
            != JobStatus::Absent || snapshot.restore_job != JobStatus::Absent {
            return Ok(AutoJob::Nothing);
        }
        let name = instance.metadata.name_any();
        let namespace = instance.metadata.namespace_or_default();
        if let Some(source) = &instance.spec.production_instance_ref {
            if instance.spec.environment == Environment::Production {
                return Err(
                    Error::config("spec.productionInstanceRef is forbidden on production instances"),
                );
            }
            let labels = vec![("bemade.org/auto-refresh".to_owned(), "true".to_owned())];
            assert(pair_texts(labels@) =~= seq![("bemade.org/auto-refresh"@, "true"@)]);
            return Ok(
                AutoJob::Refresh(
                    AutoRefreshJob {
                        name: concat2(name.as_str(), "-auto-refresh"),
                        namespace,
                        owner: controller_owner_ref(instance),
                        labels,
                        instance_name: name,
                        source_name: source.name.clone(),
                        source_namespace: clone_opt(&source.namespace),
                    },
                ),
            );
        }
        if instance.spec.init.enabled {
            let webhook = match &instance.spec.init.webhook {
                Some(w) => Some(w.copied()),
                None => None,
            };
            return Ok(
                AutoJob::Init(
                    AutoInitJob {
                        name: concat2(name.as_str(), "-auto-init"),
                        namespace,
                        owner: controller_owner_ref(instance),
                        instance_name: name,
                        modules: clone_list(&instance.spec.init.modules),
                        demo: instance.spec.init.demo,
                        webhook,
                    },
                ),
            );
        }
        Ok(AutoJob::Nothing)
    }
}

/// A new instance gets one job at most, and only while it has no database and no job
/// that brings one: a clone of the instance that it names, or an initialisation where
/// it asks for one.
pub proof fn law_new_instances_get_one_job(
    phase: &Uninitialized,
    instance: &OdooInstance,
    snapshot: &ReconcileSnapshot,
    refresh_job: JobStatus,
    r: Result<AutoJob, Error>,
)
    requires
        call_ensures(Uninitialized::ensure, (phase, instance, snapshot, refresh_job), r),
    ensures
        ({
            let bare = !snapshot.db_initialized && snapshot.init_job == JobStatus::Absent
                && snapshot.restore_job == JobStatus::Absent && refresh_job == JobStatus::Absent;
            let clone = instance.spec.production_instance_ref is Some;
            let production = instance.spec.environment == Environment::Production;
            &&& !bare ==> (r matches Ok(j) && j is Nothing)
            &&& r is Err <==> bare && clone && production
            &&& (r matches Ok(j) && j is Refresh) <==> bare && clone && !production
            &&& (r matches Ok(j) && j is Init) <==> bare && !clone && instance.spec.init.enabled
            &&& r matches Err(e) ==> e is Config
        }),
{
}

/// A clone goes from the instance that the spec names to the instance itself.
pub proof fn law_clones_come_from_the_named_instance(
    phase: &Uninitialized,
    instance: &OdooInstance,
    snapshot: &ReconcileSnapshot,
    refresh_job: JobStatus,
    j: AutoRefreshJob,
)
    requires
        call_ensures(
            Uninitialized::ensure,
            (phase, instance, snapshot, refresh_job),
            Ok::<AutoJob, Error>(AutoJob::Refresh(j)),
        ),
    ensures
        instance.spec.production_instance_ref matches Some(source) && {
            &&& j.source_name@ == source.name@
            &&& source.namespace matches Some(n) ==> (j.source_namespace matches Some(k) && k@
                == n@)
            &&& source.namespace is None ==> j.source_namespace is None
        },
        j.instance_name@ == instance.metadata.name_text(),
        j.name@ == instance.metadata.name_text() + "-auto-refresh"@,
        j.namespace@ == instance.metadata.namespace_text(),
        j.owner@.name == instance.metadata.name_text(),
        j.owner@.kind == "OdooInstance"@,
{
}

/// An initialisation that is created without being asked for is the one that the spec
/// describes.
pub proof fn law_initialisations_follow_the_spec(
    phase: &Uninitialized,
    instance: &OdooInstance,
    snapshot: &ReconcileSnapshot,
    refresh_job: JobStatus,
    j: AutoInitJob,
)
    requires
        call_ensures(
            Uninitialized::ensure,
            (phase, instance, snapshot, refresh_job),
            Ok::<AutoJob, Error>(AutoJob::Init(j)),
        ),
    ensures
        j.instance_name@ == instance.metadata.name_text(),
        j.name@ == instance.metadata.name_text() + "-auto-init"@,
        j.namespace@ == instance.metadata.namespace_text(),
        j.owner@.name == instance.metadata.name_text(),
        j.modules@ == instance.spec.init.modules@,
        j.demo == instance.spec.init.demo,
        j.webhook == instance.spec.init.webhook,
{
}

/// A production instance is never cloned over, and says so.
pub proof fn law_production_is_not_cloned_over(
    phase: &Uninitialized,
    instance: &OdooInstance,
    snapshot: &ReconcileSnapshot,
    refresh_job: JobStatus,
    r: Result<AutoJob, Error>,
)
    requires
        call_ensures(Uninitialized::ensure, (phase, instance, snapshot, refresh_job), r),
        instance.spec.environment == Environment::Production,
    ensures
        !(r matches Ok(j) && j is Refresh),
        r matches Err(e) ==> e.detail()
            == "spec.productionInstanceRef is forbidden on production instances"@,
{
}

} // verus!
